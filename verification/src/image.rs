//! Raster images.
use vstd::prelude::*;

verus! {

/// A handle of some image data.
#[derive(Clone, Copy, Debug, PartialEq, Eq, Hash)]
pub struct Handle {
    /// The number that the image is known by.
    pub id: u64,
}

} // verus!
