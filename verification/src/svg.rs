//! Vector graphics.
use vstd::prelude::*;

verus! {

/// A handle of some vector graphic.
#[derive(Clone, Copy, Debug, PartialEq, Eq, Hash)]
pub struct Handle {
    /// The number that the graphic is known by.
    pub id: u64,
}

} // verus!
