//! Where content sits inside the space it is given.
use vstd::prelude::*;

verus! {

/// The horizontal alignment of some content.
#[derive(Clone, Copy, Debug, PartialEq, Eq, Hash, Structural)]
pub enum Horizontal {
    /// Align to the left edge.
    Left,
    /// Centre between the left and the right edge.
    Center,
    /// Align to the right edge.
    Right,
}

/// The vertical alignment of some content.
#[derive(Clone, Copy, Debug, PartialEq, Eq, Hash, Structural)]
pub enum Vertical {
    /// Align to the top edge.
    Top,
    /// Centre between the top and the bottom edge.
    Center,
    /// Align to the bottom edge.
    Bottom,
}

} // verus!
