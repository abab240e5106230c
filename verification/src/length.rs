//! How much of the available space a widget asks for.
use crate::geometry::Pixels;
use vstd::prelude::*;

verus! {

/// The strategy used to fill space in a specific dimension.
#[derive(Clone, Copy, Debug, PartialEq, Eq, Hash)]
pub enum Length<N> {
    /// Fill all the remaining space.
    Fill,
    /// Fill a portion of the remaining space relative to other elements.
    FillPortion(u16),
    /// Fill the least amount of space.
    Shrink,
    /// Fill a fixed amount of space.
    Fixed(N),
}

impl<N> From<Pixels<N>> for Length<N> {
    fn from(amount: Pixels<N>) -> (length: Length<N>) {
        Length::Fixed(amount.0)
    }
}

impl<N> vstd::std_specs::convert::FromSpecImpl<Pixels<N>> for Length<N> {
    open spec fn obeys_from_spec() -> bool {
        true
    }

    open spec fn from_spec(amount: Pixels<N>) -> Length<N> {
        Length::Fixed(amount.0)
    }
}

} // verus!
