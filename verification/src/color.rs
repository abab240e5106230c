//! Colours.
use crate::scalar::Scalar;
use vstd::prelude::*;

verus! {

/// A colour in the sRGB colour space.
#[derive(Clone, Copy, Debug, PartialEq, Eq, Hash)]
pub struct Color<N> {
    /// The red channel.
    pub r: N,
    /// The green channel.
    pub g: N,
    /// The blue channel.
    pub b: N,
    /// The opacity.
    pub a: N,
}

impl<N: Scalar> Color<N> {
    /// The colour that lets everything behind it through: every channel,
    /// the opacity included, is zero.
    pub open spec fn clear() -> Color<N> {
        Color { r: N::integer(0), g: N::integer(0), b: N::integer(0), a: N::integer(0) }
    }

    /// Returns the colour that lets everything behind it through.
    pub fn transparent() -> (color: Color<N>)
        ensures
            color == Color::<N>::clear(),
    {
        Color { r: N::whole(0), g: N::whole(0), b: N::whole(0), a: N::whole(0) }
    }
}

/// What fills the inside of a quad.
#[derive(Clone, Copy, Debug, PartialEq, Eq, Hash)]
pub enum Background<N> {
    /// A single colour.
    Color(Color<N>),
}

impl<N> From<Color<N>> for Background<N> {
    fn from(color: Color<N>) -> (background: Background<N>) {
        Background::Color(color)
    }
}

impl<N> vstd::std_specs::convert::FromSpecImpl<Color<N>> for Background<N> {
    open spec fn obeys_from_spec() -> bool {
        true
    }

    open spec fn from_spec(color: Color<N>) -> Background<N> {
        Background::Color(color)
    }
}

} // verus!
