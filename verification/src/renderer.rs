//! What every renderer has, whatever it draws.
use crate::color::Color;
use vstd::prelude::*;

verus! {

/// A component that can draw a user interface.
pub trait Renderer {
    /// The theme that widgets resolve their styles against.
    type Theme;
}

/// The ambient style that a widget is drawn in.
#[derive(Clone, Copy, Debug, PartialEq)]
pub struct Style<N> {
    /// The colour of text that names none of its own.
    pub text_color: Color<N>,
}

} // verus!
