//! The fonts that text names.
use vstd::prelude::*;

verus! {

/// A font family.
#[derive(Clone, Copy, Debug, PartialEq, Eq, Hash)]
pub enum Family {
    /// The family with the given name.
    Name(&'static str),
    /// A family with serifs.
    Serif,
    /// A family without serifs.
    SansSerif,
    /// A family that imitates handwriting.
    Cursive,
    /// A decorative family.
    Fantasy,
    /// A family in which every glyph is equally wide.
    Monospace,
}

/// The weight of a font.
#[derive(Clone, Copy, Debug, PartialEq, Eq, Hash)]
pub enum Weight {
    /// Thin strokes.
    Thin,
    /// Light strokes.
    Light,
    /// Ordinary strokes.
    Normal,
    /// Medium strokes.
    Medium,
    /// Bold strokes.
    Bold,
    /// The heaviest strokes.
    Black,
}

/// A font.
#[derive(Clone, Copy, Debug, PartialEq, Eq, Hash)]
pub struct Font {
    /// The family of the font.
    pub family: Family,
    /// The weight of the font.
    pub weight: Weight,
    /// Whether every glyph of the font is equally wide.
    pub monospaced: bool,
}

} // verus!
