//! What a backend draws in one pass, one kind at a time.
use crate::alignment;
use crate::font::Font;
use crate::geometry::Rectangle;
use crate::text;
use vstd::prelude::*;

verus! {

/// A paragraph of text, as a layer holds it.
#[derive(Debug, Clone)]
pub struct Text<'a, N> {
    /// The content of the text.
    pub content: text::Content<'a, Font, N>,
    /// The layout bounds of the text.
    pub bounds: Rectangle<N>,
    /// The size of the text in logical pixels.
    pub size: N,
    /// The line height of the text.
    pub line_height: text::LineHeight<N>,
    /// The horizontal alignment of the text.
    pub horizontal_alignment: alignment::Horizontal,
    /// The vertical alignment of the text.
    pub vertical_alignment: alignment::Vertical,
    /// The shaping strategy of the text.
    pub shaping: text::Shaping,
}

} // verus!
