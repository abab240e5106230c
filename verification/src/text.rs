//! Draw and interact with text.
use crate::alignment;
use crate::color::Color;
use crate::geometry::{Pixels, Point, Rectangle, Size};
use crate::scalar::Scalar;
use std::borrow::Cow;
use vstd::prelude::*;

verus! {

/// A paragraph.
#[derive(Debug, Clone)]
pub struct Text<'a, Font, N> {
    /// The content of the paragraph.
    pub content: Content<'a, Font, N>,
    /// The bounds of the paragraph.
    pub bounds: Rectangle<N>,
    /// The size of the text in logical pixels.
    pub size: N,
    /// The line height of the text.
    pub line_height: LineHeight<N>,
    /// The horizontal alignment of the text.
    pub horizontal_alignment: alignment::Horizontal,
    /// The vertical alignment of the text.
    pub vertical_alignment: alignment::Vertical,
    /// The shaping strategy of the text.
    pub shaping: Shaping,
}

/// What a paragraph says, whoever owns its characters.
pub struct TextView<Font, N> {
    /// The content of the paragraph.
    pub content: ContentView<Font, N>,
    /// The bounds of the paragraph.
    pub bounds: Rectangle<N>,
    /// The size of the text in logical pixels.
    pub size: N,
    /// The line height of the text.
    pub line_height: LineHeight<N>,
    /// The horizontal alignment of the text.
    pub horizontal_alignment: alignment::Horizontal,
    /// The vertical alignment of the text.
    pub vertical_alignment: alignment::Vertical,
    /// The shaping strategy of the text.
    pub shaping: Shaping,
}

impl<'a, Font, N> View for Text<'a, Font, N> {
    type V = TextView<Font, N>;

    open spec fn view(&self) -> TextView<Font, N> {
        TextView {
            content: self.content@,
            bounds: self.bounds,
            size: self.size,
            line_height: self.line_height,
            horizontal_alignment: self.horizontal_alignment,
            vertical_alignment: self.vertical_alignment,
            shaping: self.shaping,
        }
    }
}

/// The content of a paragraph.
#[derive(Debug, Clone)]
pub enum Content<'a, Font, N> {
    /// A single span of text.
    Span(Span<'a, Font, N>),
    /// Multiple spans of text, laid out one after the other as one
    /// paragraph.
    Spans(Vec<Span<'a, Font, N>>),
}

/// What some content says, whoever owns its characters.
pub enum ContentView<Font, N> {
    /// A single span of text.
    Span(SpanView<Font, N>),
    /// Multiple spans of text.
    Spans(Seq<SpanView<Font, N>>),
}

impl<Font, N> ContentView<Font, N> {
    /// The spans in paragraph order.
    pub open spec fn spans(self) -> Seq<SpanView<Font, N>> {
        match self {
            ContentView::Span(span) => seq![span],
            ContentView::Spans(spans) => spans,
        }
    }
}

impl<'a, Font, N> View for Content<'a, Font, N> {
    type V = ContentView<Font, N>;

    open spec fn view(&self) -> ContentView<Font, N> {
        match self {
            Content::Span(span) => ContentView::Span(span@),
            Content::Spans(spans) => ContentView::Spans(
                Seq::new(spans@.len(), |i: int| spans@[i]@),
            ),
        }
    }
}

impl<'a, Font, N> Content<'a, Font, N> {
    /// The spans in paragraph order.
    pub open spec fn items(self) -> Seq<Span<'a, Font, N>> {
        match self {
            Content::Span(span) => seq![span],
            Content::Spans(spans) => spans@,
        }
    }

    /// What the content says is what its spans say, span by span and in
    /// paragraph order.
    pub proof fn lemma_view_keeps_order(self)
        ensures
            self@.spans().len() == self.items().len(),
            forall|i: int| 0 <= i < self.items().len() ==> self@.spans()[i] == self.items()[i]@,
    {
    }

    /// Creates a single span of text content.
    pub fn span(content: &'a str, color: Color<N>, font: Font) -> (created: Self)
        ensures
            created == Content::Span(Span { content, color, font }),
    {
        Content::Span(Span { content, color, font })
    }

    /// Returns the spans of the content in paragraph order.
    pub fn iter(&self) -> (spans: Vec<&Span<'a, Font, N>>)
        ensures
            spans@.len() == self.items().len(),
            forall|i: int| 0 <= i < spans@.len() ==> *spans@[i] == self.items()[i],
    {
        match self {
            Content::Span(span) => {
                let mut found: Vec<&Span<'a, Font, N>> = Vec::new();
                found.push(span);
                found
            },
            Content::Spans(spans) => {
                let mut found: Vec<&Span<'a, Font, N>> = Vec::new();
                let mut index: usize = 0;
                while index < spans.len()
                    invariant
                        index <= spans@.len(),
                        found@.len() == index,
                        forall|i: int| 0 <= i < index ==> *found@[i] == spans@[i],
                    decreases spans@.len() - index,
                {
                    found.push(&spans[index]);
                    index += 1;
                }
                found
            },
        }
    }
}

/// A span of text.
#[derive(Debug, Clone, Copy)]
pub struct Span<'a, Font, N> {
    /// The content of the span.
    pub content: &'a str,
    /// The colour of the span.
    pub color: Color<N>,
    /// The font of the span.
    pub font: Font,
}

/// What a span says, whoever owns its characters.
pub struct SpanView<Font, N> {
    /// The characters of the span.
    pub content: Seq<char>,
    /// The colour of the span.
    pub color: Color<N>,
    /// The font of the span.
    pub font: Font,
}

impl<'a, Font, N> View for Span<'a, Font, N> {
    type V = SpanView<Font, N>;

    open spec fn view(&self) -> SpanView<Font, N> {
        SpanView { content: self.content@, color: self.color, font: self.font }
    }
}

/// The shaping strategy of some text.
#[derive(Debug, Clone, Copy, PartialEq, Eq, Hash, Structural)]
pub enum Shaping {
    /// No shaping and no font fallback.
    ///
    /// This strategy is cheap, but it neither displays complex scripts
    /// properly nor looks for missing glyphs in other fonts. It is meant for
    /// text and fonts that the application fully controls.
    Basic,
    /// Full shaping and font fallback.
    ///
    /// This strategy is needed where the text holds a complex script, the
    /// font asks for it, or several fonts may be needed to display every
    /// glyph. It is expensive, so it has to be asked for.
    Advanced,
}

impl Default for Shaping {
    fn default() -> (shaping: Shaping)
        ensures
            shaping == Shaping::Basic,
    {
        Shaping::Basic
    }
}

/// The height of a line of text in a paragraph.
#[derive(Debug, Clone, Copy, PartialEq, Eq, Hash)]
pub enum LineHeight<N> {
    /// A factor of the size of the text.
    Relative(N),
    /// An absolute height in logical pixels.
    Absolute(Pixels<N>),
}

impl<N: Scalar> LineHeight<N> {
    /// The line height in logical pixels for text of the given size.
    pub open spec fn resolved(self, text_size: Pixels<N>) -> Pixels<N> {
        match self {
            LineHeight::Relative(factor) => Pixels(factor.product(text_size.0)),
            LineHeight::Absolute(pixels) => pixels,
        }
    }

    /// The line height of text that asks for none: thirteen tenths of its
    /// size.
    pub open spec fn standard() -> LineHeight<N> {
        LineHeight::Relative(N::integer(13).quotient(N::integer(10)))
    }

    /// Returns the line height in absolute logical pixels.
    pub fn to_absolute(self, text_size: Pixels<N>) -> (height: Pixels<N>)
        ensures
            height == self.resolved(text_size),
    {
        match self {
            LineHeight::Relative(factor) => Pixels(factor.times(text_size.0)),
            LineHeight::Absolute(pixels) => pixels,
        }
    }

    /// A relative line height is its factor times the text size, and an
    /// absolute one is itself, whatever the text size.
    pub proof fn lemma_resolution(factor: N, pixels: Pixels<N>, text_size: Pixels<N>)
        ensures
            LineHeight::Relative(factor).resolved(text_size) == Pixels(factor.product(text_size.0)),
            LineHeight::Absolute(pixels).resolved(text_size) == pixels,
    {
    }

    /// A relative and an absolute line height differ, also where they hold
    /// the same number.
    pub proof fn lemma_variants_differ(number: N)
        ensures
            LineHeight::Relative(number) != LineHeight::Absolute(Pixels(number)),
    {
    }
}

impl<N: Scalar> Default for LineHeight<N> {
    fn default() -> (height: LineHeight<N>)
        ensures
            height == LineHeight::<N>::standard(),
    {
        LineHeight::Relative(N::whole(13).over(N::whole(10)))
    }
}

impl<N> From<N> for LineHeight<N> {
    fn from(factor: N) -> (height: LineHeight<N>) {
        LineHeight::Relative(factor)
    }
}

impl<N> vstd::std_specs::convert::FromSpecImpl<N> for LineHeight<N> {
    open spec fn obeys_from_spec() -> bool {
        true
    }

    open spec fn from_spec(factor: N) -> LineHeight<N> {
        LineHeight::Relative(factor)
    }
}

impl<N> From<Pixels<N>> for LineHeight<N> {
    fn from(pixels: Pixels<N>) -> (height: LineHeight<N>) {
        LineHeight::Absolute(pixels)
    }
}

impl<N> vstd::std_specs::convert::FromSpecImpl<Pixels<N>> for LineHeight<N> {
    open spec fn obeys_from_spec() -> bool {
        true
    }

    open spec fn from_spec(pixels: Pixels<N>) -> LineHeight<N> {
        LineHeight::Absolute(pixels)
    }
}

/// The result of hit testing on text.
#[derive(Debug, Clone, Copy, PartialEq, Eq, Hash, Structural)]
pub enum Hit {
    /// The point was within the bounds of the character at the given index.
    CharOffset(usize),
}

impl Hit {
    /// Computes the cursor position of the hit.
    pub fn cursor(self) -> (index: usize)
        ensures
            self == Hit::CharOffset(index),
    {
        match self {
            Hit::CharOffset(i) => i,
        }
    }
}

/// What a renderer was told so far: the fonts it was given and the
/// paragraphs it was asked to draw, each oldest first.
pub struct Record<Font, N> {
    /// The bytes of every font that was loaded.
    pub fonts: Seq<Seq<u8>>,
    /// Every paragraph that was drawn.
    pub texts: Seq<TextView<Font, N>>,
}

/// A renderer capable of measuring and drawing [`Text`].
///
/// The specification functions say what a renderer is at one moment: what
/// it was told, and what it would answer. The executable functions return
/// and change exactly that. An implementation that is not verified still
/// has to define the specification functions; they are never run.
pub trait Renderer: crate::renderer::Renderer {
    /// The font type used.
    type Font: Copy;

    /// The number type that lengths are measured in.
    type Number: Scalar;

    /// The icon font of the backend.
    const ICON_FONT: Self::Font;

    /// The character of a check mark in the icon font.
    const CHECKMARK_ICON: char;

    /// The character of an arrow that points down in the icon font.
    const ARROW_DOWN_ICON: char;

    /// What the renderer was told so far.
    spec fn record(&self) -> Record<Self::Font, Self::Number>;

    /// The font of text that names none.
    spec fn standard_font(&self) -> Self::Font;

    /// The size of text that names none.
    spec fn standard_size(&self) -> Self::Number;

    /// The smallest box that holds the content when it is laid out within
    /// `bounds`, as the renderer stands.
    spec fn measured(
        &self,
        content: ContentView<Self::Font, Self::Number>,
        size: Self::Number,
        line_height: LineHeight<Self::Number>,
        bounds: Size<Self::Number>,
        shaping: Shaping,
    ) -> Size<Self::Number>;

    /// The character that a point falls on when the content is laid out
    /// within `bounds`, as the renderer stands.
    spec fn hit(
        &self,
        content: ContentView<Self::Font, Self::Number>,
        size: Self::Number,
        line_height: LineHeight<Self::Number>,
        bounds: Size<Self::Number>,
        shaping: Shaping,
        point: Point<Self::Number>,
        nearest_only: bool,
    ) -> Option<Hit>;

    /// Returns the default font.
    fn default_font(&self) -> (font: Self::Font)
        ensures
            font == self.standard_font(),
    ;

    /// Returns the default size of text.
    fn default_size(&self) -> (size: Self::Number)
        ensures
            size == self.standard_size(),
    ;

    /// Measures the text in the given bounds and returns the minimum
    /// boundaries that can fit the contents. Content without a span needs
    /// no space.
    fn measure(
        &self,
        content: &Content<'_, Self::Font, Self::Number>,
        size: Self::Number,
        line_height: LineHeight<Self::Number>,
        bounds: Size<Self::Number>,
        shaping: Shaping,
    ) -> (minimum: Size<Self::Number>)
        ensures
            minimum == self.measured(content@, size, line_height, bounds, shaping),
            content@.spans().len() == 0 ==> minimum == Size::<Self::Number>::empty(),
    ;

    /// Measures the width of the text as if it were laid out in a single
    /// line: with lines as high as the text is large, and without bounds.
    fn measure_width(
        &self,
        content: &Content<'_, Self::Font, Self::Number>,
        size: Self::Number,
        shaping: Shaping,
    ) -> (width: Self::Number)
        ensures
            width == self.measured(
                content@,
                size,
                LineHeight::Absolute(Pixels(size)),
                Size::unbounded(),
                shaping,
            ).width,
            content@.spans().len() == 0 ==> width == Self::Number::integer(0),
    {
        let bounds = self.measure(
            content,
            size,
            LineHeight::Absolute(Pixels(size)),
            Size::infinity(),
            shaping,
        );

        bounds.width
    }

    /// Tests whether the provided point is within the boundaries of text
    /// laid out with the given parameters, returning the character it falls
    /// on. Content without a span has no layout, and nothing is hit.
    ///
    /// If `nearest_only` is true, the test does not consider whether the
    /// point is interior to any glyph bounds, and returns the character with
    /// the nearest centroid.
    fn hit_test(
        &self,
        contents: &Content<'_, Self::Font, Self::Number>,
        size: Self::Number,
        line_height: LineHeight<Self::Number>,
        bounds: Size<Self::Number>,
        shaping: Shaping,
        point: Point<Self::Number>,
        nearest_only: bool,
    ) -> (hit: Option<Hit>)
        ensures
            hit == self.hit(contents@, size, line_height, bounds, shaping, point, nearest_only),
            contents@.spans().len() == 0 ==> hit is None,
    ;

    /// Loads a font from its bytes. The font can be used from the next call
    /// on.
    fn load_font(&mut self, font: Cow<'static, [u8]>)
        ensures
            final(self).record() == (Record {
                fonts: old(self).record().fonts.push(font@),
                texts: old(self).record().texts,
            }),
    ;

    /// Draws the given text. What the renderer measures stays as it was.
    fn fill_text(&mut self, text: Text<'_, Self::Font, Self::Number>)
        ensures
            final(self).record() == (Record {
                fonts: old(self).record().fonts,
                texts: old(self).record().texts.push(text@),
            }),
            forall|
                content: ContentView<Self::Font, Self::Number>,
                size: Self::Number,
                line_height: LineHeight<Self::Number>,
                bounds: Size<Self::Number>,
                shaping: Shaping,
            |
                #[trigger] final(self).measured(content, size, line_height, bounds, shaping)
                    == old(self).measured(content, size, line_height, bounds, shaping),
    ;
}

} // verus!
