//! Write some rich text for your users to read.
use crate::alignment;
use crate::color::Color;
use crate::geometry::{Pixels, Rectangle, Size};
use crate::length::Length;
use crate::renderer;
use crate::scalar::Scalar;
use crate::text;
use crate::text::{LineHeight, Shaping};
use std::borrow::Cow;
use vstd::prelude::*;

verus! {

/// The appearance of some text.
#[derive(Clone, Copy, Debug, PartialEq)]
pub struct Appearance<N> {
    /// The colour of the text, where the theme names one.
    pub color: Option<Color<N>>,
}

/// The style sheet of some text.
///
/// An implementation that is not verified gives `styled` the body of
/// `appearance`.
pub trait StyleSheet<N> {
    /// The supported style of the style sheet.
    type Style: Default + Clone;

    /// The appearance that the theme gives to a style.
    spec fn styled(&self, style: &Self::Style) -> Appearance<N>;

    /// Produces the appearance of some text.
    fn appearance(&self, style: &Self::Style) -> (appearance: Appearance<N>)
        ensures
            appearance == self.styled(style),
    ;
}

/// A span of text.
pub struct Span<'a, R> where R: text::Renderer, R::Theme: StyleSheet<R::Number> {
    /// The content of the span.
    pub content: Cow<'a, str>,
    /// The style of the span.
    pub style: <R::Theme as StyleSheet<R::Number>>::Style,
    /// The font of the span.
    pub font: Option<R::Font>,
}

impl<'a, R> Span<'a, R> where R: text::Renderer, R::Theme: StyleSheet<R::Number> {
    /// Creates a new span with the given content, in the default style and
    /// the renderer's font.
    pub fn new(content: impl Into<Cow<'a, str>>) -> (created: Self)
        ensures
            call_ensures(Into::into, (content,), created.content),
            call_ensures(Default::default, (), created.style),
            created.font is None,
    {
        Span { content: content.into(), style: Default::default(), font: None }
    }

    /// Sets the font of the span.
    pub fn font(self, font: impl Into<R::Font>) -> (updated: Self)
        ensures
            updated.content == self.content,
            updated.style == self.style,
            updated.font matches Some(chosen) && call_ensures(Into::into, (font,), chosen),
    {
        Span { content: self.content, style: self.style, font: Some(font.into()) }
    }

    /// Sets the style of the span.
    pub fn style(
        self,
        style: impl Into<<R::Theme as StyleSheet<R::Number>>::Style>,
    ) -> (updated: Self)
        ensures
            updated.content == self.content,
            call_ensures(Into::into, (style,), updated.style),
            updated.font == self.font,
    {
        Span { content: self.content, style: style.into(), font: self.font }
    }

    /// The characters of the span.
    pub fn text(&self) -> (characters: &str)
        ensures
            characters@ == self.content@,
    {
        match &self.content {
            Cow::Borrowed(borrowed) => borrowed,
            Cow::Owned(owned) => owned.as_str(),
        }
    }
}

impl<'a, R> Span<'a, R> where R: text::Renderer, R::Theme: StyleSheet<R::Number> {
    /// Whether `copy` is a copy of the span: the same content and font, in
    /// a clone of the style.
    pub open spec fn copied(self, copy: Self) -> bool {
        &&& copy.content == self.content
        &&& cloned(self.style, copy.style)
        &&& copy.font == self.font
    }
}

impl<'a, R> Clone for Span<'a, R> where R: text::Renderer, R::Theme: StyleSheet<R::Number> {
    fn clone(&self) -> (copy: Self)
        ensures
            self.copied(copy),
    {
        Span {
            content: match &self.content {
                Cow::Borrowed(borrowed) => Cow::Borrowed(*borrowed),
                Cow::Owned(owned) => Cow::Owned(owned.clone()),
            },
            style: self.style.clone(),
            font: self.font,
        }
    }
}

/// A paragraph of rich text.
pub struct RichText<'a, R> where R: text::Renderer, R::Theme: StyleSheet<R::Number> {
    /// The spans of the paragraph, in reading order.
    pub spans: Vec<Span<'a, R>>,
    /// The size of the text, where it is not the renderer's.
    pub size: Option<R::Number>,
    /// The height of a line.
    pub line_height: LineHeight<R::Number>,
    /// The width of the boundaries.
    pub width: Length<R::Number>,
    /// The height of the boundaries.
    pub height: Length<R::Number>,
    /// The horizontal alignment of the text.
    pub horizontal_alignment: alignment::Horizontal,
    /// The vertical alignment of the text.
    pub vertical_alignment: alignment::Vertical,
    /// The shaping strategy of the text.
    pub shaping: Shaping,
}

/// The rectangle that aligned text is drawn from: the bounds with their
/// corner moved to the edge or centre that each alignment names. The extent
/// stays as the layout computed it.
pub open spec fn anchored<N: Scalar>(
    bounds: Rectangle<N>,
    horizontal_alignment: alignment::Horizontal,
    vertical_alignment: alignment::Vertical,
) -> Rectangle<N> {
    Rectangle {
        x: match horizontal_alignment {
            alignment::Horizontal::Left => bounds.x,
            alignment::Horizontal::Center => bounds.x.sum(bounds.width.quotient(N::integer(2))),
            alignment::Horizontal::Right => bounds.x.sum(bounds.width),
        },
        y: match vertical_alignment {
            alignment::Vertical::Top => bounds.y,
            alignment::Vertical::Center => bounds.y.sum(bounds.height.quotient(N::integer(2))),
            alignment::Vertical::Bottom => bounds.y.sum(bounds.height),
        },
        width: bounds.width,
        height: bounds.height,
    }
}

/// Alignment moves the corner that text is drawn from and never the extent
/// that the layout computed. Text that is aligned left and top is drawn
/// from the corner of its bounds.
pub proof fn lemma_alignment_keeps_extent<N: Scalar>(
    bounds: Rectangle<N>,
    horizontal_alignment: alignment::Horizontal,
    vertical_alignment: alignment::Vertical,
)
    ensures
        anchored(bounds, horizontal_alignment, vertical_alignment).width == bounds.width,
        anchored(bounds, horizontal_alignment, vertical_alignment).height == bounds.height,
        anchored(bounds, alignment::Horizontal::Left, vertical_alignment).x == bounds.x,
        anchored(bounds, horizontal_alignment, alignment::Vertical::Top).y == bounds.y,
        anchored(bounds, alignment::Horizontal::Left, alignment::Vertical::Top) == bounds,
{
}

/// A span as it is measured: in the font it names, else in `font`, and
/// without any colour.
pub open spec fn measured_span<'a, R>(span: Span<'a, R>, font: R::Font) -> text::SpanView<
    R::Font,
    R::Number,
> where R: text::Renderer, R::Theme: StyleSheet<R::Number> {
    text::SpanView {
        content: span.content@,
        color: Color::clear(),
        font: match span.font {
            Some(chosen) => chosen,
            None => font,
        },
    }
}

/// A span as it is drawn: in the colour that the theme gives its style,
/// else in `text_color`, and in the font it names, else in `font`.
pub open spec fn drawn_span<'a, R>(
    span: Span<'a, R>,
    theme: R::Theme,
    text_color: Color<R::Number>,
    font: R::Font,
) -> text::SpanView<R::Font, R::Number> where R: text::Renderer, R::Theme: StyleSheet<R::Number> {
    text::SpanView {
        content: span.content@,
        color: match theme.styled(&span.style).color {
            Some(chosen) => chosen,
            None => text_color,
        },
        font: match span.font {
            Some(chosen) => chosen,
            None => font,
        },
    }
}

/// A span whose style the theme gives a colour is drawn in that colour,
/// whatever the ambient text colour is. Any other span is drawn in the
/// ambient text colour.
pub proof fn lemma_color_falls_back<'a, R>(
    span: Span<'a, R>,
    theme: R::Theme,
    text_color: Color<R::Number>,
    other_color: Color<R::Number>,
    font: R::Font,
) where R: text::Renderer, R::Theme: StyleSheet<R::Number>
    ensures
        theme.styled(&span.style).color matches Some(chosen) ==> {
            &&& drawn_span(span, theme, text_color, font).color == chosen
            &&& drawn_span(span, theme, other_color, font).color == chosen
        },
        theme.styled(&span.style).color is None ==> drawn_span(span, theme, text_color, font).color
            == text_color,
{
}

/// The paragraph that [`draw`] hands to the renderer.
pub open spec fn drawn_text<'a, R>(
    renderer: R,
    style: renderer::Style<R::Number>,
    bounds: Rectangle<R::Number>,
    spans: Seq<Span<'a, R>>,
    size: Option<R::Number>,
    line_height: LineHeight<R::Number>,
    theme: R::Theme,
    horizontal_alignment: alignment::Horizontal,
    vertical_alignment: alignment::Vertical,
    shaping: Shaping,
) -> text::TextView<R::Font, R::Number> where R: text::Renderer, R::Theme: StyleSheet<R::Number> {
    text::TextView {
        content: text::ContentView::Spans(
            Seq::new(
                spans.len(),
                |i: int| drawn_span(spans[i], theme, style.text_color, renderer.standard_font()),
            ),
        ),
        bounds: anchored(bounds, horizontal_alignment, vertical_alignment),
        size: match size {
            Some(chosen) => chosen,
            None => renderer.standard_size(),
        },
        line_height,
        horizontal_alignment,
        vertical_alignment,
        shaping,
    }
}

impl<'a, R> RichText<'a, R> where R: text::Renderer, R::Theme: StyleSheet<R::Number> {
    /// Creates a new paragraph of rich text with the given spans.
    pub fn new(spans: Vec<Span<'a, R>>) -> (created: Self)
        ensures
            created == (RichText {
                spans,
                size: None,
                line_height: LineHeight::standard(),
                width: Length::Shrink,
                height: Length::Shrink,
                horizontal_alignment: alignment::Horizontal::Left,
                vertical_alignment: alignment::Vertical::Top,
                shaping: Shaping::Basic,
            }),
    {
        RichText {
            spans,
            size: None,
            line_height: LineHeight::default(),
            width: Length::Shrink,
            height: Length::Shrink,
            horizontal_alignment: alignment::Horizontal::Left,
            vertical_alignment: alignment::Vertical::Top,
            shaping: Shaping::Basic,
        }
    }

    /// Sets the size of the text.
    pub fn size(self, size: impl Into<Pixels<R::Number>>) -> (updated: Self)
        ensures
            updated.size matches Some(amount) && call_ensures(Into::into, (size,), Pixels(amount)),
            updated == (RichText { size: updated.size, ..self }),
    {
        RichText { size: Some(size.into().0), ..self }
    }

    /// Sets the line height of the text.
    pub fn line_height(self, line_height: impl Into<LineHeight<R::Number>>) -> (updated: Self)
        ensures
            call_ensures(Into::into, (line_height,), updated.line_height),
            updated == (RichText { line_height: updated.line_height, ..self }),
    {
        RichText { line_height: line_height.into(), ..self }
    }

    /// Sets the width of the boundaries.
    pub fn width(self, width: impl Into<Length<R::Number>>) -> (updated: Self)
        ensures
            call_ensures(Into::into, (width,), updated.width),
            updated == (RichText { width: updated.width, ..self }),
    {
        RichText { width: width.into(), ..self }
    }

    /// Sets the height of the boundaries.
    pub fn height(self, height: impl Into<Length<R::Number>>) -> (updated: Self)
        ensures
            call_ensures(Into::into, (height,), updated.height),
            updated == (RichText { height: updated.height, ..self }),
    {
        RichText { height: height.into(), ..self }
    }

    /// Sets the horizontal alignment of the text.
    pub fn horizontal_alignment(self, alignment: alignment::Horizontal) -> (updated: Self)
        ensures
            updated == (RichText { horizontal_alignment: alignment, ..self }),
    {
        RichText { horizontal_alignment: alignment, ..self }
    }

    /// Sets the vertical alignment of the text.
    pub fn vertical_alignment(self, alignment: alignment::Vertical) -> (updated: Self)
        ensures
            updated == (RichText { vertical_alignment: alignment, ..self }),
    {
        RichText { vertical_alignment: alignment, ..self }
    }

    /// Sets the shaping strategy of the text.
    pub fn shaping(self, shaping: Shaping) -> (updated: Self)
        ensures
            updated == (RichText { shaping, ..self }),
    {
        RichText { shaping, ..self }
    }

    /// Measures the paragraph within `max`, the largest size that the
    /// limits of the layout allow.
    ///
    /// The text is measured at its own size, else at the renderer's, and
    /// every span in its own font, else in the renderer's. Colours play no
    /// part. A paragraph without a span needs no space.
    pub fn layout(&self, renderer: &R, max: Size<R::Number>) -> (bounds: Size<R::Number>)
        ensures
            self.spans@.len() == 0 ==> bounds == Size::<R::Number>::empty(),
            bounds == renderer.measured(
                text::ContentView::Spans(
                    Seq::new(
                        self.spans@.len(),
                        |i: int| measured_span(self.spans@[i], renderer.standard_font()),
                    ),
                ),
                match self.size {
                    Some(chosen) => chosen,
                    None => renderer.standard_size(),
                },
                self.line_height,
                max,
                self.shaping,
            ),
    {
        let size = match self.size {
            Some(chosen) => chosen,
            None => renderer.default_size(),
        };

        let mut spans: Vec<text::Span<'_, R::Font, R::Number>> = Vec::new();
        let mut index: usize = 0;
        while index < self.spans.len()
            invariant
                index <= self.spans@.len(),
                spans@.len() == index,
                forall|i: int|
                    0 <= i < index ==> spans@[i]@ == measured_span(
                        self.spans@[i],
                        renderer.standard_font(),
                    ),
            decreases self.spans@.len() - index,
        {
            let span = &self.spans[index];
            spans.push(
                text::Span {
                    content: span.text(),
                    color: Color::transparent(),
                    font: match span.font {
                        Some(chosen) => chosen,
                        None => renderer.default_font(),
                    },
                },
            );
            index += 1;
        }

        let content = text::Content::Spans(spans);
        assert(content@ == text::ContentView::<R::Font, R::Number>::Spans(
            Seq::new(
                self.spans@.len(),
                |i: int| measured_span(self.spans@[i], renderer.standard_font()),
            ),
        )) by {
            assert(content@->Spans_0 =~= Seq::new(
                self.spans@.len(),
                |i: int| measured_span(self.spans@[i], renderer.standard_font()),
            ));
        }

        renderer.measure(&content, size, self.line_height, max, self.shaping)
    }

    /// Draws the paragraph into `bounds`, the rectangle that the layout
    /// gave it.
    pub fn draw(
        &self,
        renderer: &mut R,
        theme: &R::Theme,
        style: &renderer::Style<R::Number>,
        bounds: Rectangle<R::Number>,
    )
        ensures
            final(renderer).record() == (text::Record {
                fonts: old(renderer).record().fonts,
                texts: old(renderer).record().texts.push(
                    drawn_text(
                        *old(renderer),
                        *style,
                        bounds,
                        self.spans@,
                        self.size,
                        self.line_height,
                        *theme,
                        self.horizontal_alignment,
                        self.vertical_alignment,
                        self.shaping,
                    ),
                ),
            }),
    {
        draw(
            renderer,
            style,
            bounds,
            self.spans.as_slice(),
            self.size,
            self.line_height,
            theme,
            self.horizontal_alignment,
            self.vertical_alignment,
            self.shaping,
        );
    }
}

impl<'a, R> Clone for RichText<'a, R> where R: text::Renderer, R::Theme: StyleSheet<R::Number> {
    fn clone(&self) -> (copy: Self)
        ensures
            copy.spans@.len() == self.spans@.len(),
            forall|i: int|
                0 <= i < self.spans@.len() ==> (#[trigger] self.spans@[i]).copied(copy.spans@[i]),
            copy == (RichText { spans: copy.spans, ..*self }),
    {
        let spans = self.spans.clone();

        RichText {
            spans,
            size: self.size,
            line_height: self.line_height,
            width: self.width,
            height: self.height,
            horizontal_alignment: self.horizontal_alignment,
            vertical_alignment: self.vertical_alignment,
            shaping: self.shaping,
        }
    }
}

/// Draws text using the same logic as the [`RichText`] widget.
///
/// Specifically:
///
/// * If no `size` is provided, the default text size of the renderer is
///   used.
/// * If the theme gives the style of a span no colour, the text colour of
///   `style` is used.
/// * If a span names no font, the default font of the renderer is used.
/// * The alignment moves the corner of `bounds` that the text is drawn
///   from, and leaves their extent as it is.
pub fn draw<R>(
    renderer: &mut R,
    style: &renderer::Style<R::Number>,
    bounds: Rectangle<R::Number>,
    spans: &[Span<'_, R>],
    size: Option<R::Number>,
    line_height: LineHeight<R::Number>,
    theme: &R::Theme,
    horizontal_alignment: alignment::Horizontal,
    vertical_alignment: alignment::Vertical,
    shaping: Shaping,
) where R: text::Renderer, R::Theme: StyleSheet<R::Number>
    ensures
        final(renderer).record() == (text::Record {
            fonts: old(renderer).record().fonts,
            texts: old(renderer).record().texts.push(
                drawn_text(
                    *old(renderer),
                    *style,
                    bounds,
                    spans@,
                    size,
                    line_height,
                    *theme,
                    horizontal_alignment,
                    vertical_alignment,
                    shaping,
                ),
            ),
        }),
{
    let x = match horizontal_alignment {
        alignment::Horizontal::Left => bounds.x,
        alignment::Horizontal::Center => bounds.center_x(),
        alignment::Horizontal::Right => bounds.x.plus(bounds.width),
    };

    let y = match vertical_alignment {
        alignment::Vertical::Top => bounds.y,
        alignment::Vertical::Center => bounds.center_y(),
        alignment::Vertical::Bottom => bounds.y.plus(bounds.height),
    };

    let size = match size {
        Some(chosen) => chosen,
        None => renderer.default_size(),
    };

    let mut resolved: Vec<text::Span<'_, R::Font, R::Number>> = Vec::new();
    let mut index: usize = 0;
    while index < spans.len()
        invariant
            index <= spans@.len(),
            resolved@.len() == index,
            *renderer == *old(renderer),
            forall|i: int|
                0 <= i < index ==> resolved@[i]@ == drawn_span(
                    spans@[i],
                    *theme,
                    style.text_color,
                    renderer.standard_font(),
                ),
        decreases spans@.len() - index,
    {
        let span = &spans[index];
        resolved.push(
            text::Span {
                content: span.text(),
                color: match theme.appearance(&span.style).color {
                    Some(chosen) => chosen,
                    None => style.text_color,
                },
                font: match span.font {
                    Some(chosen) => chosen,
                    None => renderer.default_font(),
                },
            },
        );
        index += 1;
    }

    let text = text::Text {
        content: text::Content::Spans(resolved),
        size,
        line_height,
        bounds: Rectangle { x, y, width: bounds.width, height: bounds.height },
        horizontal_alignment,
        vertical_alignment,
        shaping,
    };
    assert(text@.content->Spans_0 =~= Seq::new(
        spans@.len(),
        |i: int| drawn_span(spans@[i], *theme, style.text_color, old(renderer).standard_font()),
    ));

    renderer.fill_text(text);
}

} // verus!
