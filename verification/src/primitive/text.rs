//! Text rendering primitives.
use crate::color::Color;
use crate::font::Font;
use crate::text;
use vstd::prelude::*;

pub use crate::text::{LineHeight, Shaping};

verus! {

/// The text content.
#[derive(Debug, PartialEq)]
pub enum Content<N> {
    /// A single span of text.
    Span(Span<N>),
    /// Multiple spans of text.
    Spans(Vec<Span<N>>),
}

impl<N> View for Content<N> {
    type V = text::ContentView<Font, N>;

    open spec fn view(&self) -> text::ContentView<Font, N> {
        match self {
            Content::Span(span) => text::ContentView::Span(span@),
            Content::Spans(spans) => text::ContentView::Spans(
                Seq::new(spans@.len(), |i: int| spans@[i]@),
            ),
        }
    }
}

impl<N: Copy> Clone for Content<N> {
    fn clone(&self) -> (copy: Content<N>)
        ensures
            copy@ == self@,
    {
        match self {
            Content::Span(span) => Content::Span(span.clone()),
            Content::Spans(spans) => {
                let copies = spans.clone();
                assert(copies@ =~= spans@);
                Content::Spans(copies)
            },
        }
    }
}

impl<'a, N: Copy> From<text::Content<'a, Font, N>> for Content<N> {
    /// Copies the characters of every span, and keeps everything else.
    fn from(content: text::Content<'a, Font, N>) -> (owned: Content<N>)
        ensures
            owned@ == content@,
    {
        match content {
            text::Content::Span(span) => Content::Span(Span::from(span)),
            text::Content::Spans(spans) => {
                let mut copies: Vec<Span<N>> = Vec::new();
                let mut index: usize = 0;
                while index < spans.len()
                    invariant
                        index <= spans@.len(),
                        copies@.len() == index,
                        forall|i: int| 0 <= i < index ==> copies@[i]@ == spans@[i]@,
                    decreases spans@.len() - index,
                {
                    copies.push(Span::from(spans[index]));
                    index += 1;
                }
                assert(Seq::new(copies@.len(), |i: int| copies@[i]@) =~= Seq::new(
                    spans@.len(),
                    |i: int| spans@[i]@,
                ));
                Content::Spans(copies)
            },
        }
    }
}

/// The conversion allocates, so what it returns is stated of its view.
impl<'a, N: Copy> vstd::std_specs::convert::FromSpecImpl<text::Content<'a, Font, N>> for Content<N> {
    open spec fn obeys_from_spec() -> bool {
        false
    }

    open spec fn from_spec(content: text::Content<'a, Font, N>) -> Content<N> {
        arbitrary()
    }
}

impl<'a, N: Copy> From<&'a Content<N>> for text::Content<'a, Font, N> {
    /// Borrows the characters of every span, and keeps everything else.
    fn from(content: &'a Content<N>) -> (borrowed: text::Content<'a, Font, N>)
        ensures
            borrowed@ == content@,
    {
        match content {
            Content::Span(span) => text::Content::Span(text::Span::from(span)),
            Content::Spans(spans) => {
                let mut views: Vec<text::Span<'a, Font, N>> = Vec::new();
                let mut index: usize = 0;
                while index < spans.len()
                    invariant
                        index <= spans@.len(),
                        views@.len() == index,
                        forall|i: int| 0 <= i < index ==> views@[i]@ == spans@[i]@,
                    decreases spans@.len() - index,
                {
                    views.push(text::Span::from(&spans[index]));
                    index += 1;
                }
                assert(Seq::new(views@.len(), |i: int| views@[i]@) =~= Seq::new(
                    spans@.len(),
                    |i: int| spans@[i]@,
                ));
                text::Content::Spans(views)
            },
        }
    }
}

/// The conversion borrows, so what it returns is stated of its view.
impl<'a, N: Copy> vstd::std_specs::convert::FromSpecImpl<&'a Content<N>> for text::Content<'a, Font, N> {
    open spec fn obeys_from_spec() -> bool {
        false
    }

    open spec fn from_spec(content: &'a Content<N>) -> text::Content<'a, Font, N> {
        arbitrary()
    }
}

/// A span of text.
#[derive(Debug, PartialEq)]
pub struct Span<N> {
    /// The content of the span.
    pub content: String,
    /// The colour of the span.
    pub color: Color<N>,
    /// The font of the span.
    pub font: Font,
}

impl<N> View for Span<N> {
    type V = text::SpanView<Font, N>;

    open spec fn view(&self) -> text::SpanView<Font, N> {
        text::SpanView { content: self.content@, color: self.color, font: self.font }
    }
}

impl<N: Copy> Clone for Span<N> {
    fn clone(&self) -> (copy: Span<N>)
        ensures
            copy == *self,
    {
        Span { content: self.content.clone(), color: self.color, font: self.font }
    }
}

impl<'a, N> From<text::Span<'a, Font, N>> for Span<N> {
    /// Copies the characters of the span, and keeps its colour and font.
    fn from(span: text::Span<'a, Font, N>) -> (owned: Span<N>)
        ensures
            owned@ == span@,
    {
        Span { content: span.content.to_owned(), color: span.color, font: span.font }
    }
}

/// The conversion allocates, so what it returns is stated of its view.
impl<'a, N> vstd::std_specs::convert::FromSpecImpl<text::Span<'a, Font, N>> for Span<N> {
    open spec fn obeys_from_spec() -> bool {
        false
    }

    open spec fn from_spec(span: text::Span<'a, Font, N>) -> Span<N> {
        arbitrary()
    }
}

impl<'a, N: Copy> From<&'a Span<N>> for text::Span<'a, Font, N> {
    /// Borrows the characters of the span, and keeps its colour and font.
    fn from(span: &'a Span<N>) -> (borrowed: text::Span<'a, Font, N>)
        ensures
            borrowed@ == span@,
    {
        text::Span { content: span.content.as_str(), color: span.color, font: span.font }
    }
}

/// The conversion borrows, so what it returns is stated of its view.
impl<'a, N: Copy> vstd::std_specs::convert::FromSpecImpl<&'a Span<N>> for text::Span<'a, Font, N> {
    open spec fn obeys_from_spec() -> bool {
        false
    }

    open spec fn from_spec(span: &'a Span<N>) -> text::Span<'a, Font, N> {
        arbitrary()
    }
}

} // verus!
