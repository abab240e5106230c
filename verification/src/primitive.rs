//! Draw using different graphical primitives.
use crate::alignment;
use crate::color::{Background, Color};
use crate::font::Font;
use crate::geometry::{Rectangle, Vector};
use crate::image;
use crate::svg;
use std::sync::Arc;
use vstd::prelude::*;

pub mod text;

verus! {

/// A rendering primitive: one node of the tree that describes a scene.
///
/// `T` is the kind of leaf that a backend adds to the vocabulary, and `N`
/// the number type that the scene is measured in.
#[derive(Debug, PartialEq)]
pub enum Primitive<T, N> {
    /// A text primitive.
    Text {
        /// The contents of the text.
        content: text::Content<N>,
        /// The bounds of the text.
        bounds: Rectangle<N>,
        /// The size of the text in logical pixels.
        size: N,
        /// The line height of the text.
        line_height: text::LineHeight<N>,
        /// The horizontal alignment of the text.
        horizontal_alignment: alignment::Horizontal,
        /// The vertical alignment of the text.
        vertical_alignment: alignment::Vertical,
        /// The shaping strategy of the text.
        shaping: text::Shaping,
    },
    /// A quad primitive.
    Quad {
        /// The bounds of the quad.
        bounds: Rectangle<N>,
        /// The background of the quad.
        background: Background<N>,
        /// The border radii of the quad.
        border_radius: [N; 4],
        /// The border width of the quad.
        border_width: N,
        /// The border colour of the quad.
        border_color: Color<N>,
    },
    /// An image primitive.
    Image {
        /// The handle of the image.
        handle: image::Handle,
        /// The bounds of the image.
        bounds: Rectangle<N>,
    },
    /// A vector graphic primitive.
    Svg {
        /// The handle of the vector graphic.
        handle: svg::Handle,
        /// The colour filter.
        color: Option<Color<N>>,
        /// The bounds of the viewport.
        bounds: Rectangle<N>,
    },
    /// A group of primitives, drawn in order.
    Group {
        /// The primitives of the group.
        primitives: Vec<Primitive<T, N>>,
    },
    /// A clip primitive.
    Clip {
        /// The bounds of the clip.
        bounds: Rectangle<N>,
        /// The content of the clip.
        content: Box<Primitive<T, N>>,
    },
    /// A primitive that applies a translation.
    Translate {
        /// The translation vector.
        translation: Vector<N>,
        /// The primitive to translate.
        content: Box<Primitive<T, N>>,
    },
    /// A cached primitive.
    ///
    /// This is the one place where trees share a part: a widget whose
    /// primitives are expensive to generate keeps the handle across frames
    /// and decides when to let it go.
    Cache {
        /// The cached primitive.
        content: Arc<Primitive<T, N>>,
    },
    /// A backend-specific primitive.
    Custom(T),
}

impl<T, N> Primitive<T, N> {
    /// Creates a group of the given primitives, in their order.
    pub fn group(primitives: Vec<Self>) -> (group: Self)
        ensures
            group == (Primitive::Group { primitives }),
    {
        Primitive::Group { primitives }
    }

    /// Creates a clip of `bounds` around the primitive.
    pub fn clip(self, bounds: Rectangle<N>) -> (clip: Self)
        ensures
            clip == (Primitive::Clip { bounds, content: Box::new(self) }),
    {
        Primitive::Clip { bounds, content: Box::new(self) }
    }

    /// Creates a translation of the primitive by `translation`.
    pub fn translate(self, translation: Vector<N>) -> (translate: Self)
        ensures
            translate == (Primitive::Translate { translation, content: Box::new(self) }),
    {
        Primitive::Translate { translation, content: Box::new(self) }
    }

    /// The number of primitives that a group holds, and zero for anything
    /// but a group.
    pub open spec fn arity(self) -> nat {
        match self {
            Primitive::Group { primitives } => primitives@.len(),
            _ => 0,
        }
    }

    /// Whether the primitive is a text primitive that says what the
    /// paragraph says.
    pub open spec fn shows(self, paragraph: crate::text::TextView<Font, N>) -> bool {
        match self {
            Primitive::Text {
                content,
                bounds,
                size,
                line_height,
                horizontal_alignment,
                vertical_alignment,
                shaping,
            } => {
                &&& content@ == paragraph.content
                &&& bounds == paragraph.bounds
                &&& size == paragraph.size
                &&& line_height == paragraph.line_height
                &&& horizontal_alignment == paragraph.horizontal_alignment
                &&& vertical_alignment == paragraph.vertical_alignment
                &&& shaping == paragraph.shaping
            },
            _ => false,
        }
    }
}

impl<'a, T, N: Copy> From<crate::text::Text<'a, Font, N>> for Primitive<T, N> {
    /// Turns a paragraph into a text primitive that owns its characters.
    fn from(paragraph: crate::text::Text<'a, Font, N>) -> (primitive: Primitive<T, N>)
        ensures
            primitive.shows(paragraph@),
    {
        Primitive::Text {
            content: text::Content::from(paragraph.content),
            bounds: paragraph.bounds,
            size: paragraph.size,
            line_height: paragraph.line_height,
            horizontal_alignment: paragraph.horizontal_alignment,
            vertical_alignment: paragraph.vertical_alignment,
            shaping: paragraph.shaping,
        }
    }
}

/// The conversion allocates, so what it returns is stated of its view.
impl<'a, T, N: Copy> vstd::std_specs::convert::FromSpecImpl<crate::text::Text<'a, Font, N>> for Primitive<T, N> {
    open spec fn obeys_from_spec() -> bool {
        false
    }

    open spec fn from_spec(paragraph: crate::text::Text<'a, Font, N>) -> Primitive<T, N> {
        arbitrary()
    }
}

impl<T: Clone, N: Copy> Primitive<T, N> {
    /// Whether `copy` is a copy of the primitive: a tree of the same shape
    /// in which every text says the same, every backend-specific primitive
    /// is a clone of the one in its place, every cached part is shared, and
    /// everything else is equal.
    pub open spec fn copied(self, copy: Self) -> bool
        decreases self,
    {
        match self {
            Primitive::Text {
                content,
                bounds,
                size,
                line_height,
                horizontal_alignment,
                vertical_alignment,
                shaping,
            } => {
                &&& copy is Text
                &&& copy->Text_content@ == content@
                &&& copy->Text_bounds == bounds
                &&& copy->size == size
                &&& copy->line_height == line_height
                &&& copy->horizontal_alignment == horizontal_alignment
                &&& copy->vertical_alignment == vertical_alignment
                &&& copy->shaping == shaping
            },
            Primitive::Quad { .. } => copy == self,
            Primitive::Image { .. } => copy == self,
            Primitive::Svg { .. } => copy == self,
            Primitive::Group { primitives } => {
                &&& copy is Group
                &&& copy->primitives@.len() == primitives@.len()
                &&& forall|i: int|
                    0 <= i < primitives@.len() ==> (#[trigger] primitives@[i]).copied(
                        copy->primitives@[i],
                    )
            },
            Primitive::Clip { bounds, content } => {
                &&& copy is Clip
                &&& copy->Clip_bounds == bounds
                &&& content.copied(*copy->Clip_content)
            },
            Primitive::Translate { translation, content } => {
                &&& copy is Translate
                &&& copy->translation == translation
                &&& content.copied(*copy->Translate_content)
            },
            Primitive::Cache { .. } => copy == self,
            Primitive::Custom(custom) => copy is Custom && cloned::<T>(custom, copy->Custom_0),
        }
    }
}

impl<T: Clone, N: Copy> Clone for Primitive<T, N> {
    /// Copies the tree node by node. A cached part is not copied: both
    /// trees share it.
    fn clone(&self) -> (copy: Self)
        ensures
            self.copied(copy),
        decreases self,
    {
        match self {
            Primitive::Text {
                content,
                bounds,
                size,
                line_height,
                horizontal_alignment,
                vertical_alignment,
                shaping,
            } => Primitive::Text {
                content: content.clone(),
                bounds: *bounds,
                size: *size,
                line_height: *line_height,
                horizontal_alignment: *horizontal_alignment,
                vertical_alignment: *vertical_alignment,
                shaping: *shaping,
            },
            Primitive::Quad { bounds, background, border_radius, border_width, border_color } => {
                Primitive::Quad {
                    bounds: *bounds,
                    background: *background,
                    border_radius: *border_radius,
                    border_width: *border_width,
                    border_color: *border_color,
                }
            },
            Primitive::Image { handle, bounds } => Primitive::Image {
                handle: *handle,
                bounds: *bounds,
            },
            Primitive::Svg { handle, color, bounds } => Primitive::Svg {
                handle: *handle,
                color: *color,
                bounds: *bounds,
            },
            Primitive::Group { primitives } => {
                let mut copies: Vec<Primitive<T, N>> = Vec::new();
                let mut index: usize = 0;
                while index < primitives.len()
                    invariant
                        index <= primitives@.len(),
                        self is Group,
                        self->primitives == *primitives,
                        copies@.len() == index,
                        forall|i: int|
                            0 <= i < index ==> (#[trigger] primitives@[i]).copied(copies@[i]),
                    decreases primitives@.len() - index,
                {
                    assert(decreases_to!(*self => self->primitives));
                    assert(decreases_to!(*primitives => primitives[index as int]));
                    copies.push(primitives[index].clone());
                    index += 1;
                }
                Primitive::Group { primitives: copies }
            },
            Primitive::Clip { bounds, content } => Primitive::Clip {
                bounds: *bounds,
                content: Box::new((&**content).clone()),
            },
            Primitive::Translate { translation, content } => Primitive::Translate {
                translation: *translation,
                content: Box::new((&**content).clone()),
            },
            Primitive::Cache { content } => Primitive::Cache { content: share(content) },
            Primitive::Custom(custom) => Primitive::Custom(custom.clone()),
        }
    }
}

/// `Arc::clone`: returns another handle of the allocation that `handle`
/// points to, so both handles hold the same value.
#[verifier::external_body]
fn share<T>(handle: &Arc<T>) -> (shared: Arc<T>)
    ensures
        shared == *handle,
{
    Arc::clone(handle)
}

} // verus!
