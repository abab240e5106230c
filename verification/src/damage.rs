//! The region of the screen that a primitive touches.
use crate::geometry::{Rectangle, Size};
use crate::primitive::Primitive;
use crate::scalar::Scalar;
use vstd::prelude::*;

verus! {

/// A primitive that can say which part of the screen it covers.
///
/// A backend compares primitives to find what changed between two frames,
/// and repaints the bounds of what did.
///
/// An implementation that is not verified gives `region` the body of
/// `bounds`.
pub trait Damage<N>: PartialEq {
    /// The rectangle that the primitive covers.
    spec fn region(&self) -> Rectangle<N>;

    /// Returns the bounds of the primitive.
    fn bounds(&self) -> (bounds: Rectangle<N>)
        ensures
            bounds == self.region(),
    ;
}

impl<T: Damage<N>, N: Scalar> Primitive<T, N> {
    /// The rectangle that the primitive covers, where only the first
    /// `count` primitives of a group are looked at.
    ///
    /// Text, quads, images and vector graphics cover their bounds. A group
    /// covers the union of what its primitives cover, and nothing at the
    /// origin where it is empty. A clip covers what its content and its
    /// bounds both cover, and nothing at the corner of its bounds where
    /// they share no area. A translation covers what its content covers,
    /// moved. A cache covers what its content covers.
    pub open spec fn extent(self, count: nat) -> Rectangle<N>
        decreases self, count,
    {
        match self {
            Primitive::Text { bounds, .. } => bounds,
            Primitive::Quad { bounds, .. } => bounds,
            Primitive::Image { bounds, .. } => bounds,
            Primitive::Svg { bounds, .. } => bounds,
            Primitive::Group { primitives } => {
                if count == 0 || count > primitives@.len() {
                    Rectangle {
                        x: N::integer(0),
                        y: N::integer(0),
                        width: N::integer(0),
                        height: N::integer(0),
                    }
                } else if count == 1 {
                    primitives@[0].extent(primitives@[0].arity())
                } else {
                    self.extent((count - 1) as nat).joined(
                        primitives@[count - 1].extent(primitives@[count - 1].arity()),
                    )
                }
            },
            Primitive::Clip { bounds, content } => {
                match bounds.overlap(content.extent(content.arity())) {
                    Some(shared) => shared,
                    None => Rectangle {
                        x: bounds.x,
                        y: bounds.y,
                        width: N::integer(0),
                        height: N::integer(0),
                    },
                }
            },
            Primitive::Translate { translation, content } => content.extent(
                content.arity(),
            ).moved(translation),
            Primitive::Cache { content } => content.extent(content.arity()),
            Primitive::Custom(custom) => custom.region(),
        }
    }
}

impl<T: Damage<i32>> Primitive<T, i32> {
    /// What a group covers holds what each of its primitives covers, as
    /// long as the arithmetic on what they cover is exact.
    pub proof fn lemma_group_holds_its_primitives(self, count: nat, index: int)
        requires
            self is Group,
            0 <= index < count <= self.arity(),
            forall|i: int|
                0 <= i < self.arity() ==> (#[trigger] self->primitives@[i]).extent(
                    self->primitives@[i].arity(),
                ).exact(),
        ensures
            self.extent(count).exact(),
            self.extent(count).holds(
                self->primitives@[index].extent(self->primitives@[index].arity()),
            ),
        decreases count,
    {
        let primitives = self->primitives@;
        let last = primitives[count - 1].extent(primitives[count - 1].arity());
        if count > 1 {
            let before = self.extent((count - 1) as nat);
            self.lemma_group_holds_its_primitives((count - 1) as nat, 0);
            before.lemma_union_holds_both(last, last);
            if index < count - 1 {
                self.lemma_group_holds_its_primitives((count - 1) as nat, index);
            }
        }
    }

    /// What a clip covers lies inside its bounds, and inside what its
    /// content covers where the two share an area, as long as the
    /// arithmetic on both is exact.
    pub proof fn lemma_clip_stays_inside(self)
        requires
            self is Clip,
            self->Clip_bounds.exact(),
            self->Clip_content.extent(self->Clip_content.arity()).exact(),
        ensures
            self->Clip_bounds.holds(self.extent(0)),
            self->Clip_bounds.overlap(self->Clip_content.extent(self->Clip_content.arity()))
                is Some ==> self->Clip_content.extent(self->Clip_content.arity()).holds(
                self.extent(0),
            ),
    {
        let inside = self->Clip_content.extent(self->Clip_content.arity());
        self->Clip_bounds.lemma_intersection_is_held(inside, inside);
    }
}

impl<T: Damage<N>, N: Scalar + PartialEq> Damage<N> for Primitive<T, N> {
    /// The rectangle that the whole primitive covers.
    open spec fn region(&self) -> Rectangle<N> {
        self.extent(self.arity())
    }

    fn bounds(&self) -> (bounds: Rectangle<N>)
        decreases self,
    {
        match self {
            Primitive::Text { bounds, .. } => *bounds,
            Primitive::Quad { bounds, .. } => *bounds,
            Primitive::Image { bounds, .. } => *bounds,
            Primitive::Svg { bounds, .. } => *bounds,
            Primitive::Group { primitives } => {
                let mut covered = Rectangle::with_size(Size::zero());
                let mut index: usize = 0;
                while index < primitives.len()
                    invariant
                        index <= primitives@.len(),
                        self is Group,
                        self->primitives == *primitives,
                        covered == self.extent(index as nat),
                    decreases primitives@.len() - index,
                {
                    assert(decreases_to!(*self => self->primitives));
                    assert(decreases_to!(*primitives => primitives[index as int]));
                    let child = primitives[index].bounds();
                    covered = if index == 0 {
                        child
                    } else {
                        covered.union(&child)
                    };
                    index += 1;
                }
                covered
            },
            Primitive::Clip { bounds, content } => {
                match bounds.intersection(&content.bounds()) {
                    Some(shared) => shared,
                    None => Rectangle {
                        x: bounds.x,
                        y: bounds.y,
                        width: N::whole(0),
                        height: N::whole(0),
                    },
                }
            },
            Primitive::Translate { translation, content } => content.bounds().translate(
                *translation,
            ),
            Primitive::Cache { content } => content.bounds(),
            Primitive::Custom(custom) => custom.bounds(),
        }
    }
}

} // verus!
