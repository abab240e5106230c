//! Walk a scene the way a backend draws it.
//!
//! A backend does not draw groups, clips, translations or caches. It draws
//! what they hold, each thing moved and clipped by everything above it.
use crate::geometry::{Rectangle, Vector};
use crate::primitive::Primitive;
use crate::scalar::Scalar;
use vstd::prelude::*;

verus! {

/// A primitive that is drawn as it is, the way a backend meets it in a
/// scene.
#[derive(Debug, PartialEq)]
pub struct Leaf<'a, T, N> {
    /// The text, quad, image, vector graphic or backend-specific primitive
    /// to draw.
    pub primitive: &'a Primitive<T, N>,
    /// How far everything above the primitive moves it.
    pub translation: Vector<N>,
    /// The part of the screen that everything above the primitive leaves
    /// to it.
    pub clip: Rectangle<N>,
}

impl<T, N: Scalar> Primitive<T, N> {
    /// The leaves of the primitive in the order they are drawn in, where
    /// only the first `count` primitives of a group are looked at.
    ///
    /// A group gives the leaves of its primitives, one primitive after the
    /// other. A clip gives the leaves of its content within what its moved
    /// bounds share with the clip so far, and none where they share no
    /// area. A translation gives the leaves of its content, moved further.
    /// A cache gives the leaves of its content. Anything else is a leaf.
    pub open spec fn walked<'a>(
        &'a self,
        clip: Rectangle<N>,
        translation: Vector<N>,
        count: nat,
    ) -> Seq<Leaf<'a, T, N>>
        decreases self, count,
    {
        match self {
            Primitive::Group { primitives } => {
                if count == 0 || count > primitives@.len() {
                    Seq::empty()
                } else {
                    self.walked(clip, translation, (count - 1) as nat) + primitives@[count
                        - 1].walked(clip, translation, primitives@[count - 1].arity())
                }
            },
            Primitive::Clip { bounds, content } => {
                match clip.overlap(bounds.moved(translation)) {
                    Some(inner) => content.walked(inner, translation, content.arity()),
                    None => Seq::empty(),
                }
            },
            Primitive::Translate { translation: further, content } => content.walked(
                clip,
                translation.sum(*further),
                content.arity(),
            ),
            Primitive::Cache { content } => content.walked(clip, translation, content.arity()),
            _ => seq![Leaf { primitive: self, translation, clip }],
        }
    }

    /// Returns the leaves of the primitive in the order they are drawn in:
    /// depth first, and the primitives of a group in their order. Each leaf
    /// comes with the translation and the clip that the primitives above it
    /// add up to, starting from `translation` and `clip`.
    pub fn leaves<'a>(&'a self, clip: Rectangle<N>, translation: Vector<N>) -> (leaves: Vec<
        Leaf<'a, T, N>,
    >)
        ensures
            leaves@ == self.walked(clip, translation, self.arity()),
    {
        let mut leaves: Vec<Leaf<'a, T, N>> = Vec::new();
        self.collect(clip, translation, &mut leaves);
        leaves
    }

    /// Adds the leaves of the primitive to the end of `leaves`.
    fn collect<'a>(
        &'a self,
        clip: Rectangle<N>,
        translation: Vector<N>,
        leaves: &mut Vec<Leaf<'a, T, N>>,
    )
        ensures
            final(leaves)@ == old(leaves)@ + self.walked(clip, translation, self.arity()),
        decreases self,
    {
        match self {
            Primitive::Group { primitives } => {
                let mut index: usize = 0;
                while index < primitives.len()
                    invariant
                        index <= primitives@.len(),
                        self is Group,
                        self->primitives == *primitives,
                        leaves@ == old(leaves)@ + self.walked(clip, translation, index as nat),
                    decreases primitives@.len() - index,
                {
                    assert(decreases_to!(*self => self->primitives));
                    assert(decreases_to!(*primitives => primitives[index as int]));
                    primitives[index].collect(clip, translation, leaves);
                    index += 1;
                    assert(leaves@ =~= old(leaves)@ + self.walked(clip, translation, index as nat));
                }
            },
            Primitive::Clip { bounds, content } => {
                match clip.intersection(&bounds.translate(translation)) {
                    Some(inner) => content.collect(inner, translation, leaves),
                    None => {
                        assert(leaves@ =~= old(leaves)@ + Seq::<Leaf<'a, T, N>>::empty());
                    },
                }
            },
            Primitive::Translate { translation: further, content } => {
                content.collect(clip, translation.plus(*further), leaves);
            },
            Primitive::Cache { content } => {
                content.collect(clip, translation, leaves);
            },
            _ => {
                leaves.push(Leaf { primitive: self, translation, clip });
                assert(leaves@ =~= old(leaves)@ + seq![Leaf { primitive: self, translation, clip }]);
            },
        }
    }

    /// A cache is drawn exactly as its content is.
    pub proof fn lemma_cache_is_transparent(&self, clip: Rectangle<N>, translation: Vector<N>)
        requires
            self is Cache,
        ensures
            self.walked(clip, translation, self.arity()) == self->Cache_content.walked(
                clip,
                translation,
                self->Cache_content.arity(),
            ),
    {
    }

    /// The primitives of a group are drawn in their order: the leaves of
    /// the first `count` are those of the `count - 1` before the last,
    /// followed by those of the last.
    pub proof fn lemma_group_keeps_order(
        &self,
        clip: Rectangle<N>,
        translation: Vector<N>,
        count: nat,
    )
        requires
            self is Group,
            0 < count <= self.arity(),
        ensures
            self.walked(clip, translation, count) == self.walked(
                clip,
                translation,
                (count - 1) as nat,
            ) + self->primitives@[count - 1].walked(
                clip,
                translation,
                self->primitives@[count - 1].arity(),
            ),
    {
    }

    /// Translations add up on the way down: the content of a translation is
    /// drawn as it would be alone, moved by both what was above and the
    /// translation itself.
    pub proof fn lemma_translations_add_up(&self, clip: Rectangle<N>, translation: Vector<N>)
        requires
            self is Translate,
        ensures
            self.walked(clip, translation, self.arity()) == self->Translate_content.walked(
                clip,
                translation.sum(self->translation),
                self->Translate_content.arity(),
            ),
    {
    }

    /// A clip narrows the clip of everything below it to what its moved
    /// bounds share with the clip above, and draws nothing where the two
    /// share no area.
    pub proof fn lemma_clip_narrows(&self, clip: Rectangle<N>, translation: Vector<N>)
        requires
            self is Clip,
        ensures
            clip.overlap(self->Clip_bounds.moved(translation)) matches Some(inner) ==> self.walked(
                clip,
                translation,
                self.arity(),
            ) == self->Clip_content.walked(inner, translation, self->Clip_content.arity()),
            clip.overlap(self->Clip_bounds.moved(translation)) is None ==> self.walked(
                clip,
                translation,
                self.arity(),
            ).len() == 0,
    {
    }
}

} // verus!
