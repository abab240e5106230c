//! Lengths, points and rectangles in logical pixels.
use crate::scalar::{greatest, larger, least, smaller, Scalar};
use vstd::prelude::*;

verus! {

/// An amount of logical pixels.
#[derive(Clone, Copy, Debug, PartialEq, Eq, Hash)]
pub struct Pixels<N>(pub N);

impl<N> From<N> for Pixels<N> {
    fn from(amount: N) -> (pixels: Pixels<N>) {
        Pixels(amount)
    }
}

impl<N> vstd::std_specs::convert::FromSpecImpl<N> for Pixels<N> {
    open spec fn obeys_from_spec() -> bool {
        true
    }

    open spec fn from_spec(amount: N) -> Pixels<N> {
        Pixels(amount)
    }
}

/// A point in two dimensions.
#[derive(Clone, Copy, Debug, PartialEq, Eq, Hash)]
pub struct Point<N> {
    /// The horizontal coordinate.
    pub x: N,
    /// The vertical coordinate.
    pub y: N,
}

/// A displacement in two dimensions.
#[derive(Clone, Copy, Debug, PartialEq, Eq, Hash)]
pub struct Vector<N> {
    /// The horizontal component.
    pub x: N,
    /// The vertical component.
    pub y: N,
}

impl<N: Scalar> Vector<N> {
    /// The displacement that one displacement after another adds up to.
    pub open spec fn sum(self, other: Vector<N>) -> Vector<N> {
        Vector { x: self.x.sum(other.x), y: self.y.sum(other.y) }
    }

    /// Returns the displacement that `self` and then `other` add up to.
    pub fn plus(self, other: Vector<N>) -> (sum: Vector<N>)
        ensures
            sum == self.sum(other),
    {
        Vector { x: self.x.plus(other.x), y: self.y.plus(other.y) }
    }
}

/// An amount of space in two dimensions.
#[derive(Clone, Copy, Debug, PartialEq, Eq, Hash)]
pub struct Size<N> {
    /// The width.
    pub width: N,
    /// The height.
    pub height: N,
}

impl<N: Scalar> Size<N> {
    /// The size of nothing.
    pub open spec fn empty() -> Size<N> {
        Size { width: N::integer(0), height: N::integer(0) }
    }

    /// Returns the size of nothing.
    pub fn zero() -> (size: Size<N>)
        ensures
            size == Size::<N>::empty(),
    {
        Size { width: N::whole(0), height: N::whole(0) }
    }

    /// The size without a limit in either direction.
    pub open spec fn unbounded() -> Size<N> {
        Size { width: N::unbounded(), height: N::unbounded() }
    }

    /// Returns the size without a limit in either direction.
    pub fn infinity() -> (size: Size<N>)
        ensures
            size == Size::<N>::unbounded(),
    {
        Size { width: N::infinity(), height: N::infinity() }
    }
}

/// An axis-aligned rectangle: its top-left corner and its extent.
#[derive(Clone, Copy, Debug, PartialEq, Eq, Hash)]
pub struct Rectangle<N> {
    /// The horizontal coordinate of the left edge.
    pub x: N,
    /// The vertical coordinate of the top edge.
    pub y: N,
    /// The width.
    pub width: N,
    /// The height.
    pub height: N,
}

impl<N: Scalar> Rectangle<N> {
    /// Returns the rectangle of the given size whose top-left corner is the
    /// origin.
    pub fn with_size(size: Size<N>) -> (rectangle: Rectangle<N>)
        ensures
            rectangle == (Rectangle {
                x: N::integer(0),
                y: N::integer(0),
                width: size.width,
                height: size.height,
            }),
    {
        Rectangle { x: N::whole(0), y: N::whole(0), width: size.width, height: size.height }
    }

    /// The smallest rectangle that holds both rectangles.
    pub open spec fn joined(self, other: Rectangle<N>) -> Rectangle<N> {
        let x = least(self.x, other.x);
        let y = least(self.y, other.y);
        let right = greatest(self.x.sum(self.width), other.x.sum(other.width));
        let bottom = greatest(self.y.sum(self.height), other.y.sum(other.height));

        Rectangle { x, y, width: right.difference(x), height: bottom.difference(y) }
    }

    /// The part that both rectangles cover, where they cover any.
    pub open spec fn overlap(self, other: Rectangle<N>) -> Option<Rectangle<N>> {
        let x = greatest(self.x, other.x);
        let y = greatest(self.y, other.y);
        let right = least(self.x.sum(self.width), other.x.sum(other.width));
        let bottom = least(self.y.sum(self.height), other.y.sum(other.height));
        let width = right.difference(x);
        let height = bottom.difference(y);

        if N::integer(0).precedes(width) && N::integer(0).precedes(height) {
            Some(Rectangle { x, y, width, height })
        } else {
            None
        }
    }

    /// The rectangle moved by a displacement.
    pub open spec fn moved(self, translation: Vector<N>) -> Rectangle<N> {
        Rectangle {
            x: self.x.sum(translation.x),
            y: self.y.sum(translation.y),
            width: self.width,
            height: self.height,
        }
    }

    /// Returns the smallest rectangle that holds both `self` and `other`.
    pub fn union(&self, other: &Rectangle<N>) -> (union: Rectangle<N>)
        ensures
            union == self.joined(*other),
    {
        let x = smaller(self.x, other.x);
        let y = smaller(self.y, other.y);
        let right = larger(self.x.plus(self.width), other.x.plus(other.width));
        let bottom = larger(self.y.plus(self.height), other.y.plus(other.height));

        Rectangle { x, y, width: right.minus(x), height: bottom.minus(y) }
    }

    /// Returns the part that both `self` and `other` cover, or `None` where
    /// they share no area.
    pub fn intersection(&self, other: &Rectangle<N>) -> (intersection: Option<Rectangle<N>>)
        ensures
            intersection == self.overlap(*other),
    {
        let x = larger(self.x, other.x);
        let y = larger(self.y, other.y);
        let right = smaller(self.x.plus(self.width), other.x.plus(other.width));
        let bottom = smaller(self.y.plus(self.height), other.y.plus(other.height));
        let width = right.minus(x);
        let height = bottom.minus(y);

        if N::whole(0).below(width) && N::whole(0).below(height) {
            Some(Rectangle { x, y, width, height })
        } else {
            None
        }
    }

    /// Returns the rectangle moved by `translation`.
    pub fn translate(self, translation: Vector<N>) -> (moved: Rectangle<N>)
        ensures
            moved == self.moved(translation),
    {
        Rectangle {
            x: self.x.plus(translation.x),
            y: self.y.plus(translation.y),
            width: self.width,
            height: self.height,
        }
    }

    /// Returns the horizontal coordinate halfway between the left and the
    /// right edge.
    pub fn center_x(&self) -> (x: N)
        ensures
            x == self.x.sum(self.width.quotient(N::integer(2))),
    {
        self.x.plus(self.width.over(N::whole(2)))
    }

    /// Returns the vertical coordinate halfway between the top and the
    /// bottom edge.
    pub fn center_y(&self) -> (y: N)
        ensures
            y == self.y.sum(self.height.quotient(N::integer(2))),
    {
        self.y.plus(self.height.over(N::whole(2)))
    }
}

impl Rectangle<i32> {
    /// Whether the rectangle has an extent that is not negative, and edges
    /// that are far enough from the ends of the range for sums and
    /// differences of them to be exact.
    pub open spec fn exact(self) -> bool {
        &&& 0 <= self.width
        &&& 0 <= self.height
        &&& -0x4000_0000 <= self.x
        &&& -0x4000_0000 <= self.y
        &&& self.x + self.width < 0x4000_0000
        &&& self.y + self.height < 0x4000_0000
    }

    /// Whether every point of `other` is a point of the rectangle.
    pub open spec fn holds(self, other: Rectangle<i32>) -> bool {
        &&& self.x <= other.x
        &&& self.y <= other.y
        &&& other.x + other.width <= self.x + self.width
        &&& other.y + other.height <= self.y + self.height
    }

    /// The union of two rectangles holds both of them, and nothing smaller
    /// does: any rectangle that holds both holds their union.
    pub proof fn lemma_union_holds_both(self, other: Rectangle<i32>, any: Rectangle<i32>)
        requires
            self.exact(),
            other.exact(),
        ensures
            self.joined(other).exact(),
            self.joined(other).holds(self),
            self.joined(other).holds(other),
            any.holds(self) && any.holds(other) ==> any.holds(self.joined(other)),
    {
    }

    /// Where two rectangles share an area, both hold their intersection,
    /// and the intersection holds whatever both hold.
    pub proof fn lemma_intersection_is_held(self, other: Rectangle<i32>, any: Rectangle<i32>)
        requires
            self.exact(),
            other.exact(),
        ensures
            self.overlap(other) matches Some(shared) ==> {
                &&& shared.exact()
                &&& self.holds(shared)
                &&& other.holds(shared)
                &&& self.holds(any) && other.holds(any) ==> shared.holds(any)
            },
            self.overlap(other) is None ==> !(self.holds(any) && other.holds(any) && 0 < any.width
                && 0 < any.height),
    {
    }
}

} // verus!
