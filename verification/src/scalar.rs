//! The numbers a scene is measured in.
//!
//! Lengths, coordinates and colour channels are generic over their number
//! type, so that a backend can measure in whatever its GPU takes. What the
//! library itself has to compute with them is asked of [`Scalar`].
use vstd::prelude::*;

verus! {

/// A number type that lengths and coordinates can be measured in.
///
/// Every operation is total and a function of its arguments: the
/// specification functions name the results, the executable ones compute
/// them. An implementation that is not verified gives each specification
/// function the body of its executable counterpart; it is never run.
pub trait Scalar: Copy {
    /// The number that stands for a whole number.
    spec fn integer(value: u32) -> Self;

    /// The number that stands for "no limit".
    spec fn unbounded() -> Self;

    /// The sum of two numbers.
    spec fn sum(self, other: Self) -> Self;

    /// The difference of two numbers.
    spec fn difference(self, other: Self) -> Self;

    /// The product of two numbers.
    spec fn product(self, other: Self) -> Self;

    /// The quotient of two numbers.
    spec fn quotient(self, other: Self) -> Self;

    /// Whether two numbers compare equal.
    spec fn equals(self, other: Self) -> bool;

    /// Whether a number comes before another.
    spec fn precedes(self, other: Self) -> bool;

    /// Returns the number that stands for `value`.
    fn whole(value: u32) -> (r: Self)
        ensures
            r == Self::integer(value),
    ;

    /// Returns the number that stands for "no limit".
    fn infinity() -> (r: Self)
        ensures
            r == Self::unbounded(),
    ;

    /// Returns `self + other`.
    fn plus(self, other: Self) -> (r: Self)
        ensures
            r == self.sum(other),
    ;

    /// Returns `self - other`.
    fn minus(self, other: Self) -> (r: Self)
        ensures
            r == self.difference(other),
    ;

    /// Returns `self * other`.
    fn times(self, other: Self) -> (r: Self)
        ensures
            r == self.product(other),
    ;

    /// Returns `self / other`.
    fn over(self, other: Self) -> (r: Self)
        ensures
            r == self.quotient(other),
    ;

    /// Returns whether `self` and `other` compare equal.
    fn same(self, other: Self) -> (r: bool)
        ensures
            r == self.equals(other),
    ;

    /// Returns whether `self < other`.
    fn below(self, other: Self) -> (r: bool)
        ensures
            r == self.precedes(other),
    ;
}

/// The one of two numbers that comes first, and the first where neither
/// comes before the other.
pub open spec fn least<N: Scalar>(first: N, second: N) -> N {
    if second.precedes(first) {
        second
    } else {
        first
    }
}

/// The one of two numbers that comes last, and the first where neither
/// comes before the other.
pub open spec fn greatest<N: Scalar>(first: N, second: N) -> N {
    if first.precedes(second) {
        second
    } else {
        first
    }
}

/// Returns the one of two numbers that comes first.
pub fn smaller<N: Scalar>(first: N, second: N) -> (r: N)
    ensures
        r == least(first, second),
{
    if second.below(first) {
        second
    } else {
        first
    }
}

/// Returns the one of two numbers that comes last.
pub fn larger<N: Scalar>(first: N, second: N) -> (r: N)
    ensures
        r == greatest(first, second),
{
    if first.below(second) {
        second
    } else {
        first
    }
}

/// The `i32` nearest to `value`.
pub open spec fn clamped(value: int) -> i32 {
    if value > i32::MAX {
        i32::MAX
    } else if value < i32::MIN {
        i32::MIN
    } else {
        value as i32
    }
}

/// The quotient of `dividend` by `divisor`, rounded towards zero.
pub open spec fn truncated(dividend: int, divisor: int) -> int
    recommends
        divisor != 0,
{
    if dividend >= 0 && divisor > 0 {
        dividend / divisor
    } else if dividend >= 0 {
        -(dividend / (-divisor))
    } else if divisor > 0 {
        -((-dividend) / divisor)
    } else {
        (-dividend) / (-divisor)
    }
}

/// Whole numbers. Results that leave the range of `i32` stop at its ends,
/// the largest value stands for "no limit", and a quotient is rounded
/// towards zero. Dividing by zero gives the end of the range on the side of
/// the dividend, and zero for zero.
impl Scalar for i32 {
    open spec fn integer(value: u32) -> i32 {
        clamped(value as int)
    }

    open spec fn unbounded() -> i32 {
        i32::MAX
    }

    open spec fn sum(self, other: i32) -> i32 {
        clamped(self + other)
    }

    open spec fn difference(self, other: i32) -> i32 {
        clamped(self - other)
    }

    open spec fn product(self, other: i32) -> i32 {
        clamped(self * other)
    }

    open spec fn quotient(self, other: i32) -> i32 {
        if other != 0 {
            clamped(truncated(self as int, other as int))
        } else if self > 0 {
            i32::MAX
        } else if self < 0 {
            i32::MIN
        } else {
            0
        }
    }

    open spec fn equals(self, other: i32) -> bool {
        self == other
    }

    open spec fn precedes(self, other: i32) -> bool {
        self < other
    }

    fn whole(value: u32) -> (r: i32) {
        if value > 0x7fff_ffff {
            i32::MAX
        } else {
            value as i32
        }
    }

    fn infinity() -> (r: i32) {
        i32::MAX
    }

    fn plus(self, other: i32) -> (r: i32) {
        let wide: i64 = self as i64 + other as i64;
        narrow(wide)
    }

    fn minus(self, other: i32) -> (r: i32) {
        let wide: i64 = self as i64 - other as i64;
        narrow(wide)
    }

    fn times(self, other: i32) -> (r: i32) {
        assert(-0x4000_0000_0000_0000 <= self * other <= 0x4000_0000_0000_0000)
            by (nonlinear_arith)
            requires
                -0x8000_0000 <= self <= 0x7fff_ffff,
                -0x8000_0000 <= other <= 0x7fff_ffff,
        ;
        let wide: i64 = self as i64 * other as i64;
        narrow(wide)
    }

    fn over(self, other: i32) -> (r: i32) {
        if other != 0 {
            let dividend: i64 = if self < 0 {
                -(self as i64)
            } else {
                self as i64
            };
            let divisor: i64 = if other < 0 {
                -(other as i64)
            } else {
                other as i64
            };
            let quotient: i64 = dividend / divisor;
            if (self < 0) == (other < 0) {
                narrow(quotient)
            } else {
                narrow(-quotient)
            }
        } else if self > 0 {
            i32::MAX
        } else if self < 0 {
            i32::MIN
        } else {
            0
        }
    }

    fn same(self, other: i32) -> (r: bool) {
        self == other
    }

    fn below(self, other: i32) -> (r: bool) {
        self < other
    }
}

/// Brings a wide result back into the range of `i32`.
fn narrow(wide: i64) -> (r: i32)
    ensures
        r == clamped(wide as int),
{
    if wide > i32::MAX as i64 {
        i32::MAX
    } else if wide < i32::MIN as i64 {
        i32::MIN
    } else {
        wide as i32
    }
}

} // verus!
