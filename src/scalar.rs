use vstd::prelude::*;

verus! {

/// A numeric element type: each value stands for a mathematical integer,
/// and the arithmetic is exact wherever the result fits the type.
pub trait Scalar: Copy + Sized {
    /// The integer that a value stands for.
    spec fn as_int(self) -> int;

    /// Whether an integer can be held by the type.
    spec fn fits(v: int) -> bool;

    /// The additive identity.
    fn zero() -> (r: Self)
        ensures
            r.as_int() == 0,
    ;

    /// The sum of two values.
    fn plus(self, rhs: Self) -> (r: Self)
        requires
            Self::fits(self.as_int() + rhs.as_int()),
        ensures
            r.as_int() == self.as_int() + rhs.as_int(),
    ;

    /// The difference of two values.
    fn minus(self, rhs: Self) -> (r: Self)
        requires
            Self::fits(self.as_int() - rhs.as_int()),
        ensures
            r.as_int() == self.as_int() - rhs.as_int(),
    ;

    /// The product of two values.
    fn times(self, rhs: Self) -> (r: Self)
        requires
            Self::fits(self.as_int() * rhs.as_int()),
        ensures
            r.as_int() == self.as_int() * rhs.as_int(),
    ;
}

impl Scalar for i32 {
    open spec fn as_int(self) -> int {
        self as int
    }

    open spec fn fits(v: int) -> bool {
        i32::MIN <= v <= i32::MAX
    }

    fn zero() -> (r: i32) {
        0
    }

    fn plus(self, rhs: i32) -> (r: i32) {
        self + rhs
    }

    fn minus(self, rhs: i32) -> (r: i32) {
        self - rhs
    }

    fn times(self, rhs: i32) -> (r: i32) {
        self * rhs
    }
}

impl Scalar for i64 {
    open spec fn as_int(self) -> int {
        self as int
    }

    open spec fn fits(v: int) -> bool {
        i64::MIN <= v <= i64::MAX
    }

    fn zero() -> (r: i64) {
        0
    }

    fn plus(self, rhs: i64) -> (r: i64) {
        self + rhs
    }

    fn minus(self, rhs: i64) -> (r: i64) {
        self - rhs
    }

    fn times(self, rhs: i64) -> (r: i64) {
        self * rhs
    }
}

} // verus!
