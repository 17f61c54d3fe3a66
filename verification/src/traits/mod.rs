//! The capabilities that the algebra asks of a scalar type.
//!
//! Each trait names what its methods return with a spec function of the same
//! name and the suffix `_spec`, so that the contracts of generic code can speak
//! of a scalar's square root or sine without knowing the scalar. The trait
//! leaves the function open; an impl says what it is, and proves its methods
//! against it.

use vstd::prelude::*;
use vstd::std_specs::ops::SubSpec;
use std::ops::Sub;

pub mod numbers;

pub use numbers::Abs;
pub use numbers::Half;
pub use numbers::One;
pub use numbers::Two;
pub use numbers::Zero;

verus! {

/// Square root into `T`.
pub trait Sqrt<T>: Sized {
    /// The value that [`Sqrt::sqrt`] returns.
    open spec fn sqrt_spec(self) -> T {
        arbitrary()
    }

    fn sqrt(self) -> (r: T)
        ensures
            r == self.sqrt_spec(),
    ;
}

/// Trigonometric and hyperbolic functions, and their inverses.
pub trait Trig: Sized {
    /// The sine, as [`Trig::sin`] returns it.
    open spec fn sin_spec(self) -> Self {
        arbitrary()
    }

    /// The cosine, as [`Trig::cos`] returns it.
    open spec fn cos_spec(self) -> Self {
        arbitrary()
    }

    /// The tangent, as [`Trig::tan`] returns it.
    open spec fn tan_spec(self) -> Self {
        arbitrary()
    }

    /// The arcsine, as [`Trig::asin`] returns it.
    open spec fn asin_spec(self) -> Self {
        arbitrary()
    }

    /// The arccosine, as [`Trig::acos`] returns it.
    open spec fn acos_spec(self) -> Self {
        arbitrary()
    }

    /// The arctangent, as [`Trig::atan`] returns it.
    open spec fn atan_spec(self) -> Self {
        arbitrary()
    }

    /// The angle of the point whose ordinate is `self` and whose abscissa is
    /// `other`, as [`Trig::atan2`] returns it.
    open spec fn atan2_spec(self, other: Self) -> Self {
        arbitrary()
    }

    /// The hyperbolic sine, as [`Trig::sinh`] returns it.
    open spec fn sinh_spec(self) -> Self {
        arbitrary()
    }

    /// The hyperbolic cosine, as [`Trig::cosh`] returns it.
    open spec fn cosh_spec(self) -> Self {
        arbitrary()
    }

    /// The hyperbolic tangent, as [`Trig::tanh`] returns it.
    open spec fn tanh_spec(self) -> Self {
        arbitrary()
    }

    /// The inverse hyperbolic sine, as [`Trig::asinh`] returns it.
    open spec fn asinh_spec(self) -> Self {
        arbitrary()
    }

    /// The inverse hyperbolic cosine, as [`Trig::acosh`] returns it.
    open spec fn acosh_spec(self) -> Self {
        arbitrary()
    }

    /// The inverse hyperbolic tangent, as [`Trig::atanh`] returns it.
    open spec fn atanh_spec(self) -> Self {
        arbitrary()
    }

    fn sin(self) -> (r: Self)
        ensures
            r == self.sin_spec(),
    ;

    fn cos(self) -> (r: Self)
        ensures
            r == self.cos_spec(),
    ;

    fn tan(self) -> (r: Self)
        ensures
            r == self.tan_spec(),
    ;

    fn asin(self) -> (r: Self)
        ensures
            r == self.asin_spec(),
    ;

    fn acos(self) -> (r: Self)
        ensures
            r == self.acos_spec(),
    ;

    fn atan(self) -> (r: Self)
        ensures
            r == self.atan_spec(),
    ;

    fn atan2(self, other: Self) -> (r: Self)
        ensures
            r == self.atan2_spec(other),
    ;

    /// Sine and cosine of one angle, in that order.
    fn sin_cos(self) -> (r: (Self, Self))
        ensures
            r == (self.sin_spec(), self.cos_spec()),
    ;

    fn sinh(self) -> (r: Self)
        ensures
            r == self.sinh_spec(),
    ;

    fn cosh(self) -> (r: Self)
        ensures
            r == self.cosh_spec(),
    ;

    fn tanh(self) -> (r: Self)
        ensures
            r == self.tanh_spec(),
    ;

    fn asinh(self) -> (r: Self)
        ensures
            r == self.asinh_spec(),
    ;

    fn acosh(self) -> (r: Self)
        ensures
            r == self.acosh_spec(),
    ;

    fn atanh(self) -> (r: Self)
        ensures
            r == self.atanh_spec(),
    ;
}

/// Detection of the value that is not a number, and a maximum and a minimum
/// that avoid it.
///
/// A type without such a value answers `false` and orders as usual. Whatever
/// the type, `non_nan_max` and `non_nan_min` return a value that is not a
/// number only where both operands are: every impl proves it of its methods.
pub trait IsNan: PartialOrd + Sized {
    /// Whether the value is not a number.
    open spec fn is_nan_spec(&self) -> bool {
        arbitrary()
    }

    /// The value that [`IsNan::non_nan_max`] returns.
    open spec fn non_nan_max_spec(self, other: Self) -> Self {
        arbitrary()
    }

    /// The value that [`IsNan::non_nan_min`] returns.
    open spec fn non_nan_min_spec(self, other: Self) -> Self {
        arbitrary()
    }

    fn is_nan(&self) -> (r: bool)
        ensures
            r == self.is_nan_spec(),
    ;

    fn non_nan_max(self, other: Self) -> (r: Self)
        ensures
            r == self.non_nan_max_spec(other),
            r.is_nan_spec() ==> self.is_nan_spec() && other.is_nan_spec(),
    ;

    fn non_nan_min(self, other: Self) -> (r: Self)
        ensures
            r == self.non_nan_min_spec(other),
            r.is_nan_spec() ==> self.is_nan_spec() && other.is_nan_spec(),
    ;
}

/// Rendering within a width of `limit` characters, padded to it on request.
pub trait NiceFmt {
    /// The characters that [`NiceFmt::nice_fmt`] returns.
    open spec fn nice_fmt_spec(&self, limit: usize, pad: bool) -> Seq<char> {
        arbitrary()
    }

    fn nice_fmt(&self, limit: usize, pad: bool) -> (r: String)
        ensures
            r@ == self.nice_fmt_spec(limit, pad),
    ;
}

/// The dot product, for vectors only: two bare scalars have none, so that a
/// call on them does not compile.
pub trait Dot<T>: Copy + Sub<Output = Self> + Sized {
    /// Whether every operation of the product is defined.
    open spec fn dot_req(&self, other: &Self) -> bool {
        arbitrary()
    }

    /// The sum of the products of the components.
    open spec fn dot_spec(&self, other: &Self) -> T {
        arbitrary()
    }

    fn dot(&self, other: &Self) -> (r: T)
        requires
            self.dot_req(other),
        ensures
            r == self.dot_spec(other),
    ;

    /// The dot product of the difference with itself; no square root is taken.
    fn distance_squared(&self, other: &Self) -> (r: T)
        requires
            Self::obeys_sub_spec(),
            self.sub_req(*other),
            self.sub_spec(*other).dot_req(&self.sub_spec(*other)),
        ensures
            r == self.sub_spec(*other).dot_spec(&self.sub_spec(*other)),
    {
        let x = *self - *other;
        x.dot(&x)
    }
}

/// The distance between two values of a type that has a dot product.
pub trait Distance<T> {
    /// Whether every operation of the distance is defined.
    open spec fn distance_req(&self, other: &Self) -> bool {
        arbitrary()
    }

    /// The square root of the squared distance.
    open spec fn distance_spec(&self, other: &Self) -> T {
        arbitrary()
    }

    fn distance(&self, other: &Self) -> (r: T)
        requires
            self.distance_req(other),
        ensures
            r == self.distance_spec(other),
    ;
}

impl<T: Sqrt<T>, V: Dot<T>> Distance<T> for V {
    open spec fn distance_req(&self, other: &Self) -> bool {
        &&& V::obeys_sub_spec()
        &&& self.sub_req(*other)
        &&& self.sub_spec(*other).dot_req(&self.sub_spec(*other))
    }

    open spec fn distance_spec(&self, other: &Self) -> T {
        self.sub_spec(*other).dot_spec(&self.sub_spec(*other)).sqrt_spec()
    }

    fn distance(&self, other: &Self) -> (r: T) {
        self.distance_squared(other).sqrt()
    }
}

/// Every `u8` is a number: the maximum and the minimum are the usual ones.
impl IsNan for u8 {
    open spec fn is_nan_spec(&self) -> bool {
        false
    }

    open spec fn non_nan_max_spec(self, other: Self) -> Self {
        if self > other {
            self
        } else {
            other
        }
    }

    open spec fn non_nan_min_spec(self, other: Self) -> Self {
        if self < other {
            self
        } else {
            other
        }
    }

    fn is_nan(&self) -> (r: bool) {
        false
    }

    fn non_nan_max(self, other: Self) -> (r: Self) {
        if self > other {
            self
        } else {
            other
        }
    }

    fn non_nan_min(self, other: Self) -> (r: Self) {
        if self < other {
            self
        } else {
            other
        }
    }

}

/// Every `u16` is a number: the maximum and the minimum are the usual ones.
impl IsNan for u16 {
    open spec fn is_nan_spec(&self) -> bool {
        false
    }

    open spec fn non_nan_max_spec(self, other: Self) -> Self {
        if self > other {
            self
        } else {
            other
        }
    }

    open spec fn non_nan_min_spec(self, other: Self) -> Self {
        if self < other {
            self
        } else {
            other
        }
    }

    fn is_nan(&self) -> (r: bool) {
        false
    }

    fn non_nan_max(self, other: Self) -> (r: Self) {
        if self > other {
            self
        } else {
            other
        }
    }

    fn non_nan_min(self, other: Self) -> (r: Self) {
        if self < other {
            self
        } else {
            other
        }
    }

}

/// Every `u32` is a number: the maximum and the minimum are the usual ones.
impl IsNan for u32 {
    open spec fn is_nan_spec(&self) -> bool {
        false
    }

    open spec fn non_nan_max_spec(self, other: Self) -> Self {
        if self > other {
            self
        } else {
            other
        }
    }

    open spec fn non_nan_min_spec(self, other: Self) -> Self {
        if self < other {
            self
        } else {
            other
        }
    }

    fn is_nan(&self) -> (r: bool) {
        false
    }

    fn non_nan_max(self, other: Self) -> (r: Self) {
        if self > other {
            self
        } else {
            other
        }
    }

    fn non_nan_min(self, other: Self) -> (r: Self) {
        if self < other {
            self
        } else {
            other
        }
    }

}

/// Every `u64` is a number: the maximum and the minimum are the usual ones.
impl IsNan for u64 {
    open spec fn is_nan_spec(&self) -> bool {
        false
    }

    open spec fn non_nan_max_spec(self, other: Self) -> Self {
        if self > other {
            self
        } else {
            other
        }
    }

    open spec fn non_nan_min_spec(self, other: Self) -> Self {
        if self < other {
            self
        } else {
            other
        }
    }

    fn is_nan(&self) -> (r: bool) {
        false
    }

    fn non_nan_max(self, other: Self) -> (r: Self) {
        if self > other {
            self
        } else {
            other
        }
    }

    fn non_nan_min(self, other: Self) -> (r: Self) {
        if self < other {
            self
        } else {
            other
        }
    }

}

/// Every `usize` is a number: the maximum and the minimum are the usual ones.
impl IsNan for usize {
    open spec fn is_nan_spec(&self) -> bool {
        false
    }

    open spec fn non_nan_max_spec(self, other: Self) -> Self {
        if self > other {
            self
        } else {
            other
        }
    }

    open spec fn non_nan_min_spec(self, other: Self) -> Self {
        if self < other {
            self
        } else {
            other
        }
    }

    fn is_nan(&self) -> (r: bool) {
        false
    }

    fn non_nan_max(self, other: Self) -> (r: Self) {
        if self > other {
            self
        } else {
            other
        }
    }

    fn non_nan_min(self, other: Self) -> (r: Self) {
        if self < other {
            self
        } else {
            other
        }
    }

}

/// Every `i8` is a number: the maximum and the minimum are the usual ones.
impl IsNan for i8 {
    open spec fn is_nan_spec(&self) -> bool {
        false
    }

    open spec fn non_nan_max_spec(self, other: Self) -> Self {
        if self > other {
            self
        } else {
            other
        }
    }

    open spec fn non_nan_min_spec(self, other: Self) -> Self {
        if self < other {
            self
        } else {
            other
        }
    }

    fn is_nan(&self) -> (r: bool) {
        false
    }

    fn non_nan_max(self, other: Self) -> (r: Self) {
        if self > other {
            self
        } else {
            other
        }
    }

    fn non_nan_min(self, other: Self) -> (r: Self) {
        if self < other {
            self
        } else {
            other
        }
    }

}

/// Every `i16` is a number: the maximum and the minimum are the usual ones.
impl IsNan for i16 {
    open spec fn is_nan_spec(&self) -> bool {
        false
    }

    open spec fn non_nan_max_spec(self, other: Self) -> Self {
        if self > other {
            self
        } else {
            other
        }
    }

    open spec fn non_nan_min_spec(self, other: Self) -> Self {
        if self < other {
            self
        } else {
            other
        }
    }

    fn is_nan(&self) -> (r: bool) {
        false
    }

    fn non_nan_max(self, other: Self) -> (r: Self) {
        if self > other {
            self
        } else {
            other
        }
    }

    fn non_nan_min(self, other: Self) -> (r: Self) {
        if self < other {
            self
        } else {
            other
        }
    }

}

/// Every `i32` is a number: the maximum and the minimum are the usual ones.
impl IsNan for i32 {
    open spec fn is_nan_spec(&self) -> bool {
        false
    }

    open spec fn non_nan_max_spec(self, other: Self) -> Self {
        if self > other {
            self
        } else {
            other
        }
    }

    open spec fn non_nan_min_spec(self, other: Self) -> Self {
        if self < other {
            self
        } else {
            other
        }
    }

    fn is_nan(&self) -> (r: bool) {
        false
    }

    fn non_nan_max(self, other: Self) -> (r: Self) {
        if self > other {
            self
        } else {
            other
        }
    }

    fn non_nan_min(self, other: Self) -> (r: Self) {
        if self < other {
            self
        } else {
            other
        }
    }

}

/// Every `i64` is a number: the maximum and the minimum are the usual ones.
impl IsNan for i64 {
    open spec fn is_nan_spec(&self) -> bool {
        false
    }

    open spec fn non_nan_max_spec(self, other: Self) -> Self {
        if self > other {
            self
        } else {
            other
        }
    }

    open spec fn non_nan_min_spec(self, other: Self) -> Self {
        if self < other {
            self
        } else {
            other
        }
    }

    fn is_nan(&self) -> (r: bool) {
        false
    }

    fn non_nan_max(self, other: Self) -> (r: Self) {
        if self > other {
            self
        } else {
            other
        }
    }

    fn non_nan_min(self, other: Self) -> (r: Self) {
        if self < other {
            self
        } else {
            other
        }
    }

}

/// Every `isize` is a number: the maximum and the minimum are the usual ones.
impl IsNan for isize {
    open spec fn is_nan_spec(&self) -> bool {
        false
    }

    open spec fn non_nan_max_spec(self, other: Self) -> Self {
        if self > other {
            self
        } else {
            other
        }
    }

    open spec fn non_nan_min_spec(self, other: Self) -> Self {
        if self < other {
            self
        } else {
            other
        }
    }

    fn is_nan(&self) -> (r: bool) {
        false
    }

    fn non_nan_max(self, other: Self) -> (r: Self) {
        if self > other {
            self
        } else {
            other
        }
    }

    fn non_nan_min(self, other: Self) -> (r: Self) {
        if self < other {
            self
        } else {
            other
        }
    }

}

} // verus!
