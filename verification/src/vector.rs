//! What the vectors of every arity share: the reductions that follow from a
//! sum of components, and the geometry built on the dot product.

use vstd::prelude::*;
use vstd::std_specs::ops::DivSpec;
use vstd::std_specs::ops::MulSpec;
use vstd::std_specs::ops::SubSpec;
use std::ops::Div;
use std::ops::Mul;
use std::ops::Sub;
use crate::traits::Abs;
use crate::traits::Sqrt;
use crate::traits::Trig;

verus! {

/// A vector that can be multiplied and subtracted component by component and
/// whose components can be summed.
pub trait VecOps<T>: Copy + Sized + Mul<Output = Self> + Sub<Output = Self> + Abs {
    /// Whether every addition of the sum is defined.
    open spec fn sum_elem_req(self) -> bool {
        arbitrary()
    }

    /// The sum of the components, taken from the first to the last.
    open spec fn sum_elem_spec(self) -> T {
        arbitrary()
    }

    fn sum_elem(self) -> (r: T)
        requires
            self.sum_elem_req(),
        ensures
            r == self.sum_elem_spec(),
    ;

    /// The sum of the products of the components.
    fn dot(self, rhs: Self) -> (r: T)
        requires
            Self::obeys_mul_spec(),
            self.mul_req(rhs),
            self.mul_spec(rhs).sum_elem_req(),
        ensures
            r == self.mul_spec(rhs).sum_elem_spec(),
    {
        (self * rhs).sum_elem()
    }

    /// The dot product of the difference with itself; no square root is taken.
    fn distance_squared(self, rhs: Self) -> (r: T)
        requires
            Self::obeys_sub_spec(),
            self.sub_req(rhs),
            Self::obeys_mul_spec(),
            self.sub_spec(rhs).mul_req(self.sub_spec(rhs)),
            self.sub_spec(rhs).mul_spec(self.sub_spec(rhs)).sum_elem_req(),
        ensures
            r == self.sub_spec(rhs).mul_spec(self.sub_spec(rhs)).sum_elem_spec(),
    {
        let d = self - rhs;
        d.dot(d)
    }

    /// The sum of the magnitudes of the differences of the components.
    fn orthog_dist(self, rhs: Self) -> (r: T)
        requires
            Self::obeys_sub_spec(),
            self.sub_req(rhs),
            self.sub_spec(rhs).abs_spec().sum_elem_req(),
        ensures
            r == self.sub_spec(rhs).abs_spec().sum_elem_spec(),
    {
        (self - rhs).abs().sum_elem()
    }
}

/// Whether every operation of `dot(a, b)` is defined.
pub open spec fn dot_req<V: VecOps<T>, T>(a: V, b: V) -> bool {
    &&& V::obeys_mul_spec()
    &&& a.mul_req(b)
    &&& a.mul_spec(b).sum_elem_req()
}

/// The dot product: the sum of the products of the components.
pub open spec fn dot_spec<V: VecOps<T>, T>(a: V, b: V) -> T {
    a.mul_spec(b).sum_elem_spec()
}

/// Whether every operation of `distance_squared(a, b)` is defined.
pub open spec fn distance_squared_req<V: VecOps<T>, T>(a: V, b: V) -> bool {
    &&& V::obeys_sub_spec()
    &&& a.sub_req(b)
    &&& dot_req(a.sub_spec(b), a.sub_spec(b))
}

/// The squared distance: the dot product of `a - b` with itself.
pub open spec fn distance_squared_spec<V: VecOps<T>, T>(a: V, b: V) -> T {
    dot_spec(a.sub_spec(b), a.sub_spec(b))
}

/// Whether every operation of `orthog_dist(a, b)` is defined.
pub open spec fn orthog_dist_req<V: VecOps<T>, T>(a: V, b: V) -> bool {
    &&& V::obeys_sub_spec()
    &&& a.sub_req(b)
    &&& a.sub_spec(b).abs_spec().sum_elem_req()
}

/// The distance along the axes: the sum of the magnitudes of the components
/// of `a - b`.
pub open spec fn orthog_dist_spec<V: VecOps<T>, T>(a: V, b: V) -> T {
    a.sub_spec(b).abs_spec().sum_elem_spec()
}

/// Whether every operation of `normalize(v)` is defined.
pub open spec fn normalize_req<V: VecOps<T> + Div<T, Output = V>, T: Sqrt<T>>(v: V) -> bool {
    &&& dot_req(v, v)
    &&& V::obeys_div_spec()
    &&& v.div_req(dot_spec(v, v).sqrt_spec())
}

/// The vector divided by its magnitude.
pub open spec fn normalize_spec<V: VecOps<T> + Div<T, Output = V>, T: Sqrt<T>>(v: V) -> V {
    v.div_spec(dot_spec(v, v).sqrt_spec())
}

/// Whether every operation of `angle_between(a, b)` is defined.
pub open spec fn angle_between_req<V: VecOps<T> + Div<T, Output = V>, T: Trig + Sqrt<T>>(
    a: V,
    b: V,
) -> bool {
    &&& normalize_req(a)
    &&& normalize_req(b)
    &&& dot_req(normalize_spec(a), normalize_spec(b))
}

/// The arccosine of the dot product of the two normalized vectors.
pub open spec fn angle_between_spec<V: VecOps<T> + Div<T, Output = V>, T: Trig + Sqrt<T>>(
    a: V,
    b: V,
) -> T {
    dot_spec(normalize_spec(a), normalize_spec(b)).acos_spec()
}

pub fn dot<V: VecOps<T>, T>(a: V, b: V) -> (r: T)
    requires
        dot_req(a, b),
    ensures
        r == dot_spec(a, b),
{
    a.dot(b)
}

pub fn distance_squared<V: VecOps<T>, T>(a: V, b: V) -> (r: T)
    requires
        distance_squared_req(a, b),
    ensures
        r == distance_squared_spec(a, b),
{
    a.distance_squared(b)
}

/// The square root of the squared distance.
pub fn distance<V: VecOps<T>, T: Sqrt<T>>(a: V, b: V) -> (r: T)
    requires
        distance_squared_req(a, b),
    ensures
        r == distance_squared_spec(a, b).sqrt_spec(),
{
    a.distance_squared(b).sqrt()
}

pub fn orthog_dist<V: VecOps<T>, T>(a: V, b: V) -> (r: T)
    requires
        orthog_dist_req(a, b),
    ensures
        r == orthog_dist_spec(a, b),
{
    a.orthog_dist(b)
}

/// Divides the vector by its magnitude. Nothing guards a magnitude of zero:
/// the quotient is whatever the scalar's division gives.
pub fn normalize<V: VecOps<T> + Div<T, Output = V>, T: Sqrt<T>>(v: V) -> (r: V)
    requires
        normalize_req(v),
    ensures
        r == normalize_spec(v),
{
    v / dot(v, v).sqrt()
}

pub fn angle_between<V: VecOps<T> + Div<T, Output = V>, T: Trig + Sqrt<T>>(a: V, b: V) -> (r: T)
    requires
        angle_between_req(a, b),
    ensures
        r == angle_between_spec(a, b),
{
    let a = normalize(a);
    let b = normalize(b);
    dot(a, b).acos()
}

} // verus!
