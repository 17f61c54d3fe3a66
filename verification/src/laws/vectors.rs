//! What holds of the vectors.

use vstd::prelude::*;
use vstd::std_specs::ops::DivSpec;
use vstd::std_specs::ops::MulSpec;
use vstd::std_specs::ops::SubSpec;
use std::ops::Add;
use std::ops::Div;
use std::ops::Mul;
use std::ops::Sub;
use crate::exact::Exact;
use crate::laws::ints::lemma_mul_comm;
use crate::traits::Abs;
use crate::traits::IsNan;
use crate::traits::Sqrt;
use crate::traits::Zero;
use crate::vec2::Vec2;
use crate::vec3::cross_req;
use crate::vec3::cross_spec;
use crate::vec3::Vec3;
use crate::vec4::Vec4;
use crate::vector::dot_spec;

verus! {

/// The cross product of a vector with itself is the zero vector, over every
/// exact scalar, wherever its operations are defined.
pub proof fn lemma_cross_self<T: Exact>(v: Vec3<T>)
    requires
        cross_req(v, v),
    ensures
        cross_spec(v, v) == Vec3::<T>::zero_spec(),
{
    T::lemma_scalar();
    T::lemma_ring();
    lemma_mul_comm(v.y.val(), v.z.val());
    lemma_mul_comm(v.z.val(), v.x.val());
    lemma_mul_comm(v.x.val(), v.y.val());
    let c = cross_spec(v, v);
    assert(c.x.val() == 0);
    assert(c.y.val() == 0);
    assert(c.z.val() == 0);
}

/// The cross product changes sign when its operands change places: the sum of
/// the two is the zero vector, over every exact scalar.
pub proof fn lemma_cross_antisymmetric<T: Exact>(v: Vec3<T>, u: Vec3<T>)
    requires
        cross_req(v, u),
        cross_req(u, v),
    ensures
        cross_spec(v, u).x.val() == -cross_spec(u, v).x.val(),
        cross_spec(v, u).y.val() == -cross_spec(u, v).y.val(),
        cross_spec(v, u).z.val() == -cross_spec(u, v).z.val(),
{
    T::lemma_scalar();
    T::lemma_ring();
    lemma_mul_comm(v.y.val(), u.z.val());
    lemma_mul_comm(v.z.val(), u.y.val());
    lemma_mul_comm(v.z.val(), u.x.val());
    lemma_mul_comm(v.x.val(), u.z.val());
    lemma_mul_comm(v.x.val(), u.y.val());
    lemma_mul_comm(v.y.val(), u.x.val());
}

/// What zero divided by the magnitude of a zero vector is: `sum` is the dot
/// product of the zero vector with itself.
pub open spec fn zero_over_magnitude<T: Zero + Div<Output = T> + Sqrt<T>>(sum: T) -> T {
    T::zero_spec().div_spec(sum.sqrt_spec())
}

/// The zero vector of two components normalizes to itself with
/// `normalize_or_zero`, for every scalar for which zero divided by the magnitude
/// of the zero vector is zero or not a number.
pub proof fn lemma_normalize_or_zero_of_zero2<
    T: Copy + Zero + Div<Output = T> + Sqrt<T> + IsNan + Mul<Output = T> + Add<Output = T> + Sub<
        Output = T,
    > + Abs,
>()
    requires
        ({
            let q = zero_over_magnitude(dot_spec(Vec2::<T>::zero_spec(), Vec2::<T>::zero_spec()));
            q.is_nan_spec() || q == T::zero_spec()
        }),
    ensures
        Vec2::<T>::zero_spec().normalize_or_zero_spec() == Vec2::<T>::zero_spec(),
{
}

/// The zero vector of three components normalizes to itself with
/// `normalize_or_zero`, for every scalar for which zero divided by the magnitude
/// of the zero vector is zero or not a number.
pub proof fn lemma_normalize_or_zero_of_zero3<
    T: Copy + Zero + Div<Output = T> + Sqrt<T> + IsNan + Mul<Output = T> + Add<Output = T> + Sub<
        Output = T,
    > + Abs,
>()
    requires
        ({
            let q = zero_over_magnitude(dot_spec(Vec3::<T>::zero_spec(), Vec3::<T>::zero_spec()));
            q.is_nan_spec() || q == T::zero_spec()
        }),
    ensures
        Vec3::<T>::zero_spec().normalize_or_zero_spec() == Vec3::<T>::zero_spec(),
{
}

/// The zero vector of four components normalizes to itself with
/// `normalize_or_zero`, for every scalar for which zero divided by the magnitude
/// of the zero vector is zero or not a number.
pub proof fn lemma_normalize_or_zero_of_zero4<
    T: Copy + Zero + Div<Output = T> + Sqrt<T> + IsNan + Mul<Output = T> + Add<Output = T> + Sub<
        Output = T,
    > + Abs,
>()
    requires
        ({
            let q = zero_over_magnitude(dot_spec(Vec4::<T>::zero_spec(), Vec4::<T>::zero_spec()));
            q.is_nan_spec() || q == T::zero_spec()
        }),
    ensures
        Vec4::<T>::zero_spec().normalize_or_zero_spec() == Vec4::<T>::zero_spec(),
{
}

} // verus!
