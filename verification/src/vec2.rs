//! Vectors of two components.

use vstd::prelude::*;
use vstd::std_specs::cmp::PartialEqSpec;
use vstd::std_specs::ops::AddSpec;
use vstd::std_specs::ops::DivSpec;
use vstd::std_specs::ops::MulSpec;
use vstd::std_specs::ops::NegSpec;
use vstd::std_specs::ops::RemSpec;
use vstd::std_specs::ops::SubSpec;
use vstd::string::StringExecFns;
use std::ops::Add;
use std::ops::AddAssign;
use std::ops::Div;
use std::ops::DivAssign;
use std::ops::Index;
use std::ops::IndexMut;
use std::ops::Mul;
use std::ops::MulAssign;
use std::ops::Neg;
use std::ops::Rem;
use std::ops::RemAssign;
use std::ops::Sub;
use std::ops::SubAssign;
use crate::text::components;
use crate::text::components_spec;
use crate::text::parses;
use crate::text::views;
use crate::traits::numbers::sign_of;
use crate::traits::Abs;
use crate::traits::Dot;
use crate::traits::IsNan;
use crate::traits::NiceFmt;
use crate::traits::One;
use crate::traits::Sqrt;
use crate::traits::Zero;
use crate::vector::dot_req;
use crate::vector::dot_spec;
use crate::vector::normalize;
use crate::vector::normalize_req;
use crate::vector::normalize_spec;
use crate::vector::VecOps;
use crate::vec3::vec3;
use crate::vec3::Vec3;

verus! {

/// A vector of two components of one scalar type.
#[derive(Debug, Default, Copy, Clone, Eq, Hash)]
pub struct Vec2<T> {
    pub x: T,
    pub y: T,
}

/// The vector of the given components.
pub fn vec2<T>(x: T, y: T) -> (r: Vec2<T>)
    ensures
        r == (Vec2 { x, y }),
{
    Vec2 { x, y }
}

impl<T: PartialEq> PartialEq for Vec2<T> {
    fn eq(&self, other: &Self) -> (r: bool) {
        self.x == other.x && self.y == other.y
    }
}

/// Two vectors are equal where each pair of components is.
impl<T: PartialEq> vstd::std_specs::cmp::PartialEqSpecImpl for Vec2<T> {
    open spec fn obeys_eq_spec() -> bool {
        T::obeys_eq_spec()
    }

    open spec fn eq_spec(&self, other: &Self) -> bool {
        &&& self.x.eq_spec(&other.x)
        &&& self.y.eq_spec(&other.y)
    }
}

impl<T> From<(T, T)> for Vec2<T> {
    fn from(t: (T, T)) -> (r: Self) {
        let (x, y) = t;
        Vec2 { x, y }
    }
}

impl<T> vstd::std_specs::convert::FromSpecImpl<(T, T)> for Vec2<T> {
    open spec fn obeys_from_spec() -> bool {
        true
    }

    open spec fn from_spec(t: (T, T)) -> Self {
        Vec2 { x: t.0, y: t.1 }
    }
}

impl<T: Copy> From<[T; 2]> for Vec2<T> {
    fn from(t: [T; 2]) -> (r: Self) {
        Vec2 { x: t[0], y: t[1] }
    }
}

impl<T: Copy> vstd::std_specs::convert::FromSpecImpl<[T; 2]> for Vec2<T> {
    open spec fn obeys_from_spec() -> bool {
        true
    }

    open spec fn from_spec(t: [T; 2]) -> Self {
        Vec2 { x: t[0], y: t[1] }
    }
}

impl<T> Vec2<T> {
    /// The components in order, as an array.
    pub fn into_array(self) -> (r: [T; 2])
        ensures
            r[0] == self.x,
            r[1] == self.y,
    {
        [self.x, self.y]
    }

    /// The components in order, as a tuple.
    pub fn into_tuple(self) -> (r: (T, T))
        ensures
            r == (self.x, self.y),
    {
        (self.x, self.y)
    }

    /// The vector with `z` as a third component.
    pub fn extend(self, z: T) -> (r: Vec3<T>)
        ensures
            r == (Vec3 { x: self.x, y: self.y, z }),
    {
        vec3(self.x, self.y, z)
    }
}

impl<T: Add<Output = T>> Add for Vec2<T> {
    type Output = Self;

    fn add(self, rhs: Self) -> (r: Self) {
        vec2(self.x + rhs.x, self.y + rhs.y)
    }
}

/// The sum of each pair of components.
impl<T: Add<Output = T>> vstd::std_specs::ops::AddSpecImpl for Vec2<T> {
    open spec fn obeys_add_spec() -> bool {
        T::obeys_add_spec()
    }

    open spec fn add_req(self, rhs: Self) -> bool {
        &&& self.x.add_req(rhs.x)
        &&& self.y.add_req(rhs.y)
    }

    open spec fn add_spec(self, rhs: Self) -> Self {
        Vec2 { x: self.x.add_spec(rhs.x), y: self.y.add_spec(rhs.y) }
    }
}

impl<T: Copy + Add<Output = T>> AddAssign for Vec2<T> {
    fn add_assign(&mut self, rhs: Self)
        requires
            old(self).x.add_req(rhs.x),
            old(self).y.add_req(rhs.y),
        ensures
            T::obeys_add_spec() ==> *final(self) == (Vec2 { x: old(self).x.add_spec(rhs.x), y: old(self).y.add_spec(rhs.y) }),
    {
        self.x = self.x + rhs.x;
        self.y = self.y + rhs.y;
    }
}

impl<T: Copy + Add<Output = T>> Add<T> for Vec2<T> {
    type Output = Self;

    fn add(self, rhs: T) -> (r: Self) {
        vec2(self.x + rhs, self.y + rhs)
    }
}

/// The sum of each component and the scalar.
impl<T: Copy + Add<Output = T>> vstd::std_specs::ops::AddSpecImpl<T> for Vec2<T> {
    open spec fn obeys_add_spec() -> bool {
        T::obeys_add_spec()
    }

    open spec fn add_req(self, rhs: T) -> bool {
        &&& self.x.add_req(rhs)
        &&& self.y.add_req(rhs)
    }

    open spec fn add_spec(self, rhs: T) -> Self {
        Vec2 { x: self.x.add_spec(rhs), y: self.y.add_spec(rhs) }
    }
}

impl<T: Copy + Add<Output = T>> AddAssign<T> for Vec2<T> {
    fn add_assign(&mut self, rhs: T)
        requires
            old(self).x.add_req(rhs),
            old(self).y.add_req(rhs),
        ensures
            T::obeys_add_spec() ==> *final(self) == (Vec2 { x: old(self).x.add_spec(rhs), y: old(self).y.add_spec(rhs) }),
    {
        self.x = self.x + rhs;
        self.y = self.y + rhs;
    }
}

impl<T: Sub<Output = T>> Sub for Vec2<T> {
    type Output = Self;

    fn sub(self, rhs: Self) -> (r: Self) {
        vec2(self.x - rhs.x, self.y - rhs.y)
    }
}

/// The difference of each pair of components.
impl<T: Sub<Output = T>> vstd::std_specs::ops::SubSpecImpl for Vec2<T> {
    open spec fn obeys_sub_spec() -> bool {
        T::obeys_sub_spec()
    }

    open spec fn sub_req(self, rhs: Self) -> bool {
        &&& self.x.sub_req(rhs.x)
        &&& self.y.sub_req(rhs.y)
    }

    open spec fn sub_spec(self, rhs: Self) -> Self {
        Vec2 { x: self.x.sub_spec(rhs.x), y: self.y.sub_spec(rhs.y) }
    }
}

impl<T: Copy + Sub<Output = T>> SubAssign for Vec2<T> {
    fn sub_assign(&mut self, rhs: Self)
        requires
            old(self).x.sub_req(rhs.x),
            old(self).y.sub_req(rhs.y),
        ensures
            T::obeys_sub_spec() ==> *final(self) == (Vec2 { x: old(self).x.sub_spec(rhs.x), y: old(self).y.sub_spec(rhs.y) }),
    {
        self.x = self.x - rhs.x;
        self.y = self.y - rhs.y;
    }
}

impl<T: Copy + Sub<Output = T>> Sub<T> for Vec2<T> {
    type Output = Self;

    fn sub(self, rhs: T) -> (r: Self) {
        vec2(self.x - rhs, self.y - rhs)
    }
}

/// The difference of each component and the scalar.
impl<T: Copy + Sub<Output = T>> vstd::std_specs::ops::SubSpecImpl<T> for Vec2<T> {
    open spec fn obeys_sub_spec() -> bool {
        T::obeys_sub_spec()
    }

    open spec fn sub_req(self, rhs: T) -> bool {
        &&& self.x.sub_req(rhs)
        &&& self.y.sub_req(rhs)
    }

    open spec fn sub_spec(self, rhs: T) -> Self {
        Vec2 { x: self.x.sub_spec(rhs), y: self.y.sub_spec(rhs) }
    }
}

impl<T: Copy + Sub<Output = T>> SubAssign<T> for Vec2<T> {
    fn sub_assign(&mut self, rhs: T)
        requires
            old(self).x.sub_req(rhs),
            old(self).y.sub_req(rhs),
        ensures
            T::obeys_sub_spec() ==> *final(self) == (Vec2 { x: old(self).x.sub_spec(rhs), y: old(self).y.sub_spec(rhs) }),
    {
        self.x = self.x - rhs;
        self.y = self.y - rhs;
    }
}

impl<T: Mul<Output = T>> Mul for Vec2<T> {
    type Output = Self;

    fn mul(self, rhs: Self) -> (r: Self) {
        vec2(self.x * rhs.x, self.y * rhs.y)
    }
}

/// The product of each pair of components.
impl<T: Mul<Output = T>> vstd::std_specs::ops::MulSpecImpl for Vec2<T> {
    open spec fn obeys_mul_spec() -> bool {
        T::obeys_mul_spec()
    }

    open spec fn mul_req(self, rhs: Self) -> bool {
        &&& self.x.mul_req(rhs.x)
        &&& self.y.mul_req(rhs.y)
    }

    open spec fn mul_spec(self, rhs: Self) -> Self {
        Vec2 { x: self.x.mul_spec(rhs.x), y: self.y.mul_spec(rhs.y) }
    }
}

impl<T: Copy + Mul<Output = T>> MulAssign for Vec2<T> {
    fn mul_assign(&mut self, rhs: Self)
        requires
            old(self).x.mul_req(rhs.x),
            old(self).y.mul_req(rhs.y),
        ensures
            T::obeys_mul_spec() ==> *final(self) == (Vec2 { x: old(self).x.mul_spec(rhs.x), y: old(self).y.mul_spec(rhs.y) }),
    {
        self.x = self.x * rhs.x;
        self.y = self.y * rhs.y;
    }
}

impl<T: Copy + Mul<Output = T>> Mul<T> for Vec2<T> {
    type Output = Self;

    fn mul(self, rhs: T) -> (r: Self) {
        vec2(self.x * rhs, self.y * rhs)
    }
}

/// The product of each component and the scalar.
impl<T: Copy + Mul<Output = T>> vstd::std_specs::ops::MulSpecImpl<T> for Vec2<T> {
    open spec fn obeys_mul_spec() -> bool {
        T::obeys_mul_spec()
    }

    open spec fn mul_req(self, rhs: T) -> bool {
        &&& self.x.mul_req(rhs)
        &&& self.y.mul_req(rhs)
    }

    open spec fn mul_spec(self, rhs: T) -> Self {
        Vec2 { x: self.x.mul_spec(rhs), y: self.y.mul_spec(rhs) }
    }
}

impl<T: Copy + Mul<Output = T>> MulAssign<T> for Vec2<T> {
    fn mul_assign(&mut self, rhs: T)
        requires
            old(self).x.mul_req(rhs),
            old(self).y.mul_req(rhs),
        ensures
            T::obeys_mul_spec() ==> *final(self) == (Vec2 { x: old(self).x.mul_spec(rhs), y: old(self).y.mul_spec(rhs) }),
    {
        self.x = self.x * rhs;
        self.y = self.y * rhs;
    }
}

impl<T: Div<Output = T>> Div for Vec2<T> {
    type Output = Self;

    fn div(self, rhs: Self) -> (r: Self) {
        vec2(self.x / rhs.x, self.y / rhs.y)
    }
}

/// The quotient of each pair of components.
impl<T: Div<Output = T>> vstd::std_specs::ops::DivSpecImpl for Vec2<T> {
    open spec fn obeys_div_spec() -> bool {
        T::obeys_div_spec()
    }

    open spec fn div_req(self, rhs: Self) -> bool {
        &&& self.x.div_req(rhs.x)
        &&& self.y.div_req(rhs.y)
    }

    open spec fn div_spec(self, rhs: Self) -> Self {
        Vec2 { x: self.x.div_spec(rhs.x), y: self.y.div_spec(rhs.y) }
    }
}

impl<T: Copy + Div<Output = T>> DivAssign for Vec2<T> {
    fn div_assign(&mut self, rhs: Self)
        requires
            old(self).x.div_req(rhs.x),
            old(self).y.div_req(rhs.y),
        ensures
            T::obeys_div_spec() ==> *final(self) == (Vec2 { x: old(self).x.div_spec(rhs.x), y: old(self).y.div_spec(rhs.y) }),
    {
        self.x = self.x / rhs.x;
        self.y = self.y / rhs.y;
    }
}

impl<T: Copy + Div<Output = T>> Div<T> for Vec2<T> {
    type Output = Self;

    fn div(self, rhs: T) -> (r: Self) {
        vec2(self.x / rhs, self.y / rhs)
    }
}

/// The quotient of each component and the scalar.
impl<T: Copy + Div<Output = T>> vstd::std_specs::ops::DivSpecImpl<T> for Vec2<T> {
    open spec fn obeys_div_spec() -> bool {
        T::obeys_div_spec()
    }

    open spec fn div_req(self, rhs: T) -> bool {
        &&& self.x.div_req(rhs)
        &&& self.y.div_req(rhs)
    }

    open spec fn div_spec(self, rhs: T) -> Self {
        Vec2 { x: self.x.div_spec(rhs), y: self.y.div_spec(rhs) }
    }
}

impl<T: Copy + Div<Output = T>> DivAssign<T> for Vec2<T> {
    fn div_assign(&mut self, rhs: T)
        requires
            old(self).x.div_req(rhs),
            old(self).y.div_req(rhs),
        ensures
            T::obeys_div_spec() ==> *final(self) == (Vec2 { x: old(self).x.div_spec(rhs), y: old(self).y.div_spec(rhs) }),
    {
        self.x = self.x / rhs;
        self.y = self.y / rhs;
    }
}

impl<T: Rem<Output = T>> Rem for Vec2<T> {
    type Output = Self;

    fn rem(self, rhs: Self) -> (r: Self) {
        vec2(self.x % rhs.x, self.y % rhs.y)
    }
}

/// The remainder of each pair of components.
impl<T: Rem<Output = T>> vstd::std_specs::ops::RemSpecImpl for Vec2<T> {
    open spec fn obeys_rem_spec() -> bool {
        T::obeys_rem_spec()
    }

    open spec fn rem_req(self, rhs: Self) -> bool {
        &&& self.x.rem_req(rhs.x)
        &&& self.y.rem_req(rhs.y)
    }

    open spec fn rem_spec(self, rhs: Self) -> Self {
        Vec2 { x: self.x.rem_spec(rhs.x), y: self.y.rem_spec(rhs.y) }
    }
}

impl<T: Copy + Rem<Output = T>> RemAssign for Vec2<T> {
    fn rem_assign(&mut self, rhs: Self)
        requires
            old(self).x.rem_req(rhs.x),
            old(self).y.rem_req(rhs.y),
        ensures
            T::obeys_rem_spec() ==> *final(self) == (Vec2 { x: old(self).x.rem_spec(rhs.x), y: old(self).y.rem_spec(rhs.y) }),
    {
        self.x = self.x % rhs.x;
        self.y = self.y % rhs.y;
    }
}

impl<T: Copy + Rem<Output = T>> Rem<T> for Vec2<T> {
    type Output = Self;

    fn rem(self, rhs: T) -> (r: Self) {
        vec2(self.x % rhs, self.y % rhs)
    }
}

/// The remainder of each component and the scalar.
impl<T: Copy + Rem<Output = T>> vstd::std_specs::ops::RemSpecImpl<T> for Vec2<T> {
    open spec fn obeys_rem_spec() -> bool {
        T::obeys_rem_spec()
    }

    open spec fn rem_req(self, rhs: T) -> bool {
        &&& self.x.rem_req(rhs)
        &&& self.y.rem_req(rhs)
    }

    open spec fn rem_spec(self, rhs: T) -> Self {
        Vec2 { x: self.x.rem_spec(rhs), y: self.y.rem_spec(rhs) }
    }
}

impl<T: Copy + Rem<Output = T>> RemAssign<T> for Vec2<T> {
    fn rem_assign(&mut self, rhs: T)
        requires
            old(self).x.rem_req(rhs),
            old(self).y.rem_req(rhs),
        ensures
            T::obeys_rem_spec() ==> *final(self) == (Vec2 { x: old(self).x.rem_spec(rhs), y: old(self).y.rem_spec(rhs) }),
    {
        self.x = self.x % rhs;
        self.y = self.y % rhs;
    }
}

impl<T: Neg<Output = T>> Neg for Vec2<T> {
    type Output = Self;

    fn neg(self) -> (r: Self) {
        vec2(self.x.neg(), self.y.neg())
    }
}

/// The negation of each component.
impl<T: Neg<Output = T>> vstd::std_specs::ops::NegSpecImpl for Vec2<T> {
    open spec fn obeys_neg_spec() -> bool {
        T::obeys_neg_spec()
    }

    open spec fn neg_req(self) -> bool {
        &&& self.x.neg_req()
        &&& self.y.neg_req()
    }

    open spec fn neg_spec(self) -> Self {
        Vec2 { x: self.x.neg_spec(), y: self.y.neg_spec() }
    }
}

/// The magnitude of each component.
impl<T: Abs> Abs for Vec2<T> {
    open spec fn abs_spec(self) -> Self {
        Vec2 { x: self.x.abs_spec(), y: self.y.abs_spec() }
    }

    fn abs(self) -> (r: Self) {
        vec2(self.x.abs(), self.y.abs())
    }
}

/// Zero in every component.
impl<T: Zero> Zero for Vec2<T> {
    open spec fn zero_spec() -> Self {
        Vec2 { x: T::zero_spec(), y: T::zero_spec() }
    }

    fn zero() -> (r: Self) {
        Vec2 { x: T::zero(), y: T::zero() }
    }
}

/// One in every component.
impl<T: One> One for Vec2<T> {
    open spec fn one_spec() -> Self {
        Vec2 { x: T::one_spec(), y: T::one_spec() }
    }

    fn one() -> (r: Self) {
        Vec2 { x: T::one(), y: T::one() }
    }
}

impl<T: Copy + Mul<Output = T> + Add<Output = T> + Sub<Output = T> + Abs> VecOps<T> for Vec2<T> {
    open spec fn sum_elem_req(self) -> bool {
        &&& T::obeys_add_spec()
        &&& self.x.add_req(self.y)
    }

    open spec fn sum_elem_spec(self) -> T {
        self.x.add_spec(self.y)
    }

    fn sum_elem(self) -> (r: T) {
        self.x + self.y
    }
}

impl<T: Copy + Mul<Output = T> + Add<Output = T> + Sub<Output = T>> Dot<T> for Vec2<T> {
    open spec fn dot_req(&self, other: &Self) -> bool {
        &&& T::obeys_mul_spec()
        &&& T::obeys_add_spec()
        &&& self.x.mul_req(other.x)
        &&& self.y.mul_req(other.y)
        &&& self.x.mul_spec(other.x).add_req(self.y.mul_spec(other.y))
    }

    open spec fn dot_spec(&self, other: &Self) -> T {
        self.x.mul_spec(other.x).add_spec(self.y.mul_spec(other.y))
    }

    fn dot(&self, other: &Self) -> (r: T) {
        self.x * other.x + self.y * other.y
    }
}

impl<T: Copy> Vec2<T> {
    /// Whether every multiplication of `mul_elem` is defined.
    pub open spec fn mul_elem_req(self) -> bool where T: One + Mul<Output = T> {
        &&& T::obeys_mul_spec()
        &&& self.x.mul_req(self.y)
        &&& self.x.mul_spec(self.y).mul_req(T::one_spec())
    }

    /// The product of the components, taken from the first to the last, times one.
    pub open spec fn mul_elem_spec(self) -> T where T: One + Mul<Output = T> {
        self.x.mul_spec(self.y).mul_spec(T::one_spec())
    }

    /// The minimum of each pair of components, avoiding what is not a number.
    pub open spec fn min_spec(self, rhs: Self) -> Self where T: IsNan {
        Vec2 { x: self.x.non_nan_min_spec(rhs.x), y: self.y.non_nan_min_spec(rhs.y) }
    }

    /// The maximum of each pair of components, avoiding what is not a number.
    pub open spec fn max_spec(self, rhs: Self) -> Self where T: IsNan {
        Vec2 { x: self.x.non_nan_max_spec(rhs.x), y: self.y.non_nan_max_spec(rhs.y) }
    }

    /// Each component brought down to `max`, then up to `min`.
    pub open spec fn clamp_spec(self, min: Self, max: Self) -> Self where T: IsNan {
        self.min_spec(max).max_spec(min)
    }

    /// The least component, avoiding what is not a number.
    pub open spec fn min_elem_spec(self) -> T where T: IsNan {
        self.x.non_nan_min_spec(self.y)
    }

    /// The greatest component, avoiding what is not a number.
    pub open spec fn max_elem_spec(self) -> T where T: IsNan {
        self.x.non_nan_max_spec(self.y)
    }

    /// For each component, whether it is not a number.
    pub open spec fn is_nan_spec(self) -> Vec2<bool> where T: IsNan {
        Vec2 { x: self.x.is_nan_spec(), y: self.y.is_nan_spec() }
    }

    /// The normalized vector, or the zero vector where a component of it is not a
    /// number.
    pub open spec fn normalize_or_zero_spec(self) -> Self where
        T: Zero + Div<Output = T> + Sqrt<T> + IsNan,
        Self: VecOps<T>,
     {
        if normalize_spec(self).is_nan_spec().or_spec() {
            Vec2 { x: T::zero_spec(), y: T::zero_spec() }
        } else {
            normalize_spec(self)
        }
    }
}

impl<T: Copy> Vec2<T> {
    /// One in the first component, zero in the others.
    pub fn ident() -> (r: Self) where T: Zero + One
        ensures
            r == (Vec2 { x: T::one_spec(), y: T::zero_spec() }),
    {
        Vec2 { x: T::one(), y: T::zero() }
    }

    /// The product of the components.
    pub fn mul_elem(self) -> (r: T) where T: One + Mul<Output = T>
        requires
            self.mul_elem_req(),
        ensures
            r == self.mul_elem_spec(),
    {
        self.x * self.y * T::one()
    }

    pub fn min(self, rhs: Self) -> (r: Self) where T: IsNan
        ensures
            r == self.min_spec(rhs),
    {
        vec2(self.x.non_nan_min(rhs.x), self.y.non_nan_min(rhs.y))
    }

    pub fn max(self, rhs: Self) -> (r: Self) where T: IsNan
        ensures
            r == self.max_spec(rhs),
    {
        vec2(self.x.non_nan_max(rhs.x), self.y.non_nan_max(rhs.y))
    }

    /// Brings each component into the range from `min` to `max`; where the two
    /// cross, `min` wins.
    pub fn clamp(self, min: Self, max: Self) -> (r: Self) where T: IsNan
        ensures
            r == self.clamp_spec(min, max),
    {
        self.min(max).max(min)
    }

    pub fn min_elem(self) -> (r: T) where T: IsNan
        ensures
            r == self.min_elem_spec(),
    {
        let r = self.x;
        let r = r.non_nan_min(self.y);
        r
    }

    pub fn max_elem(self) -> (r: T) where T: IsNan
        ensures
            r == self.max_elem_spec(),
    {
        let r = self.x;
        let r = r.non_nan_max(self.y);
        r
    }

    pub fn is_nan(self) -> (r: Vec2<bool>) where T: IsNan
        ensures
            r == self.is_nan_spec(),
    {
        vec2(self.x.is_nan(), self.y.is_nan())
    }

    /// The square root of the dot product of the vector with itself.
    pub fn magnitude(self) -> (r: T) where T: Sqrt<T>, Self: VecOps<T>
        requires
            dot_req(self, self),
        ensures
            r == dot_spec(self, self).sqrt_spec(),
    {
        self.dot(self).sqrt()
    }

    /// The vector divided by its magnitude; see [`normalize`].
    pub fn normalize(self) -> (r: Self) where T: Div<Output = T> + Sqrt<T>, Self: VecOps<T>
        requires
            normalize_req(self),
        ensures
            r == normalize_spec(self),
    {
        normalize(self)
    }

    /// The normalized vector, unless a component of it is not a number: then the
    /// zero vector. Every component is tested.
    pub fn normalize_or_zero(self) -> (r: Self) where
        T: Zero + Div<Output = T> + Sqrt<T> + IsNan,
        Self: VecOps<T>,

        requires
            normalize_req(self),
        ensures
            r == self.normalize_or_zero_spec(),
    {
        let r = self.normalize();
        if r.is_nan().or() {
            Self::zero()
        } else {
            r
        }
    }
}

impl Vec2<bool> {
    /// Whether some component holds.
    pub open spec fn or_spec(self) -> bool {
        self.x || self.y
    }

    /// Whether every component holds.
    pub open spec fn and_spec(self) -> bool {
        self.x && self.y
    }

    pub fn or(self) -> (r: bool)
        ensures
            r == self.or_spec(),
    {
        self.x || self.y
    }

    pub fn and(self) -> (r: bool)
        ensures
            r == self.and_spec(),
    {
        self.x && self.y
    }
}

impl<T: Copy + Zero + Add<Output = T>> Vec2<T> {
    /// The sum of the vectors, folded from the left, starting from all zeros.
    pub open spec fn sum_spec(items: Seq<Self>) -> Self
        decreases items.len(),
    {
        if items.len() == 0 {
            Vec2 { x: T::zero_spec(), y: T::zero_spec() }
        } else {
            Self::sum_spec(items.drop_last()).add_spec(items.last())
        }
    }

    /// Whether every operation of the fold is defined.
    pub open spec fn sum_req(items: Seq<Self>) -> bool
        decreases items.len(),
    {
        &&& T::obeys_add_spec()
        &&& items.len() > 0 ==> Self::sum_req(items.drop_last()) && Self::sum_spec(
            items.drop_last(),
        ).add_req(items.last())
    }

    /// The sum of a sequence of vectors; all zeros for the empty one.
    pub fn sum(items: &[Self]) -> (r: Self)
        requires
            Self::sum_req(items@),
        ensures
            r == Self::sum_spec(items@),
    {
        let mut acc = Vec2 { x: T::zero(), y: T::zero() };
        let mut i: usize = 0;
        while i < items.len()
            invariant
                i <= items.len(),
                T::obeys_add_spec(),
                Self::sum_req(items@),
                acc == Self::sum_spec(items@.take(i as int)),
            decreases items.len() - i,
        {
            proof {
                Self::lemma_sum_prefix(items@, i as int + 1);
                assert(items@.take(i as int + 1).drop_last() == items@.take(i as int));
            }
            acc = acc + items[i];
            i = i + 1;
        }
        proof {
            assert(items@.take(i as int) == items@);
        }
        acc
    }

    /// A fold that is defined is defined on each of its prefixes.
    proof fn lemma_sum_prefix(items: Seq<Self>, n: int)
        requires
            Self::sum_req(items),
            0 <= n <= items.len(),
        ensures
            Self::sum_req(items.take(n)),
        decreases items.len(),
    {
        if n < items.len() {
            Self::lemma_sum_prefix(items.drop_last(), n);
            assert(items.drop_last().take(n) == items.take(n));
        } else {
            assert(items.take(n) == items);
        }
    }
}

impl<T: Copy + One + Mul<Output = T>> Vec2<T> {
    /// The product of the vectors, folded from the left, starting from all ones.
    pub open spec fn product_spec(items: Seq<Self>) -> Self
        decreases items.len(),
    {
        if items.len() == 0 {
            Vec2 { x: T::one_spec(), y: T::one_spec() }
        } else {
            Self::product_spec(items.drop_last()).mul_spec(items.last())
        }
    }

    /// Whether every operation of the fold is defined.
    pub open spec fn product_req(items: Seq<Self>) -> bool
        decreases items.len(),
    {
        &&& T::obeys_mul_spec()
        &&& items.len() > 0 ==> Self::product_req(items.drop_last()) && Self::product_spec(
            items.drop_last(),
        ).mul_req(items.last())
    }

    /// The product of a sequence of vectors; all ones for the empty one.
    pub fn product(items: &[Self]) -> (r: Self)
        requires
            Self::product_req(items@),
        ensures
            r == Self::product_spec(items@),
    {
        let mut acc = Vec2 { x: T::one(), y: T::one() };
        let mut i: usize = 0;
        while i < items.len()
            invariant
                i <= items.len(),
                T::obeys_mul_spec(),
                Self::product_req(items@),
                acc == Self::product_spec(items@.take(i as int)),
            decreases items.len() - i,
        {
            proof {
                Self::lemma_product_prefix(items@, i as int + 1);
                assert(items@.take(i as int + 1).drop_last() == items@.take(i as int));
            }
            acc = acc * items[i];
            i = i + 1;
        }
        proof {
            assert(items@.take(i as int) == items@);
        }
        acc
    }

    /// A fold that is defined is defined on each of its prefixes.
    proof fn lemma_product_prefix(items: Seq<Self>, n: int)
        requires
            Self::product_req(items),
            0 <= n <= items.len(),
        ensures
            Self::product_req(items.take(n)),
        decreases items.len(),
    {
        if n < items.len() {
            Self::lemma_product_prefix(items.drop_last(), n);
            assert(items.drop_last().take(n) == items.take(n));
        } else {
            assert(items.take(n) == items);
        }
    }
}

impl<T> Vec2<T> {
    /// The component at `index`, counted from zero.
    pub open spec fn component(self, index: int) -> T {
        if index == 0 { self.x } else { self.y }
    }

    /// The vector with `value` in place of the component at `index`.
    pub open spec fn with_component(self, index: int, value: T) -> Self {
        if index == 0 { Vec2 { x: value, y: self.y } } else { Vec2 { x: self.x, y: value } }
    }
}

/// Indexing by position; an index of 2 or more is left out by `index_req`.
impl<T> Index<usize> for Vec2<T> {
    type Output = T;

    fn index(&self, index: usize) -> (r: &T)
        ensures
            *r == self.component(index as int),
    {
        if index == 0 {
            &self.x
        } else if index == 1 {
            &self.y
        } else {
            vstd::pervasive::unreached()
        }
    }
}

impl<T> vstd::std_specs::core::IndexSpecImpl<usize> for Vec2<T> {
    open spec fn index_req(&self, index: &usize) -> bool {
        *index < 2
    }
}

impl<T> IndexMut<usize> for Vec2<T> {
    fn index_mut(&mut self, index: usize) -> (r: &mut T)
        requires
            index < 2,
        ensures
            *r == old(self).component(index as int),
            *final(self) == old(self).with_component(index as int, *final(r)),
    {
        if index == 0 {
            &mut self.x
        } else if index == 1 {
            &mut self.y
        } else {
            vstd::pervasive::unreached()
        }
    }
}

/// Functions of `isize`, applied to each component by itself.
impl Vec2<isize> {
    /// The sign of each component: -1, 0 or 1.
    pub fn signum(self) -> (r: Self)
        ensures
            r.x == sign_of(self.x as int),
            r.y == sign_of(self.y as int),
    {
        Vec2 {
            x: if self.x > 0 {
                1
            } else if self.x < 0 {
                -1
            } else {
                0
            },
            y: if self.y > 0 {
                1
            } else if self.y < 0 {
                -1
            } else {
                0
            },
        }
    }

    /// Each component negated; the least value, which has no negation, stays.
    pub fn wrapping_neg(self) -> (r: Self)
        ensures
            r.x == (if self.x == isize::MIN { isize::MIN as int } else { -self.x }),
            r.y == (if self.y == isize::MIN { isize::MIN as int } else { -self.y }),
    {
        Vec2 {
            x: if self.x == isize::MIN {
                isize::MIN
            } else {
                -self.x
            },
            y: if self.y == isize::MIN {
                isize::MIN
            } else {
                -self.y
            },
        }
    }

    /// The magnitude of each component; the least value, which has none, stays.
    pub fn wrapping_abs(self) -> (r: Self)
        ensures
            r == self.abs_spec(),
    {
        self.abs()
    }

    /// For each component, whether it is greater than zero.
    pub fn is_positive(self) -> (r: Vec2<bool>)
        ensures
            r == (Vec2 { x: self.x > 0, y: self.y > 0 }),
    {
        Vec2 { x: self.x > 0, y: self.y > 0 }
    }

    /// For each component, whether it is less than zero.
    pub fn is_negative(self) -> (r: Vec2<bool>)
        ensures
            r == (Vec2 { x: self.x < 0, y: self.y < 0 }),
    {
        Vec2 { x: self.x < 0, y: self.y < 0 }
    }
}

/// Functions of `i64`, applied to each component by itself.
impl Vec2<i64> {
    /// The sign of each component: -1, 0 or 1.
    pub fn signum(self) -> (r: Self)
        ensures
            r.x == sign_of(self.x as int),
            r.y == sign_of(self.y as int),
    {
        Vec2 {
            x: if self.x > 0 {
                1
            } else if self.x < 0 {
                -1
            } else {
                0
            },
            y: if self.y > 0 {
                1
            } else if self.y < 0 {
                -1
            } else {
                0
            },
        }
    }

    /// Each component negated; the least value, which has no negation, stays.
    pub fn wrapping_neg(self) -> (r: Self)
        ensures
            r.x == (if self.x == i64::MIN { i64::MIN as int } else { -self.x }),
            r.y == (if self.y == i64::MIN { i64::MIN as int } else { -self.y }),
    {
        Vec2 {
            x: if self.x == i64::MIN {
                i64::MIN
            } else {
                -self.x
            },
            y: if self.y == i64::MIN {
                i64::MIN
            } else {
                -self.y
            },
        }
    }

    /// The magnitude of each component; the least value, which has none, stays.
    pub fn wrapping_abs(self) -> (r: Self)
        ensures
            r == self.abs_spec(),
    {
        self.abs()
    }

    /// For each component, whether it is greater than zero.
    pub fn is_positive(self) -> (r: Vec2<bool>)
        ensures
            r == (Vec2 { x: self.x > 0, y: self.y > 0 }),
    {
        Vec2 { x: self.x > 0, y: self.y > 0 }
    }

    /// For each component, whether it is less than zero.
    pub fn is_negative(self) -> (r: Vec2<bool>)
        ensures
            r == (Vec2 { x: self.x < 0, y: self.y < 0 }),
    {
        Vec2 { x: self.x < 0, y: self.y < 0 }
    }
}

/// Functions of `i32`, applied to each component by itself.
impl Vec2<i32> {
    /// The sign of each component: -1, 0 or 1.
    pub fn signum(self) -> (r: Self)
        ensures
            r.x == sign_of(self.x as int),
            r.y == sign_of(self.y as int),
    {
        Vec2 {
            x: if self.x > 0 {
                1
            } else if self.x < 0 {
                -1
            } else {
                0
            },
            y: if self.y > 0 {
                1
            } else if self.y < 0 {
                -1
            } else {
                0
            },
        }
    }

    /// Each component negated; the least value, which has no negation, stays.
    pub fn wrapping_neg(self) -> (r: Self)
        ensures
            r.x == (if self.x == i32::MIN { i32::MIN as int } else { -self.x }),
            r.y == (if self.y == i32::MIN { i32::MIN as int } else { -self.y }),
    {
        Vec2 {
            x: if self.x == i32::MIN {
                i32::MIN
            } else {
                -self.x
            },
            y: if self.y == i32::MIN {
                i32::MIN
            } else {
                -self.y
            },
        }
    }

    /// The magnitude of each component; the least value, which has none, stays.
    pub fn wrapping_abs(self) -> (r: Self)
        ensures
            r == self.abs_spec(),
    {
        self.abs()
    }

    /// For each component, whether it is greater than zero.
    pub fn is_positive(self) -> (r: Vec2<bool>)
        ensures
            r == (Vec2 { x: self.x > 0, y: self.y > 0 }),
    {
        Vec2 { x: self.x > 0, y: self.y > 0 }
    }

    /// For each component, whether it is less than zero.
    pub fn is_negative(self) -> (r: Vec2<bool>)
        ensures
            r == (Vec2 { x: self.x < 0, y: self.y < 0 }),
    {
        Vec2 { x: self.x < 0, y: self.y < 0 }
    }
}

/// Functions of `i16`, applied to each component by itself.
impl Vec2<i16> {
    /// The sign of each component: -1, 0 or 1.
    pub fn signum(self) -> (r: Self)
        ensures
            r.x == sign_of(self.x as int),
            r.y == sign_of(self.y as int),
    {
        Vec2 {
            x: if self.x > 0 {
                1
            } else if self.x < 0 {
                -1
            } else {
                0
            },
            y: if self.y > 0 {
                1
            } else if self.y < 0 {
                -1
            } else {
                0
            },
        }
    }

    /// Each component negated; the least value, which has no negation, stays.
    pub fn wrapping_neg(self) -> (r: Self)
        ensures
            r.x == (if self.x == i16::MIN { i16::MIN as int } else { -self.x }),
            r.y == (if self.y == i16::MIN { i16::MIN as int } else { -self.y }),
    {
        Vec2 {
            x: if self.x == i16::MIN {
                i16::MIN
            } else {
                -self.x
            },
            y: if self.y == i16::MIN {
                i16::MIN
            } else {
                -self.y
            },
        }
    }

    /// The magnitude of each component; the least value, which has none, stays.
    pub fn wrapping_abs(self) -> (r: Self)
        ensures
            r == self.abs_spec(),
    {
        self.abs()
    }

    /// For each component, whether it is greater than zero.
    pub fn is_positive(self) -> (r: Vec2<bool>)
        ensures
            r == (Vec2 { x: self.x > 0, y: self.y > 0 }),
    {
        Vec2 { x: self.x > 0, y: self.y > 0 }
    }

    /// For each component, whether it is less than zero.
    pub fn is_negative(self) -> (r: Vec2<bool>)
        ensures
            r == (Vec2 { x: self.x < 0, y: self.y < 0 }),
    {
        Vec2 { x: self.x < 0, y: self.y < 0 }
    }
}

/// Functions of `i8`, applied to each component by itself.
impl Vec2<i8> {
    /// The sign of each component: -1, 0 or 1.
    pub fn signum(self) -> (r: Self)
        ensures
            r.x == sign_of(self.x as int),
            r.y == sign_of(self.y as int),
    {
        Vec2 {
            x: if self.x > 0 {
                1
            } else if self.x < 0 {
                -1
            } else {
                0
            },
            y: if self.y > 0 {
                1
            } else if self.y < 0 {
                -1
            } else {
                0
            },
        }
    }

    /// Each component negated; the least value, which has no negation, stays.
    pub fn wrapping_neg(self) -> (r: Self)
        ensures
            r.x == (if self.x == i8::MIN { i8::MIN as int } else { -self.x }),
            r.y == (if self.y == i8::MIN { i8::MIN as int } else { -self.y }),
    {
        Vec2 {
            x: if self.x == i8::MIN {
                i8::MIN
            } else {
                -self.x
            },
            y: if self.y == i8::MIN {
                i8::MIN
            } else {
                -self.y
            },
        }
    }

    /// The magnitude of each component; the least value, which has none, stays.
    pub fn wrapping_abs(self) -> (r: Self)
        ensures
            r == self.abs_spec(),
    {
        self.abs()
    }

    /// For each component, whether it is greater than zero.
    pub fn is_positive(self) -> (r: Vec2<bool>)
        ensures
            r == (Vec2 { x: self.x > 0, y: self.y > 0 }),
    {
        Vec2 { x: self.x > 0, y: self.y > 0 }
    }

    /// For each component, whether it is less than zero.
    pub fn is_negative(self) -> (r: Vec2<bool>)
        ensures
            r == (Vec2 { x: self.x < 0, y: self.y < 0 }),
    {
        Vec2 { x: self.x < 0, y: self.y < 0 }
    }
}

impl<T> Vec2<T> {
    /// The vector of the parsed components, or the first error in their order.
    pub open spec fn from_parsed_spec<E>(x: Result<T, E>, y: Result<T, E>) -> Result<Self, E> {
        match x {
            Err(e) => Err(e),
            Ok(x) => {
                match y {
                    Err(e) => Err(e),
                    Ok(y) => {
                        Ok(Vec2 { x, y })
                    },
                }
            },
        }
    }

    /// Puts together what parsing each component gave: the first error in their
    /// order where one failed.
    pub fn from_parsed<E>(x: Result<T, E>, y: Result<T, E>) -> (out: Result<Self, E>)
        ensures
            out == Self::from_parsed_spec(x, y),
    {
        match x {
            Err(e) => Err(e),
            Ok(x) => {
                match y {
                    Err(e) => Err(e),
                    Ok(y) => {
                        Ok(Vec2 { x, y })
                    },
                }
            },
        }
    }

    /// Reads the text form: the first two numerals of `input`, each handed to
    /// `parse` in order until one fails. A numeral that is missing is handed over
    /// as the empty string, for `parse` to refuse.
    pub fn from_str_with<E, F: Fn(&str) -> Result<T, E>>(input: &str, parse: F) -> (out: Result<Self, E>)
        requires
            forall|s: &str| call_requires(parse, (s,)),
        ensures
            exists|x: Result<T, E>, y: Result<T, E>|
                #![trigger Self::from_parsed_spec(x, y)]
                {
                    &&& parses(parse, components_spec(input@, 2)[0], x)
                    &&& (x is Ok ==> parses(parse, components_spec(input@, 2)[1], y))
                    &&& out == Self::from_parsed_spec(x, y)
                },
    {
        let words = components(input, 2);
        proof {
            assert(views(words@)[0] == words@[0]@);
            assert(views(words@)[1] == words@[1]@);
        }
        let x = parse(words[0].as_str());
        match x {
            Err(e) => {
                proof {
                    assert(Self::from_parsed_spec::<E>(Err(e), Err(e)) == Err::<Self, E>(e));
                }
                Err(e)
            },
            Ok(x) => {
                let y = parse(words[1].as_str());
                match y {
                    Err(e) => {
                        proof {
                            assert(Self::from_parsed_spec::<E>(Ok(x), Err(e)) == Err::<Self, E>(e));
                        }
                        Err(e)
                    },
                    Ok(y) => {
                        proof {
                            assert(Self::from_parsed_spec::<E>(Ok(x), Ok(y)) == Ok::<Self, E>(Vec2 { x, y }));
                        }
                        Ok(Vec2 { x, y })
                    },
                }
            },
        }
    }
}

/// The components, each rendered within `limit` characters, between brackets
/// and parted by a comma and a space.
impl<T: NiceFmt> NiceFmt for Vec2<T> {
    open spec fn nice_fmt_spec(&self, limit: usize, pad: bool) -> Seq<char> {
        seq!['('] + self.x.nice_fmt_spec(limit, pad) + seq![',', ' '] + self.y.nice_fmt_spec(limit, pad) + seq![')']
    }

    fn nice_fmt(&self, limit: usize, pad: bool) -> (r: String) {
        let mut s = String::new();
        proof {
            reveal_strlit("(");
            reveal_strlit(", ");
            reveal_strlit(")");
        }
        s.append("(");
        s.append(self.x.nice_fmt(limit, pad).as_str());
        s.append(", ");
        s.append(self.y.nice_fmt(limit, pad).as_str());
        s.append(")");
        proof {
            assert(s@ =~= self.nice_fmt_spec(limit, pad));
        }
        s
    }
}

} // verus!
