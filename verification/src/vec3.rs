//! Vectors of three components.

use vstd::prelude::*;
use vstd::std_specs::cmp::PartialEqSpec;
use vstd::std_specs::ops::AddSpec;
use vstd::std_specs::ops::DivSpec;
use vstd::std_specs::ops::MulSpec;
use vstd::std_specs::ops::NegSpec;
use vstd::std_specs::ops::RemSpec;
use vstd::std_specs::ops::SubSpec;
use vstd::string::StringExecFns;
use std::ops::Add;
use std::ops::AddAssign;
use std::ops::Div;
use std::ops::DivAssign;
use std::ops::Index;
use std::ops::IndexMut;
use std::ops::Mul;
use std::ops::MulAssign;
use std::ops::Neg;
use std::ops::Rem;
use std::ops::RemAssign;
use std::ops::Sub;
use std::ops::SubAssign;
use crate::text::components;
use crate::text::components_spec;
use crate::text::parses;
use crate::text::views;
use crate::traits::numbers::sign_of;
use crate::traits::Abs;
use crate::traits::Dot;
use crate::traits::IsNan;
use crate::traits::NiceFmt;
use crate::traits::One;
use crate::traits::Sqrt;
use crate::traits::Zero;
use crate::vector::dot_req;
use crate::vector::dot_spec;
use crate::vector::normalize;
use crate::vector::normalize_req;
use crate::vector::normalize_spec;
use crate::vector::VecOps;
use crate::terms::cross2;
use crate::terms::cross2_req;
use crate::vec2::vec2;
use crate::vec2::Vec2;
use crate::vec4::vec4;
use crate::vec4::Vec4;

verus! {

/// A vector of three components of one scalar type.
#[derive(Debug, Default, Copy, Clone, Eq, Hash)]
pub struct Vec3<T> {
    pub x: T,
    pub y: T,
    pub z: T,
}

/// The vector of the given components.
pub fn vec3<T>(x: T, y: T, z: T) -> (r: Vec3<T>)
    ensures
        r == (Vec3 { x, y, z }),
{
    Vec3 { x, y, z }
}

impl<T: PartialEq> PartialEq for Vec3<T> {
    fn eq(&self, other: &Self) -> (r: bool) {
        self.x == other.x && self.y == other.y && self.z == other.z
    }
}

/// Two vectors are equal where each pair of components is.
impl<T: PartialEq> vstd::std_specs::cmp::PartialEqSpecImpl for Vec3<T> {
    open spec fn obeys_eq_spec() -> bool {
        T::obeys_eq_spec()
    }

    open spec fn eq_spec(&self, other: &Self) -> bool {
        &&& self.x.eq_spec(&other.x)
        &&& self.y.eq_spec(&other.y)
        &&& self.z.eq_spec(&other.z)
    }
}

impl<T> From<(T, T, T)> for Vec3<T> {
    fn from(t: (T, T, T)) -> (r: Self) {
        let (x, y, z) = t;
        Vec3 { x, y, z }
    }
}

impl<T> vstd::std_specs::convert::FromSpecImpl<(T, T, T)> for Vec3<T> {
    open spec fn obeys_from_spec() -> bool {
        true
    }

    open spec fn from_spec(t: (T, T, T)) -> Self {
        Vec3 { x: t.0, y: t.1, z: t.2 }
    }
}

impl<T: Copy> From<[T; 3]> for Vec3<T> {
    fn from(t: [T; 3]) -> (r: Self) {
        Vec3 { x: t[0], y: t[1], z: t[2] }
    }
}

impl<T: Copy> vstd::std_specs::convert::FromSpecImpl<[T; 3]> for Vec3<T> {
    open spec fn obeys_from_spec() -> bool {
        true
    }

    open spec fn from_spec(t: [T; 3]) -> Self {
        Vec3 { x: t[0], y: t[1], z: t[2] }
    }
}

impl<T> Vec3<T> {
    /// The components in order, as an array.
    pub fn into_array(self) -> (r: [T; 3])
        ensures
            r[0] == self.x,
            r[1] == self.y,
            r[2] == self.z,
    {
        [self.x, self.y, self.z]
    }

    /// The components in order, as a tuple.
    pub fn into_tuple(self) -> (r: (T, T, T))
        ensures
            r == (self.x, self.y, self.z),
    {
        (self.x, self.y, self.z)
    }

    /// The vector without its last component.
    pub fn downsize(self) -> (r: Vec2<T>)
        ensures
            r == (Vec2 { x: self.x, y: self.y }),
    {
        vec2(self.x, self.y)
    }

    /// The vector with `w` as a fourth component.
    pub fn extend(self, w: T) -> (r: Vec4<T>)
        ensures
            r == (Vec4 { x: self.x, y: self.y, z: self.z, w }),
    {
        vec4(self.x, self.y, self.z, w)
    }
}

impl<T: Add<Output = T>> Add for Vec3<T> {
    type Output = Self;

    fn add(self, rhs: Self) -> (r: Self) {
        vec3(self.x + rhs.x, self.y + rhs.y, self.z + rhs.z)
    }
}

/// The sum of each pair of components.
impl<T: Add<Output = T>> vstd::std_specs::ops::AddSpecImpl for Vec3<T> {
    open spec fn obeys_add_spec() -> bool {
        T::obeys_add_spec()
    }

    open spec fn add_req(self, rhs: Self) -> bool {
        &&& self.x.add_req(rhs.x)
        &&& self.y.add_req(rhs.y)
        &&& self.z.add_req(rhs.z)
    }

    open spec fn add_spec(self, rhs: Self) -> Self {
        Vec3 { x: self.x.add_spec(rhs.x), y: self.y.add_spec(rhs.y), z: self.z.add_spec(rhs.z) }
    }
}

impl<T: Copy + Add<Output = T>> AddAssign for Vec3<T> {
    fn add_assign(&mut self, rhs: Self)
        requires
            old(self).x.add_req(rhs.x),
            old(self).y.add_req(rhs.y),
            old(self).z.add_req(rhs.z),
        ensures
            T::obeys_add_spec() ==> *final(self) == (Vec3 { x: old(self).x.add_spec(rhs.x), y: old(self).y.add_spec(rhs.y), z: old(self).z.add_spec(rhs.z) }),
    {
        self.x = self.x + rhs.x;
        self.y = self.y + rhs.y;
        self.z = self.z + rhs.z;
    }
}

impl<T: Copy + Add<Output = T>> Add<T> for Vec3<T> {
    type Output = Self;

    fn add(self, rhs: T) -> (r: Self) {
        vec3(self.x + rhs, self.y + rhs, self.z + rhs)
    }
}

/// The sum of each component and the scalar.
impl<T: Copy + Add<Output = T>> vstd::std_specs::ops::AddSpecImpl<T> for Vec3<T> {
    open spec fn obeys_add_spec() -> bool {
        T::obeys_add_spec()
    }

    open spec fn add_req(self, rhs: T) -> bool {
        &&& self.x.add_req(rhs)
        &&& self.y.add_req(rhs)
        &&& self.z.add_req(rhs)
    }

    open spec fn add_spec(self, rhs: T) -> Self {
        Vec3 { x: self.x.add_spec(rhs), y: self.y.add_spec(rhs), z: self.z.add_spec(rhs) }
    }
}

impl<T: Copy + Add<Output = T>> AddAssign<T> for Vec3<T> {
    fn add_assign(&mut self, rhs: T)
        requires
            old(self).x.add_req(rhs),
            old(self).y.add_req(rhs),
            old(self).z.add_req(rhs),
        ensures
            T::obeys_add_spec() ==> *final(self) == (Vec3 { x: old(self).x.add_spec(rhs), y: old(self).y.add_spec(rhs), z: old(self).z.add_spec(rhs) }),
    {
        self.x = self.x + rhs;
        self.y = self.y + rhs;
        self.z = self.z + rhs;
    }
}

impl<T: Sub<Output = T>> Sub for Vec3<T> {
    type Output = Self;

    fn sub(self, rhs: Self) -> (r: Self) {
        vec3(self.x - rhs.x, self.y - rhs.y, self.z - rhs.z)
    }
}

/// The difference of each pair of components.
impl<T: Sub<Output = T>> vstd::std_specs::ops::SubSpecImpl for Vec3<T> {
    open spec fn obeys_sub_spec() -> bool {
        T::obeys_sub_spec()
    }

    open spec fn sub_req(self, rhs: Self) -> bool {
        &&& self.x.sub_req(rhs.x)
        &&& self.y.sub_req(rhs.y)
        &&& self.z.sub_req(rhs.z)
    }

    open spec fn sub_spec(self, rhs: Self) -> Self {
        Vec3 { x: self.x.sub_spec(rhs.x), y: self.y.sub_spec(rhs.y), z: self.z.sub_spec(rhs.z) }
    }
}

impl<T: Copy + Sub<Output = T>> SubAssign for Vec3<T> {
    fn sub_assign(&mut self, rhs: Self)
        requires
            old(self).x.sub_req(rhs.x),
            old(self).y.sub_req(rhs.y),
            old(self).z.sub_req(rhs.z),
        ensures
            T::obeys_sub_spec() ==> *final(self) == (Vec3 { x: old(self).x.sub_spec(rhs.x), y: old(self).y.sub_spec(rhs.y), z: old(self).z.sub_spec(rhs.z) }),
    {
        self.x = self.x - rhs.x;
        self.y = self.y - rhs.y;
        self.z = self.z - rhs.z;
    }
}

impl<T: Copy + Sub<Output = T>> Sub<T> for Vec3<T> {
    type Output = Self;

    fn sub(self, rhs: T) -> (r: Self) {
        vec3(self.x - rhs, self.y - rhs, self.z - rhs)
    }
}

/// The difference of each component and the scalar.
impl<T: Copy + Sub<Output = T>> vstd::std_specs::ops::SubSpecImpl<T> for Vec3<T> {
    open spec fn obeys_sub_spec() -> bool {
        T::obeys_sub_spec()
    }

    open spec fn sub_req(self, rhs: T) -> bool {
        &&& self.x.sub_req(rhs)
        &&& self.y.sub_req(rhs)
        &&& self.z.sub_req(rhs)
    }

    open spec fn sub_spec(self, rhs: T) -> Self {
        Vec3 { x: self.x.sub_spec(rhs), y: self.y.sub_spec(rhs), z: self.z.sub_spec(rhs) }
    }
}

impl<T: Copy + Sub<Output = T>> SubAssign<T> for Vec3<T> {
    fn sub_assign(&mut self, rhs: T)
        requires
            old(self).x.sub_req(rhs),
            old(self).y.sub_req(rhs),
            old(self).z.sub_req(rhs),
        ensures
            T::obeys_sub_spec() ==> *final(self) == (Vec3 { x: old(self).x.sub_spec(rhs), y: old(self).y.sub_spec(rhs), z: old(self).z.sub_spec(rhs) }),
    {
        self.x = self.x - rhs;
        self.y = self.y - rhs;
        self.z = self.z - rhs;
    }
}

impl<T: Mul<Output = T>> Mul for Vec3<T> {
    type Output = Self;

    fn mul(self, rhs: Self) -> (r: Self) {
        vec3(self.x * rhs.x, self.y * rhs.y, self.z * rhs.z)
    }
}

/// The product of each pair of components.
impl<T: Mul<Output = T>> vstd::std_specs::ops::MulSpecImpl for Vec3<T> {
    open spec fn obeys_mul_spec() -> bool {
        T::obeys_mul_spec()
    }

    open spec fn mul_req(self, rhs: Self) -> bool {
        &&& self.x.mul_req(rhs.x)
        &&& self.y.mul_req(rhs.y)
        &&& self.z.mul_req(rhs.z)
    }

    open spec fn mul_spec(self, rhs: Self) -> Self {
        Vec3 { x: self.x.mul_spec(rhs.x), y: self.y.mul_spec(rhs.y), z: self.z.mul_spec(rhs.z) }
    }
}

impl<T: Copy + Mul<Output = T>> MulAssign for Vec3<T> {
    fn mul_assign(&mut self, rhs: Self)
        requires
            old(self).x.mul_req(rhs.x),
            old(self).y.mul_req(rhs.y),
            old(self).z.mul_req(rhs.z),
        ensures
            T::obeys_mul_spec() ==> *final(self) == (Vec3 { x: old(self).x.mul_spec(rhs.x), y: old(self).y.mul_spec(rhs.y), z: old(self).z.mul_spec(rhs.z) }),
    {
        self.x = self.x * rhs.x;
        self.y = self.y * rhs.y;
        self.z = self.z * rhs.z;
    }
}

impl<T: Copy + Mul<Output = T>> Mul<T> for Vec3<T> {
    type Output = Self;

    fn mul(self, rhs: T) -> (r: Self) {
        vec3(self.x * rhs, self.y * rhs, self.z * rhs)
    }
}

/// The product of each component and the scalar.
impl<T: Copy + Mul<Output = T>> vstd::std_specs::ops::MulSpecImpl<T> for Vec3<T> {
    open spec fn obeys_mul_spec() -> bool {
        T::obeys_mul_spec()
    }

    open spec fn mul_req(self, rhs: T) -> bool {
        &&& self.x.mul_req(rhs)
        &&& self.y.mul_req(rhs)
        &&& self.z.mul_req(rhs)
    }

    open spec fn mul_spec(self, rhs: T) -> Self {
        Vec3 { x: self.x.mul_spec(rhs), y: self.y.mul_spec(rhs), z: self.z.mul_spec(rhs) }
    }
}

impl<T: Copy + Mul<Output = T>> MulAssign<T> for Vec3<T> {
    fn mul_assign(&mut self, rhs: T)
        requires
            old(self).x.mul_req(rhs),
            old(self).y.mul_req(rhs),
            old(self).z.mul_req(rhs),
        ensures
            T::obeys_mul_spec() ==> *final(self) == (Vec3 { x: old(self).x.mul_spec(rhs), y: old(self).y.mul_spec(rhs), z: old(self).z.mul_spec(rhs) }),
    {
        self.x = self.x * rhs;
        self.y = self.y * rhs;
        self.z = self.z * rhs;
    }
}

impl<T: Div<Output = T>> Div for Vec3<T> {
    type Output = Self;

    fn div(self, rhs: Self) -> (r: Self) {
        vec3(self.x / rhs.x, self.y / rhs.y, self.z / rhs.z)
    }
}

/// The quotient of each pair of components.
impl<T: Div<Output = T>> vstd::std_specs::ops::DivSpecImpl for Vec3<T> {
    open spec fn obeys_div_spec() -> bool {
        T::obeys_div_spec()
    }

    open spec fn div_req(self, rhs: Self) -> bool {
        &&& self.x.div_req(rhs.x)
        &&& self.y.div_req(rhs.y)
        &&& self.z.div_req(rhs.z)
    }

    open spec fn div_spec(self, rhs: Self) -> Self {
        Vec3 { x: self.x.div_spec(rhs.x), y: self.y.div_spec(rhs.y), z: self.z.div_spec(rhs.z) }
    }
}

impl<T: Copy + Div<Output = T>> DivAssign for Vec3<T> {
    fn div_assign(&mut self, rhs: Self)
        requires
            old(self).x.div_req(rhs.x),
            old(self).y.div_req(rhs.y),
            old(self).z.div_req(rhs.z),
        ensures
            T::obeys_div_spec() ==> *final(self) == (Vec3 { x: old(self).x.div_spec(rhs.x), y: old(self).y.div_spec(rhs.y), z: old(self).z.div_spec(rhs.z) }),
    {
        self.x = self.x / rhs.x;
        self.y = self.y / rhs.y;
        self.z = self.z / rhs.z;
    }
}

impl<T: Copy + Div<Output = T>> Div<T> for Vec3<T> {
    type Output = Self;

    fn div(self, rhs: T) -> (r: Self) {
        vec3(self.x / rhs, self.y / rhs, self.z / rhs)
    }
}

/// The quotient of each component and the scalar.
impl<T: Copy + Div<Output = T>> vstd::std_specs::ops::DivSpecImpl<T> for Vec3<T> {
    open spec fn obeys_div_spec() -> bool {
        T::obeys_div_spec()
    }

    open spec fn div_req(self, rhs: T) -> bool {
        &&& self.x.div_req(rhs)
        &&& self.y.div_req(rhs)
        &&& self.z.div_req(rhs)
    }

    open spec fn div_spec(self, rhs: T) -> Self {
        Vec3 { x: self.x.div_spec(rhs), y: self.y.div_spec(rhs), z: self.z.div_spec(rhs) }
    }
}

impl<T: Copy + Div<Output = T>> DivAssign<T> for Vec3<T> {
    fn div_assign(&mut self, rhs: T)
        requires
            old(self).x.div_req(rhs),
            old(self).y.div_req(rhs),
            old(self).z.div_req(rhs),
        ensures
            T::obeys_div_spec() ==> *final(self) == (Vec3 { x: old(self).x.div_spec(rhs), y: old(self).y.div_spec(rhs), z: old(self).z.div_spec(rhs) }),
    {
        self.x = self.x / rhs;
        self.y = self.y / rhs;
        self.z = self.z / rhs;
    }
}

impl<T: Rem<Output = T>> Rem for Vec3<T> {
    type Output = Self;

    fn rem(self, rhs: Self) -> (r: Self) {
        vec3(self.x % rhs.x, self.y % rhs.y, self.z % rhs.z)
    }
}

/// The remainder of each pair of components.
impl<T: Rem<Output = T>> vstd::std_specs::ops::RemSpecImpl for Vec3<T> {
    open spec fn obeys_rem_spec() -> bool {
        T::obeys_rem_spec()
    }

    open spec fn rem_req(self, rhs: Self) -> bool {
        &&& self.x.rem_req(rhs.x)
        &&& self.y.rem_req(rhs.y)
        &&& self.z.rem_req(rhs.z)
    }

    open spec fn rem_spec(self, rhs: Self) -> Self {
        Vec3 { x: self.x.rem_spec(rhs.x), y: self.y.rem_spec(rhs.y), z: self.z.rem_spec(rhs.z) }
    }
}

impl<T: Copy + Rem<Output = T>> RemAssign for Vec3<T> {
    fn rem_assign(&mut self, rhs: Self)
        requires
            old(self).x.rem_req(rhs.x),
            old(self).y.rem_req(rhs.y),
            old(self).z.rem_req(rhs.z),
        ensures
            T::obeys_rem_spec() ==> *final(self) == (Vec3 { x: old(self).x.rem_spec(rhs.x), y: old(self).y.rem_spec(rhs.y), z: old(self).z.rem_spec(rhs.z) }),
    {
        self.x = self.x % rhs.x;
        self.y = self.y % rhs.y;
        self.z = self.z % rhs.z;
    }
}

impl<T: Copy + Rem<Output = T>> Rem<T> for Vec3<T> {
    type Output = Self;

    fn rem(self, rhs: T) -> (r: Self) {
        vec3(self.x % rhs, self.y % rhs, self.z % rhs)
    }
}

/// The remainder of each component and the scalar.
impl<T: Copy + Rem<Output = T>> vstd::std_specs::ops::RemSpecImpl<T> for Vec3<T> {
    open spec fn obeys_rem_spec() -> bool {
        T::obeys_rem_spec()
    }

    open spec fn rem_req(self, rhs: T) -> bool {
        &&& self.x.rem_req(rhs)
        &&& self.y.rem_req(rhs)
        &&& self.z.rem_req(rhs)
    }

    open spec fn rem_spec(self, rhs: T) -> Self {
        Vec3 { x: self.x.rem_spec(rhs), y: self.y.rem_spec(rhs), z: self.z.rem_spec(rhs) }
    }
}

impl<T: Copy + Rem<Output = T>> RemAssign<T> for Vec3<T> {
    fn rem_assign(&mut self, rhs: T)
        requires
            old(self).x.rem_req(rhs),
            old(self).y.rem_req(rhs),
            old(self).z.rem_req(rhs),
        ensures
            T::obeys_rem_spec() ==> *final(self) == (Vec3 { x: old(self).x.rem_spec(rhs), y: old(self).y.rem_spec(rhs), z: old(self).z.rem_spec(rhs) }),
    {
        self.x = self.x % rhs;
        self.y = self.y % rhs;
        self.z = self.z % rhs;
    }
}

impl<T: Neg<Output = T>> Neg for Vec3<T> {
    type Output = Self;

    fn neg(self) -> (r: Self) {
        vec3(self.x.neg(), self.y.neg(), self.z.neg())
    }
}

/// The negation of each component.
impl<T: Neg<Output = T>> vstd::std_specs::ops::NegSpecImpl for Vec3<T> {
    open spec fn obeys_neg_spec() -> bool {
        T::obeys_neg_spec()
    }

    open spec fn neg_req(self) -> bool {
        &&& self.x.neg_req()
        &&& self.y.neg_req()
        &&& self.z.neg_req()
    }

    open spec fn neg_spec(self) -> Self {
        Vec3 { x: self.x.neg_spec(), y: self.y.neg_spec(), z: self.z.neg_spec() }
    }
}

/// The magnitude of each component.
impl<T: Abs> Abs for Vec3<T> {
    open spec fn abs_spec(self) -> Self {
        Vec3 { x: self.x.abs_spec(), y: self.y.abs_spec(), z: self.z.abs_spec() }
    }

    fn abs(self) -> (r: Self) {
        vec3(self.x.abs(), self.y.abs(), self.z.abs())
    }
}

/// Zero in every component.
impl<T: Zero> Zero for Vec3<T> {
    open spec fn zero_spec() -> Self {
        Vec3 { x: T::zero_spec(), y: T::zero_spec(), z: T::zero_spec() }
    }

    fn zero() -> (r: Self) {
        Vec3 { x: T::zero(), y: T::zero(), z: T::zero() }
    }
}

/// One in every component.
impl<T: One> One for Vec3<T> {
    open spec fn one_spec() -> Self {
        Vec3 { x: T::one_spec(), y: T::one_spec(), z: T::one_spec() }
    }

    fn one() -> (r: Self) {
        Vec3 { x: T::one(), y: T::one(), z: T::one() }
    }
}

impl<T: Copy + Mul<Output = T> + Add<Output = T> + Sub<Output = T> + Abs> VecOps<T> for Vec3<T> {
    open spec fn sum_elem_req(self) -> bool {
        &&& T::obeys_add_spec()
        &&& self.x.add_req(self.y)
        &&& self.x.add_spec(self.y).add_req(self.z)
    }

    open spec fn sum_elem_spec(self) -> T {
        self.x.add_spec(self.y).add_spec(self.z)
    }

    fn sum_elem(self) -> (r: T) {
        self.x + self.y + self.z
    }
}

impl<T: Copy + Mul<Output = T> + Add<Output = T> + Sub<Output = T>> Dot<T> for Vec3<T> {
    open spec fn dot_req(&self, other: &Self) -> bool {
        &&& T::obeys_mul_spec()
        &&& T::obeys_add_spec()
        &&& self.x.mul_req(other.x)
        &&& self.y.mul_req(other.y)
        &&& self.z.mul_req(other.z)
        &&& self.x.mul_spec(other.x).add_req(self.y.mul_spec(other.y))
        &&& self.x.mul_spec(other.x).add_spec(self.y.mul_spec(other.y)).add_req(self.z.mul_spec(other.z))
    }

    open spec fn dot_spec(&self, other: &Self) -> T {
        self.x.mul_spec(other.x).add_spec(self.y.mul_spec(other.y)).add_spec(self.z.mul_spec(other.z))
    }

    fn dot(&self, other: &Self) -> (r: T) {
        self.x * other.x + self.y * other.y + self.z * other.z
    }
}

impl<T: Copy> Vec3<T> {
    /// Whether every multiplication of `mul_elem` is defined.
    pub open spec fn mul_elem_req(self) -> bool where T: One + Mul<Output = T> {
        &&& T::obeys_mul_spec()
        &&& self.x.mul_req(self.y)
        &&& self.x.mul_spec(self.y).mul_req(self.z)
        &&& self.x.mul_spec(self.y).mul_spec(self.z).mul_req(T::one_spec())
    }

    /// The product of the components, taken from the first to the last, times one.
    pub open spec fn mul_elem_spec(self) -> T where T: One + Mul<Output = T> {
        self.x.mul_spec(self.y).mul_spec(self.z).mul_spec(T::one_spec())
    }

    /// The minimum of each pair of components, avoiding what is not a number.
    pub open spec fn min_spec(self, rhs: Self) -> Self where T: IsNan {
        Vec3 { x: self.x.non_nan_min_spec(rhs.x), y: self.y.non_nan_min_spec(rhs.y), z: self.z.non_nan_min_spec(rhs.z) }
    }

    /// The maximum of each pair of components, avoiding what is not a number.
    pub open spec fn max_spec(self, rhs: Self) -> Self where T: IsNan {
        Vec3 { x: self.x.non_nan_max_spec(rhs.x), y: self.y.non_nan_max_spec(rhs.y), z: self.z.non_nan_max_spec(rhs.z) }
    }

    /// Each component brought down to `max`, then up to `min`.
    pub open spec fn clamp_spec(self, min: Self, max: Self) -> Self where T: IsNan {
        self.min_spec(max).max_spec(min)
    }

    /// The least component, avoiding what is not a number.
    pub open spec fn min_elem_spec(self) -> T where T: IsNan {
        self.x.non_nan_min_spec(self.y).non_nan_min_spec(self.z)
    }

    /// The greatest component, avoiding what is not a number.
    pub open spec fn max_elem_spec(self) -> T where T: IsNan {
        self.x.non_nan_max_spec(self.y).non_nan_max_spec(self.z)
    }

    /// For each component, whether it is not a number.
    pub open spec fn is_nan_spec(self) -> Vec3<bool> where T: IsNan {
        Vec3 { x: self.x.is_nan_spec(), y: self.y.is_nan_spec(), z: self.z.is_nan_spec() }
    }

    /// The normalized vector, or the zero vector where a component of it is not a
    /// number.
    pub open spec fn normalize_or_zero_spec(self) -> Self where
        T: Zero + Div<Output = T> + Sqrt<T> + IsNan,
        Self: VecOps<T>,
     {
        if normalize_spec(self).is_nan_spec().or_spec() {
            Vec3 { x: T::zero_spec(), y: T::zero_spec(), z: T::zero_spec() }
        } else {
            normalize_spec(self)
        }
    }
}

impl<T: Copy> Vec3<T> {
    /// One in the first component, zero in the others.
    pub fn ident() -> (r: Self) where T: Zero + One
        ensures
            r == (Vec3 { x: T::one_spec(), y: T::zero_spec(), z: T::zero_spec() }),
    {
        Vec3 { x: T::one(), y: T::zero(), z: T::zero() }
    }

    /// The product of the components.
    pub fn mul_elem(self) -> (r: T) where T: One + Mul<Output = T>
        requires
            self.mul_elem_req(),
        ensures
            r == self.mul_elem_spec(),
    {
        self.x * self.y * self.z * T::one()
    }

    pub fn min(self, rhs: Self) -> (r: Self) where T: IsNan
        ensures
            r == self.min_spec(rhs),
    {
        vec3(self.x.non_nan_min(rhs.x), self.y.non_nan_min(rhs.y), self.z.non_nan_min(rhs.z))
    }

    pub fn max(self, rhs: Self) -> (r: Self) where T: IsNan
        ensures
            r == self.max_spec(rhs),
    {
        vec3(self.x.non_nan_max(rhs.x), self.y.non_nan_max(rhs.y), self.z.non_nan_max(rhs.z))
    }

    /// Brings each component into the range from `min` to `max`; where the two
    /// cross, `min` wins.
    pub fn clamp(self, min: Self, max: Self) -> (r: Self) where T: IsNan
        ensures
            r == self.clamp_spec(min, max),
    {
        self.min(max).max(min)
    }

    pub fn min_elem(self) -> (r: T) where T: IsNan
        ensures
            r == self.min_elem_spec(),
    {
        let r = self.x;
        let r = r.non_nan_min(self.y);
        let r = r.non_nan_min(self.z);
        r
    }

    pub fn max_elem(self) -> (r: T) where T: IsNan
        ensures
            r == self.max_elem_spec(),
    {
        let r = self.x;
        let r = r.non_nan_max(self.y);
        let r = r.non_nan_max(self.z);
        r
    }

    pub fn is_nan(self) -> (r: Vec3<bool>) where T: IsNan
        ensures
            r == self.is_nan_spec(),
    {
        vec3(self.x.is_nan(), self.y.is_nan(), self.z.is_nan())
    }

    /// The square root of the dot product of the vector with itself.
    pub fn magnitude(self) -> (r: T) where T: Sqrt<T>, Self: VecOps<T>
        requires
            dot_req(self, self),
        ensures
            r == dot_spec(self, self).sqrt_spec(),
    {
        self.dot(self).sqrt()
    }

    /// The vector divided by its magnitude; see [`normalize`].
    pub fn normalize(self) -> (r: Self) where T: Div<Output = T> + Sqrt<T>, Self: VecOps<T>
        requires
            normalize_req(self),
        ensures
            r == normalize_spec(self),
    {
        normalize(self)
    }

    /// The normalized vector, unless a component of it is not a number: then the
    /// zero vector. Every component is tested.
    pub fn normalize_or_zero(self) -> (r: Self) where
        T: Zero + Div<Output = T> + Sqrt<T> + IsNan,
        Self: VecOps<T>,

        requires
            normalize_req(self),
        ensures
            r == self.normalize_or_zero_spec(),
    {
        let r = self.normalize();
        if r.is_nan().or() {
            Self::zero()
        } else {
            r
        }
    }
}

impl Vec3<bool> {
    /// Whether some component holds.
    pub open spec fn or_spec(self) -> bool {
        self.x || self.y || self.z
    }

    /// Whether every component holds.
    pub open spec fn and_spec(self) -> bool {
        self.x && self.y && self.z
    }

    pub fn or(self) -> (r: bool)
        ensures
            r == self.or_spec(),
    {
        self.x || self.y || self.z
    }

    pub fn and(self) -> (r: bool)
        ensures
            r == self.and_spec(),
    {
        self.x && self.y && self.z
    }
}

/// Whether every operation of the cross product is defined.
pub open spec fn cross_req<T: Copy + Mul<Output = T> + Sub<Output = T>>(v: Vec3<T>, u: Vec3<T>) -> bool {
    &&& T::obeys_mul_spec()
    &&& T::obeys_sub_spec()
    &&& cross2_req(v.y, u.z, v.z, u.y)
    &&& cross2_req(v.z, u.x, v.x, u.z)
    &&& cross2_req(v.x, u.y, v.y, u.x)
}

/// The cross product: the vector at right angles to both, as long as the area
/// that they span.
pub open spec fn cross_spec<T: Copy + Mul<Output = T> + Sub<Output = T>>(v: Vec3<T>, u: Vec3<T>) -> Vec3<T> {
    Vec3 {
        x: cross2(v.y, u.z, v.z, u.y),
        y: cross2(v.z, u.x, v.x, u.z),
        z: cross2(v.x, u.y, v.y, u.x),
    }
}

pub fn cross<T: Copy + Mul<Output = T> + Sub<Output = T>>(v: Vec3<T>, u: Vec3<T>) -> (r: Vec3<T>)
    requires
        cross_req(v, u),
    ensures
        r == cross_spec(v, u),
{
    vec3(v.y * u.z - v.z * u.y, v.z * u.x - v.x * u.z, v.x * u.y - v.y * u.x)
}

impl<T: Copy + Zero + Add<Output = T>> Vec3<T> {
    /// The sum of the vectors, folded from the left, starting from all zeros.
    pub open spec fn sum_spec(items: Seq<Self>) -> Self
        decreases items.len(),
    {
        if items.len() == 0 {
            Vec3 { x: T::zero_spec(), y: T::zero_spec(), z: T::zero_spec() }
        } else {
            Self::sum_spec(items.drop_last()).add_spec(items.last())
        }
    }

    /// Whether every operation of the fold is defined.
    pub open spec fn sum_req(items: Seq<Self>) -> bool
        decreases items.len(),
    {
        &&& T::obeys_add_spec()
        &&& items.len() > 0 ==> Self::sum_req(items.drop_last()) && Self::sum_spec(
            items.drop_last(),
        ).add_req(items.last())
    }

    /// The sum of a sequence of vectors; all zeros for the empty one.
    pub fn sum(items: &[Self]) -> (r: Self)
        requires
            Self::sum_req(items@),
        ensures
            r == Self::sum_spec(items@),
    {
        let mut acc = Vec3 { x: T::zero(), y: T::zero(), z: T::zero() };
        let mut i: usize = 0;
        while i < items.len()
            invariant
                i <= items.len(),
                T::obeys_add_spec(),
                Self::sum_req(items@),
                acc == Self::sum_spec(items@.take(i as int)),
            decreases items.len() - i,
        {
            proof {
                Self::lemma_sum_prefix(items@, i as int + 1);
                assert(items@.take(i as int + 1).drop_last() == items@.take(i as int));
            }
            acc = acc + items[i];
            i = i + 1;
        }
        proof {
            assert(items@.take(i as int) == items@);
        }
        acc
    }

    /// A fold that is defined is defined on each of its prefixes.
    proof fn lemma_sum_prefix(items: Seq<Self>, n: int)
        requires
            Self::sum_req(items),
            0 <= n <= items.len(),
        ensures
            Self::sum_req(items.take(n)),
        decreases items.len(),
    {
        if n < items.len() {
            Self::lemma_sum_prefix(items.drop_last(), n);
            assert(items.drop_last().take(n) == items.take(n));
        } else {
            assert(items.take(n) == items);
        }
    }
}

impl<T: Copy + One + Mul<Output = T>> Vec3<T> {
    /// The product of the vectors, folded from the left, starting from all ones.
    pub open spec fn product_spec(items: Seq<Self>) -> Self
        decreases items.len(),
    {
        if items.len() == 0 {
            Vec3 { x: T::one_spec(), y: T::one_spec(), z: T::one_spec() }
        } else {
            Self::product_spec(items.drop_last()).mul_spec(items.last())
        }
    }

    /// Whether every operation of the fold is defined.
    pub open spec fn product_req(items: Seq<Self>) -> bool
        decreases items.len(),
    {
        &&& T::obeys_mul_spec()
        &&& items.len() > 0 ==> Self::product_req(items.drop_last()) && Self::product_spec(
            items.drop_last(),
        ).mul_req(items.last())
    }

    /// The product of a sequence of vectors; all ones for the empty one.
    pub fn product(items: &[Self]) -> (r: Self)
        requires
            Self::product_req(items@),
        ensures
            r == Self::product_spec(items@),
    {
        let mut acc = Vec3 { x: T::one(), y: T::one(), z: T::one() };
        let mut i: usize = 0;
        while i < items.len()
            invariant
                i <= items.len(),
                T::obeys_mul_spec(),
                Self::product_req(items@),
                acc == Self::product_spec(items@.take(i as int)),
            decreases items.len() - i,
        {
            proof {
                Self::lemma_product_prefix(items@, i as int + 1);
                assert(items@.take(i as int + 1).drop_last() == items@.take(i as int));
            }
            acc = acc * items[i];
            i = i + 1;
        }
        proof {
            assert(items@.take(i as int) == items@);
        }
        acc
    }

    /// A fold that is defined is defined on each of its prefixes.
    proof fn lemma_product_prefix(items: Seq<Self>, n: int)
        requires
            Self::product_req(items),
            0 <= n <= items.len(),
        ensures
            Self::product_req(items.take(n)),
        decreases items.len(),
    {
        if n < items.len() {
            Self::lemma_product_prefix(items.drop_last(), n);
            assert(items.drop_last().take(n) == items.take(n));
        } else {
            assert(items.take(n) == items);
        }
    }
}

impl<T> Vec3<T> {
    /// The component at `index`, counted from zero.
    pub open spec fn component(self, index: int) -> T {
        if index == 0 { self.x } else { if index == 1 { self.y } else { self.z } }
    }

    /// The vector with `value` in place of the component at `index`.
    pub open spec fn with_component(self, index: int, value: T) -> Self {
        if index == 0 { Vec3 { x: value, y: self.y, z: self.z } } else { if index == 1 { Vec3 { x: self.x, y: value, z: self.z } } else { Vec3 { x: self.x, y: self.y, z: value } } }
    }
}

/// Indexing by position; an index of 3 or more is left out by `index_req`.
impl<T> Index<usize> for Vec3<T> {
    type Output = T;

    fn index(&self, index: usize) -> (r: &T)
        ensures
            *r == self.component(index as int),
    {
        if index == 0 {
            &self.x
        } else if index == 1 {
            &self.y
        } else if index == 2 {
            &self.z
        } else {
            vstd::pervasive::unreached()
        }
    }
}

impl<T> vstd::std_specs::core::IndexSpecImpl<usize> for Vec3<T> {
    open spec fn index_req(&self, index: &usize) -> bool {
        *index < 3
    }
}

impl<T> IndexMut<usize> for Vec3<T> {
    fn index_mut(&mut self, index: usize) -> (r: &mut T)
        requires
            index < 3,
        ensures
            *r == old(self).component(index as int),
            *final(self) == old(self).with_component(index as int, *final(r)),
    {
        if index == 0 {
            &mut self.x
        } else if index == 1 {
            &mut self.y
        } else if index == 2 {
            &mut self.z
        } else {
            vstd::pervasive::unreached()
        }
    }
}

/// Functions of `isize`, applied to each component by itself.
impl Vec3<isize> {
    /// The sign of each component: -1, 0 or 1.
    pub fn signum(self) -> (r: Self)
        ensures
            r.x == sign_of(self.x as int),
            r.y == sign_of(self.y as int),
            r.z == sign_of(self.z as int),
    {
        Vec3 {
            x: if self.x > 0 {
                1
            } else if self.x < 0 {
                -1
            } else {
                0
            },
            y: if self.y > 0 {
                1
            } else if self.y < 0 {
                -1
            } else {
                0
            },
            z: if self.z > 0 {
                1
            } else if self.z < 0 {
                -1
            } else {
                0
            },
        }
    }

    /// Each component negated; the least value, which has no negation, stays.
    pub fn wrapping_neg(self) -> (r: Self)
        ensures
            r.x == (if self.x == isize::MIN { isize::MIN as int } else { -self.x }),
            r.y == (if self.y == isize::MIN { isize::MIN as int } else { -self.y }),
            r.z == (if self.z == isize::MIN { isize::MIN as int } else { -self.z }),
    {
        Vec3 {
            x: if self.x == isize::MIN {
                isize::MIN
            } else {
                -self.x
            },
            y: if self.y == isize::MIN {
                isize::MIN
            } else {
                -self.y
            },
            z: if self.z == isize::MIN {
                isize::MIN
            } else {
                -self.z
            },
        }
    }

    /// The magnitude of each component; the least value, which has none, stays.
    pub fn wrapping_abs(self) -> (r: Self)
        ensures
            r == self.abs_spec(),
    {
        self.abs()
    }

    /// For each component, whether it is greater than zero.
    pub fn is_positive(self) -> (r: Vec3<bool>)
        ensures
            r == (Vec3 { x: self.x > 0, y: self.y > 0, z: self.z > 0 }),
    {
        Vec3 { x: self.x > 0, y: self.y > 0, z: self.z > 0 }
    }

    /// For each component, whether it is less than zero.
    pub fn is_negative(self) -> (r: Vec3<bool>)
        ensures
            r == (Vec3 { x: self.x < 0, y: self.y < 0, z: self.z < 0 }),
    {
        Vec3 { x: self.x < 0, y: self.y < 0, z: self.z < 0 }
    }
}

/// Functions of `i64`, applied to each component by itself.
impl Vec3<i64> {
    /// The sign of each component: -1, 0 or 1.
    pub fn signum(self) -> (r: Self)
        ensures
            r.x == sign_of(self.x as int),
            r.y == sign_of(self.y as int),
            r.z == sign_of(self.z as int),
    {
        Vec3 {
            x: if self.x > 0 {
                1
            } else if self.x < 0 {
                -1
            } else {
                0
            },
            y: if self.y > 0 {
                1
            } else if self.y < 0 {
                -1
            } else {
                0
            },
            z: if self.z > 0 {
                1
            } else if self.z < 0 {
                -1
            } else {
                0
            },
        }
    }

    /// Each component negated; the least value, which has no negation, stays.
    pub fn wrapping_neg(self) -> (r: Self)
        ensures
            r.x == (if self.x == i64::MIN { i64::MIN as int } else { -self.x }),
            r.y == (if self.y == i64::MIN { i64::MIN as int } else { -self.y }),
            r.z == (if self.z == i64::MIN { i64::MIN as int } else { -self.z }),
    {
        Vec3 {
            x: if self.x == i64::MIN {
                i64::MIN
            } else {
                -self.x
            },
            y: if self.y == i64::MIN {
                i64::MIN
            } else {
                -self.y
            },
            z: if self.z == i64::MIN {
                i64::MIN
            } else {
                -self.z
            },
        }
    }

    /// The magnitude of each component; the least value, which has none, stays.
    pub fn wrapping_abs(self) -> (r: Self)
        ensures
            r == self.abs_spec(),
    {
        self.abs()
    }

    /// For each component, whether it is greater than zero.
    pub fn is_positive(self) -> (r: Vec3<bool>)
        ensures
            r == (Vec3 { x: self.x > 0, y: self.y > 0, z: self.z > 0 }),
    {
        Vec3 { x: self.x > 0, y: self.y > 0, z: self.z > 0 }
    }

    /// For each component, whether it is less than zero.
    pub fn is_negative(self) -> (r: Vec3<bool>)
        ensures
            r == (Vec3 { x: self.x < 0, y: self.y < 0, z: self.z < 0 }),
    {
        Vec3 { x: self.x < 0, y: self.y < 0, z: self.z < 0 }
    }
}

/// Functions of `i32`, applied to each component by itself.
impl Vec3<i32> {
    /// The sign of each component: -1, 0 or 1.
    pub fn signum(self) -> (r: Self)
        ensures
            r.x == sign_of(self.x as int),
            r.y == sign_of(self.y as int),
            r.z == sign_of(self.z as int),
    {
        Vec3 {
            x: if self.x > 0 {
                1
            } else if self.x < 0 {
                -1
            } else {
                0
            },
            y: if self.y > 0 {
                1
            } else if self.y < 0 {
                -1
            } else {
                0
            },
            z: if self.z > 0 {
                1
            } else if self.z < 0 {
                -1
            } else {
                0
            },
        }
    }

    /// Each component negated; the least value, which has no negation, stays.
    pub fn wrapping_neg(self) -> (r: Self)
        ensures
            r.x == (if self.x == i32::MIN { i32::MIN as int } else { -self.x }),
            r.y == (if self.y == i32::MIN { i32::MIN as int } else { -self.y }),
            r.z == (if self.z == i32::MIN { i32::MIN as int } else { -self.z }),
    {
        Vec3 {
            x: if self.x == i32::MIN {
                i32::MIN
            } else {
                -self.x
            },
            y: if self.y == i32::MIN {
                i32::MIN
            } else {
                -self.y
            },
            z: if self.z == i32::MIN {
                i32::MIN
            } else {
                -self.z
            },
        }
    }

    /// The magnitude of each component; the least value, which has none, stays.
    pub fn wrapping_abs(self) -> (r: Self)
        ensures
            r == self.abs_spec(),
    {
        self.abs()
    }

    /// For each component, whether it is greater than zero.
    pub fn is_positive(self) -> (r: Vec3<bool>)
        ensures
            r == (Vec3 { x: self.x > 0, y: self.y > 0, z: self.z > 0 }),
    {
        Vec3 { x: self.x > 0, y: self.y > 0, z: self.z > 0 }
    }

    /// For each component, whether it is less than zero.
    pub fn is_negative(self) -> (r: Vec3<bool>)
        ensures
            r == (Vec3 { x: self.x < 0, y: self.y < 0, z: self.z < 0 }),
    {
        Vec3 { x: self.x < 0, y: self.y < 0, z: self.z < 0 }
    }
}

/// Functions of `i16`, applied to each component by itself.
impl Vec3<i16> {
    /// The sign of each component: -1, 0 or 1.
    pub fn signum(self) -> (r: Self)
        ensures
            r.x == sign_of(self.x as int),
            r.y == sign_of(self.y as int),
            r.z == sign_of(self.z as int),
    {
        Vec3 {
            x: if self.x > 0 {
                1
            } else if self.x < 0 {
                -1
            } else {
                0
            },
            y: if self.y > 0 {
                1
            } else if self.y < 0 {
                -1
            } else {
                0
            },
            z: if self.z > 0 {
                1
            } else if self.z < 0 {
                -1
            } else {
                0
            },
        }
    }

    /// Each component negated; the least value, which has no negation, stays.
    pub fn wrapping_neg(self) -> (r: Self)
        ensures
            r.x == (if self.x == i16::MIN { i16::MIN as int } else { -self.x }),
            r.y == (if self.y == i16::MIN { i16::MIN as int } else { -self.y }),
            r.z == (if self.z == i16::MIN { i16::MIN as int } else { -self.z }),
    {
        Vec3 {
            x: if self.x == i16::MIN {
                i16::MIN
            } else {
                -self.x
            },
            y: if self.y == i16::MIN {
                i16::MIN
            } else {
                -self.y
            },
            z: if self.z == i16::MIN {
                i16::MIN
            } else {
                -self.z
            },
        }
    }

    /// The magnitude of each component; the least value, which has none, stays.
    pub fn wrapping_abs(self) -> (r: Self)
        ensures
            r == self.abs_spec(),
    {
        self.abs()
    }

    /// For each component, whether it is greater than zero.
    pub fn is_positive(self) -> (r: Vec3<bool>)
        ensures
            r == (Vec3 { x: self.x > 0, y: self.y > 0, z: self.z > 0 }),
    {
        Vec3 { x: self.x > 0, y: self.y > 0, z: self.z > 0 }
    }

    /// For each component, whether it is less than zero.
    pub fn is_negative(self) -> (r: Vec3<bool>)
        ensures
            r == (Vec3 { x: self.x < 0, y: self.y < 0, z: self.z < 0 }),
    {
        Vec3 { x: self.x < 0, y: self.y < 0, z: self.z < 0 }
    }
}

/// Functions of `i8`, applied to each component by itself.
impl Vec3<i8> {
    /// The sign of each component: -1, 0 or 1.
    pub fn signum(self) -> (r: Self)
        ensures
            r.x == sign_of(self.x as int),
            r.y == sign_of(self.y as int),
            r.z == sign_of(self.z as int),
    {
        Vec3 {
            x: if self.x > 0 {
                1
            } else if self.x < 0 {
                -1
            } else {
                0
            },
            y: if self.y > 0 {
                1
            } else if self.y < 0 {
                -1
            } else {
                0
            },
            z: if self.z > 0 {
                1
            } else if self.z < 0 {
                -1
            } else {
                0
            },
        }
    }

    /// Each component negated; the least value, which has no negation, stays.
    pub fn wrapping_neg(self) -> (r: Self)
        ensures
            r.x == (if self.x == i8::MIN { i8::MIN as int } else { -self.x }),
            r.y == (if self.y == i8::MIN { i8::MIN as int } else { -self.y }),
            r.z == (if self.z == i8::MIN { i8::MIN as int } else { -self.z }),
    {
        Vec3 {
            x: if self.x == i8::MIN {
                i8::MIN
            } else {
                -self.x
            },
            y: if self.y == i8::MIN {
                i8::MIN
            } else {
                -self.y
            },
            z: if self.z == i8::MIN {
                i8::MIN
            } else {
                -self.z
            },
        }
    }

    /// The magnitude of each component; the least value, which has none, stays.
    pub fn wrapping_abs(self) -> (r: Self)
        ensures
            r == self.abs_spec(),
    {
        self.abs()
    }

    /// For each component, whether it is greater than zero.
    pub fn is_positive(self) -> (r: Vec3<bool>)
        ensures
            r == (Vec3 { x: self.x > 0, y: self.y > 0, z: self.z > 0 }),
    {
        Vec3 { x: self.x > 0, y: self.y > 0, z: self.z > 0 }
    }

    /// For each component, whether it is less than zero.
    pub fn is_negative(self) -> (r: Vec3<bool>)
        ensures
            r == (Vec3 { x: self.x < 0, y: self.y < 0, z: self.z < 0 }),
    {
        Vec3 { x: self.x < 0, y: self.y < 0, z: self.z < 0 }
    }
}

impl<T> Vec3<T> {
    /// The vector of the parsed components, or the first error in their order.
    pub open spec fn from_parsed_spec<E>(x: Result<T, E>, y: Result<T, E>, z: Result<T, E>) -> Result<Self, E> {
        match x {
            Err(e) => Err(e),
            Ok(x) => {
                match y {
                    Err(e) => Err(e),
                    Ok(y) => {
                        match z {
                            Err(e) => Err(e),
                            Ok(z) => {
                                Ok(Vec3 { x, y, z })
                            },
                        }
                    },
                }
            },
        }
    }

    /// Puts together what parsing each component gave: the first error in their
    /// order where one failed.
    pub fn from_parsed<E>(x: Result<T, E>, y: Result<T, E>, z: Result<T, E>) -> (out: Result<Self, E>)
        ensures
            out == Self::from_parsed_spec(x, y, z),
    {
        match x {
            Err(e) => Err(e),
            Ok(x) => {
                match y {
                    Err(e) => Err(e),
                    Ok(y) => {
                        match z {
                            Err(e) => Err(e),
                            Ok(z) => {
                                Ok(Vec3 { x, y, z })
                            },
                        }
                    },
                }
            },
        }
    }

    /// Reads the text form: the first three numerals of `input`, each handed to
    /// `parse` in order until one fails. A numeral that is missing is handed over
    /// as the empty string, for `parse` to refuse.
    pub fn from_str_with<E, F: Fn(&str) -> Result<T, E>>(input: &str, parse: F) -> (out: Result<Self, E>)
        requires
            forall|s: &str| call_requires(parse, (s,)),
        ensures
            exists|x: Result<T, E>, y: Result<T, E>, z: Result<T, E>|
                #![trigger Self::from_parsed_spec(x, y, z)]
                {
                    &&& parses(parse, components_spec(input@, 3)[0], x)
                    &&& (x is Ok ==> parses(parse, components_spec(input@, 3)[1], y))
                    &&& (x is Ok && y is Ok ==> parses(parse, components_spec(input@, 3)[2], z))
                    &&& out == Self::from_parsed_spec(x, y, z)
                },
    {
        let words = components(input, 3);
        proof {
            assert(views(words@)[0] == words@[0]@);
            assert(views(words@)[1] == words@[1]@);
            assert(views(words@)[2] == words@[2]@);
        }
        let x = parse(words[0].as_str());
        match x {
            Err(e) => {
                proof {
                    assert(Self::from_parsed_spec::<E>(Err(e), Err(e), Err(e)) == Err::<Self, E>(e));
                }
                Err(e)
            },
            Ok(x) => {
                let y = parse(words[1].as_str());
                match y {
                    Err(e) => {
                        proof {
                            assert(Self::from_parsed_spec::<E>(Ok(x), Err(e), Err(e)) == Err::<Self, E>(e));
                        }
                        Err(e)
                    },
                    Ok(y) => {
                        let z = parse(words[2].as_str());
                        match z {
                            Err(e) => {
                                proof {
                                    assert(Self::from_parsed_spec::<E>(Ok(x), Ok(y), Err(e)) == Err::<Self, E>(e));
                                }
                                Err(e)
                            },
                            Ok(z) => {
                                proof {
                                    assert(Self::from_parsed_spec::<E>(Ok(x), Ok(y), Ok(z)) == Ok::<Self, E>(Vec3 { x, y, z }));
                                }
                                Ok(Vec3 { x, y, z })
                            },
                        }
                    },
                }
            },
        }
    }
}

/// The components, each rendered within `limit` characters, between brackets
/// and parted by a comma and a space.
impl<T: NiceFmt> NiceFmt for Vec3<T> {
    open spec fn nice_fmt_spec(&self, limit: usize, pad: bool) -> Seq<char> {
        seq!['('] + self.x.nice_fmt_spec(limit, pad) + seq![',', ' '] + self.y.nice_fmt_spec(limit, pad) + seq![',', ' '] + self.z.nice_fmt_spec(limit, pad) + seq![')']
    }

    fn nice_fmt(&self, limit: usize, pad: bool) -> (r: String) {
        let mut s = String::new();
        proof {
            reveal_strlit("(");
            reveal_strlit(", ");
            reveal_strlit(")");
        }
        s.append("(");
        s.append(self.x.nice_fmt(limit, pad).as_str());
        s.append(", ");
        s.append(self.y.nice_fmt(limit, pad).as_str());
        s.append(", ");
        s.append(self.z.nice_fmt(limit, pad).as_str());
        s.append(")");
        proof {
            assert(s@ =~= self.nice_fmt_spec(limit, pad));
        }
        s
    }
}

} // verus!
