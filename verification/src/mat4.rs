//! Square matrices of four rows.

use vstd::prelude::*;
use vstd::std_specs::cmp::PartialEqSpec;
use vstd::std_specs::ops::AddSpec;
use vstd::std_specs::ops::DivSpec;
use vstd::std_specs::ops::MulSpec;
use vstd::std_specs::ops::NegSpec;
use vstd::std_specs::ops::SubSpec;
use std::ops::Add;
use std::ops::AddAssign;
use std::ops::Div;
use std::ops::Mul;
use std::ops::Neg;
use std::ops::Sub;
use std::ops::SubAssign;
use crate::terms::mul3;
use crate::terms::mul3_req;
use crate::terms::mul4;
use crate::terms::mul4_req;
use crate::terms::net6;
use crate::terms::net6_req;
use crate::terms::obeys_ring;
use crate::traits::Dot;
use crate::traits::One;
use crate::traits::Zero;
use crate::vec4::vec4;
use crate::vec4::Vec4;

verus! {

/// A matrix of four rows, `x`, `y`, `z` and `w` from the top, each a vector of
/// four components.
#[derive(Debug, Copy, Clone, Eq, Hash)]
pub struct Mat4<T> {
    pub x: Vec4<T>,
    pub y: Vec4<T>,
    pub z: Vec4<T>,
    pub w: Vec4<T>,
}

impl<T: PartialEq> PartialEq for Mat4<T> {
    fn eq(&self, other: &Self) -> (r: bool) {
        self.x == other.x && self.y == other.y && self.z == other.z && self.w == other.w
    }
}

/// Two matrices are equal where each pair of entries is.
impl<T: PartialEq> vstd::std_specs::cmp::PartialEqSpecImpl for Mat4<T> {
    open spec fn obeys_eq_spec() -> bool {
        T::obeys_eq_spec()
    }

    open spec fn eq_spec(&self, other: &Self) -> bool {
        &&& PartialEqSpec::eq_spec(&self.x, &other.x)
        &&& PartialEqSpec::eq_spec(&self.y, &other.y)
        &&& PartialEqSpec::eq_spec(&self.z, &other.z)
        &&& PartialEqSpec::eq_spec(&self.w, &other.w)
    }
}

/// The matrix of the given rows.
pub fn mat4<T>(x: Vec4<T>, y: Vec4<T>, z: Vec4<T>, w: Vec4<T>) -> (r: Mat4<T>)
    ensures
        r == (Mat4 { x, y, z, w }),
{
    Mat4 { x, y, z, w }
}

impl<T: Add<Output = T>> Add for Mat4<T> {
    type Output = Self;

    fn add(self, other: Self) -> (r: Self) {
        mat4(self.x + other.x, self.y + other.y, self.z + other.z, self.w + other.w)
    }
}

/// The sum of each pair of entries.
impl<T: Add<Output = T>> vstd::std_specs::ops::AddSpecImpl for Mat4<T> {
    open spec fn obeys_add_spec() -> bool {
        T::obeys_add_spec()
    }

    open spec fn add_req(self, other: Self) -> bool {
        &&& AddSpec::add_req(self.x, other.x)
        &&& AddSpec::add_req(self.y, other.y)
        &&& AddSpec::add_req(self.z, other.z)
        &&& AddSpec::add_req(self.w, other.w)
    }

    open spec fn add_spec(self, other: Self) -> Self {
        Mat4 {
            x: AddSpec::add_spec(self.x, other.x),
            y: AddSpec::add_spec(self.y, other.y),
            z: AddSpec::add_spec(self.z, other.z),
            w: AddSpec::add_spec(self.w, other.w),
        }
    }
}

impl<T: Copy + Add<Output = T>> AddAssign for Mat4<T> {
    fn add_assign(&mut self, other: Self)
        requires
            old(self).add_req(other),
        ensures
            T::obeys_add_spec() ==> *final(self) == old(self).add_spec(other),
    {
        *self = *self + other;
    }
}

impl<T: Sub<Output = T>> Sub for Mat4<T> {
    type Output = Self;

    fn sub(self, other: Self) -> (r: Self) {
        mat4(self.x - other.x, self.y - other.y, self.z - other.z, self.w - other.w)
    }
}

/// The difference of each pair of entries.
impl<T: Sub<Output = T>> vstd::std_specs::ops::SubSpecImpl for Mat4<T> {
    open spec fn obeys_sub_spec() -> bool {
        T::obeys_sub_spec()
    }

    open spec fn sub_req(self, other: Self) -> bool {
        &&& SubSpec::sub_req(self.x, other.x)
        &&& SubSpec::sub_req(self.y, other.y)
        &&& SubSpec::sub_req(self.z, other.z)
        &&& SubSpec::sub_req(self.w, other.w)
    }

    open spec fn sub_spec(self, other: Self) -> Self {
        Mat4 {
            x: SubSpec::sub_spec(self.x, other.x),
            y: SubSpec::sub_spec(self.y, other.y),
            z: SubSpec::sub_spec(self.z, other.z),
            w: SubSpec::sub_spec(self.w, other.w),
        }
    }
}

impl<T: Copy + Sub<Output = T>> SubAssign for Mat4<T> {
    fn sub_assign(&mut self, other: Self)
        requires
            old(self).sub_req(other),
        ensures
            T::obeys_sub_spec() ==> *final(self) == old(self).sub_spec(other),
    {
        *self = *self - other;
    }
}

impl<T: Neg<Output = T>> Neg for Mat4<T> {
    type Output = Self;

    fn neg(self) -> (r: Self) {
        mat4(self.x.neg(), self.y.neg(), self.z.neg(), self.w.neg())
    }
}

/// The negation of each entry.
impl<T: Neg<Output = T>> vstd::std_specs::ops::NegSpecImpl for Mat4<T> {
    open spec fn obeys_neg_spec() -> bool {
        T::obeys_neg_spec()
    }

    open spec fn neg_req(self) -> bool {
        &&& NegSpec::neg_req(self.x)
        &&& NegSpec::neg_req(self.y)
        &&& NegSpec::neg_req(self.z)
        &&& NegSpec::neg_req(self.w)
    }

    open spec fn neg_spec(self) -> Self {
        Mat4 {
            x: NegSpec::neg_spec(self.x),
            y: NegSpec::neg_spec(self.y),
            z: NegSpec::neg_spec(self.z),
            w: NegSpec::neg_spec(self.w),
        }
    }
}

impl<T> Mat4<T> {
    /// Rows for columns.
    pub open spec fn transpose_spec(self) -> Self {
        Mat4 {
            x: Vec4 { x: self.x.x, y: self.y.x, z: self.z.x, w: self.w.x },
            y: Vec4 { x: self.x.y, y: self.y.y, z: self.z.y, w: self.w.y },
            z: Vec4 { x: self.x.z, y: self.y.z, z: self.z.z, w: self.w.z },
            w: Vec4 { x: self.x.w, y: self.y.w, z: self.z.w, w: self.w.w },
        }
    }

    /// Ones on the diagonal, zeros elsewhere.
    pub open spec fn ident_spec() -> Self where T: Zero + One {
        Mat4 {
            x: Vec4 { x: T::one_spec(), y: T::zero_spec(), z: T::zero_spec(), w: T::zero_spec() },
            y: Vec4 { x: T::zero_spec(), y: T::one_spec(), z: T::zero_spec(), w: T::zero_spec() },
            z: Vec4 { x: T::zero_spec(), y: T::zero_spec(), z: T::one_spec(), w: T::zero_spec() },
            w: Vec4 { x: T::zero_spec(), y: T::zero_spec(), z: T::zero_spec(), w: T::one_spec() },
        }
    }

    /// Whether every operation of the determinant is defined.
    pub open spec fn det_req(self) -> bool where T: Copy + Mul<Output = T> + Add<Output = T> + Sub<Output = T> {
        let p0 = mul4(self.x.x, self.y.y, self.z.z, self.w.w);
        let p1 = mul4(self.x.x, self.y.z, self.z.w, self.w.y);
        let p2 = mul4(self.x.x, self.y.w, self.z.y, self.w.z);
        let p3 = mul4(self.x.y, self.y.x, self.z.w, self.w.z);
        let p4 = mul4(self.x.y, self.y.z, self.z.x, self.w.w);
        let p5 = mul4(self.x.y, self.y.w, self.z.z, self.w.x);
        let p6 = mul4(self.x.z, self.y.x, self.z.y, self.w.w);
        let p7 = mul4(self.x.z, self.y.y, self.z.w, self.w.x);
        let p8 = mul4(self.x.z, self.y.w, self.z.x, self.w.y);
        let p9 = mul4(self.x.w, self.y.x, self.z.z, self.w.y);
        let p10 = mul4(self.x.w, self.y.y, self.z.x, self.w.z);
        let p11 = mul4(self.x.w, self.y.z, self.z.y, self.w.x);
        let n0 = mul4(self.x.x, self.y.y, self.z.w, self.w.z);
        let n1 = mul4(self.x.x, self.y.z, self.z.y, self.w.w);
        let n2 = mul4(self.x.x, self.y.w, self.z.z, self.w.y);
        let n3 = mul4(self.x.y, self.y.x, self.z.z, self.w.w);
        let n4 = mul4(self.x.y, self.y.z, self.z.w, self.w.x);
        let n5 = mul4(self.x.y, self.y.w, self.z.x, self.w.z);
        let n6 = mul4(self.x.z, self.y.x, self.z.w, self.w.y);
        let n7 = mul4(self.x.z, self.y.y, self.z.x, self.w.w);
        let n8 = mul4(self.x.z, self.y.w, self.z.y, self.w.x);
        let n9 = mul4(self.x.w, self.y.x, self.z.y, self.w.z);
        let n10 = mul4(self.x.w, self.y.y, self.z.z, self.w.x);
        let n11 = mul4(self.x.w, self.y.z, self.z.x, self.w.y);
        let s0 = p0.add_spec(p1);
        let s1 = s0.add_spec(p2);
        let s2 = s1.add_spec(p3);
        let s3 = s2.add_spec(p4);
        let s4 = s3.add_spec(p5);
        let s5 = s4.add_spec(p6);
        let s6 = s5.add_spec(p7);
        let s7 = s6.add_spec(p8);
        let s8 = s7.add_spec(p9);
        let s9 = s8.add_spec(p10);
        let s10 = s9.add_spec(p11);
        let s11 = s10.sub_spec(n0);
        let s12 = s11.sub_spec(n1);
        let s13 = s12.sub_spec(n2);
        let s14 = s13.sub_spec(n3);
        let s15 = s14.sub_spec(n4);
        let s16 = s15.sub_spec(n5);
        let s17 = s16.sub_spec(n6);
        let s18 = s17.sub_spec(n7);
        let s19 = s18.sub_spec(n8);
        let s20 = s19.sub_spec(n9);
        let s21 = s20.sub_spec(n10);
        &&& obeys_ring::<T>()
        &&& mul4_req(self.x.x, self.y.y, self.z.z, self.w.w)
        &&& mul4_req(self.x.x, self.y.z, self.z.w, self.w.y)
        &&& mul4_req(self.x.x, self.y.w, self.z.y, self.w.z)
        &&& mul4_req(self.x.y, self.y.x, self.z.w, self.w.z)
        &&& mul4_req(self.x.y, self.y.z, self.z.x, self.w.w)
        &&& mul4_req(self.x.y, self.y.w, self.z.z, self.w.x)
        &&& mul4_req(self.x.z, self.y.x, self.z.y, self.w.w)
        &&& mul4_req(self.x.z, self.y.y, self.z.w, self.w.x)
        &&& mul4_req(self.x.z, self.y.w, self.z.x, self.w.y)
        &&& mul4_req(self.x.w, self.y.x, self.z.z, self.w.y)
        &&& mul4_req(self.x.w, self.y.y, self.z.x, self.w.z)
        &&& mul4_req(self.x.w, self.y.z, self.z.y, self.w.x)
        &&& mul4_req(self.x.x, self.y.y, self.z.w, self.w.z)
        &&& mul4_req(self.x.x, self.y.z, self.z.y, self.w.w)
        &&& mul4_req(self.x.x, self.y.w, self.z.z, self.w.y)
        &&& mul4_req(self.x.y, self.y.x, self.z.z, self.w.w)
        &&& mul4_req(self.x.y, self.y.z, self.z.w, self.w.x)
        &&& mul4_req(self.x.y, self.y.w, self.z.x, self.w.z)
        &&& mul4_req(self.x.z, self.y.x, self.z.w, self.w.y)
        &&& mul4_req(self.x.z, self.y.y, self.z.x, self.w.w)
        &&& mul4_req(self.x.z, self.y.w, self.z.y, self.w.x)
        &&& mul4_req(self.x.w, self.y.x, self.z.y, self.w.z)
        &&& mul4_req(self.x.w, self.y.y, self.z.z, self.w.x)
        &&& mul4_req(self.x.w, self.y.z, self.z.x, self.w.y)
        &&& p0.add_req(p1)
        &&& s0.add_req(p2)
        &&& s1.add_req(p3)
        &&& s2.add_req(p4)
        &&& s3.add_req(p5)
        &&& s4.add_req(p6)
        &&& s5.add_req(p7)
        &&& s6.add_req(p8)
        &&& s7.add_req(p9)
        &&& s8.add_req(p10)
        &&& s9.add_req(p11)
        &&& s10.sub_req(n0)
        &&& s11.sub_req(n1)
        &&& s12.sub_req(n2)
        &&& s13.sub_req(n3)
        &&& s14.sub_req(n4)
        &&& s15.sub_req(n5)
        &&& s16.sub_req(n6)
        &&& s17.sub_req(n7)
        &&& s18.sub_req(n8)
        &&& s19.sub_req(n9)
        &&& s20.sub_req(n10)
        &&& s21.sub_req(n11)
    }

    /// The determinant, expanded in twenty-four products of four entries, one of
    /// each row and of each column: the twelve `p` are added, then the twelve `n`
    /// removed, from the left.
    pub open spec fn det_spec(self) -> T where T: Copy + Mul<Output = T> + Add<Output = T> + Sub<Output = T> {
        let p0 = mul4(self.x.x, self.y.y, self.z.z, self.w.w);
        let p1 = mul4(self.x.x, self.y.z, self.z.w, self.w.y);
        let p2 = mul4(self.x.x, self.y.w, self.z.y, self.w.z);
        let p3 = mul4(self.x.y, self.y.x, self.z.w, self.w.z);
        let p4 = mul4(self.x.y, self.y.z, self.z.x, self.w.w);
        let p5 = mul4(self.x.y, self.y.w, self.z.z, self.w.x);
        let p6 = mul4(self.x.z, self.y.x, self.z.y, self.w.w);
        let p7 = mul4(self.x.z, self.y.y, self.z.w, self.w.x);
        let p8 = mul4(self.x.z, self.y.w, self.z.x, self.w.y);
        let p9 = mul4(self.x.w, self.y.x, self.z.z, self.w.y);
        let p10 = mul4(self.x.w, self.y.y, self.z.x, self.w.z);
        let p11 = mul4(self.x.w, self.y.z, self.z.y, self.w.x);
        let n0 = mul4(self.x.x, self.y.y, self.z.w, self.w.z);
        let n1 = mul4(self.x.x, self.y.z, self.z.y, self.w.w);
        let n2 = mul4(self.x.x, self.y.w, self.z.z, self.w.y);
        let n3 = mul4(self.x.y, self.y.x, self.z.z, self.w.w);
        let n4 = mul4(self.x.y, self.y.z, self.z.w, self.w.x);
        let n5 = mul4(self.x.y, self.y.w, self.z.x, self.w.z);
        let n6 = mul4(self.x.z, self.y.x, self.z.w, self.w.y);
        let n7 = mul4(self.x.z, self.y.y, self.z.x, self.w.w);
        let n8 = mul4(self.x.z, self.y.w, self.z.y, self.w.x);
        let n9 = mul4(self.x.w, self.y.x, self.z.y, self.w.z);
        let n10 = mul4(self.x.w, self.y.y, self.z.z, self.w.x);
        let n11 = mul4(self.x.w, self.y.z, self.z.x, self.w.y);
        let s0 = p0.add_spec(p1);
        let s1 = s0.add_spec(p2);
        let s2 = s1.add_spec(p3);
        let s3 = s2.add_spec(p4);
        let s4 = s3.add_spec(p5);
        let s5 = s4.add_spec(p6);
        let s6 = s5.add_spec(p7);
        let s7 = s6.add_spec(p8);
        let s8 = s7.add_spec(p9);
        let s9 = s8.add_spec(p10);
        let s10 = s9.add_spec(p11);
        let s11 = s10.sub_spec(n0);
        let s12 = s11.sub_spec(n1);
        let s13 = s12.sub_spec(n2);
        let s14 = s13.sub_spec(n3);
        let s15 = s14.sub_spec(n4);
        let s16 = s15.sub_spec(n5);
        let s17 = s16.sub_spec(n6);
        let s18 = s17.sub_spec(n7);
        let s19 = s18.sub_spec(n8);
        let s20 = s19.sub_spec(n9);
        let s21 = s20.sub_spec(n10);
        s21.sub_spec(n11)
    }

    /// Whether every operation of the matrix of cofactors is defined.
    pub open spec fn cofactor_req(self) -> bool where
        T: Copy + Mul<Output = T> + Add<Output = T> + Sub<Output = T> + Div<Output = T> + Neg<Output = T>,
     {
        &&& obeys_ring::<T>()
        &&& mul3_req(self.y.y, self.z.z, self.w.w)
        &&& mul3_req(self.y.z, self.z.w, self.w.y)
        &&& mul3_req(self.y.w, self.z.y, self.w.z)
        &&& mul3_req(self.y.y, self.z.w, self.w.z)
        &&& mul3_req(self.y.z, self.z.y, self.w.w)
        &&& mul3_req(self.y.w, self.z.z, self.w.y)
        &&& net6_req(
            mul3(self.y.y, self.z.z, self.w.w),
            mul3(self.y.z, self.z.w, self.w.y),
            mul3(self.y.w, self.z.y, self.w.z),
            mul3(self.y.y, self.z.w, self.w.z),
            mul3(self.y.z, self.z.y, self.w.w),
            mul3(self.y.w, self.z.z, self.w.y),
        )
        &&& mul3_req(self.y.x, self.z.w, self.w.z)
        &&& mul3_req(self.y.z, self.z.x, self.w.w)
        &&& mul3_req(self.y.w, self.z.z, self.w.x)
        &&& mul3_req(self.y.x, self.z.z, self.w.w)
        &&& mul3_req(self.y.z, self.z.w, self.w.x)
        &&& mul3_req(self.y.w, self.z.x, self.w.z)
        &&& net6_req(
            mul3(self.y.x, self.z.w, self.w.z),
            mul3(self.y.z, self.z.x, self.w.w),
            mul3(self.y.w, self.z.z, self.w.x),
            mul3(self.y.x, self.z.z, self.w.w),
            mul3(self.y.z, self.z.w, self.w.x),
            mul3(self.y.w, self.z.x, self.w.z),
        )
        &&& mul3_req(self.y.x, self.z.y, self.w.w)
        &&& mul3_req(self.y.y, self.z.w, self.w.x)
        &&& mul3_req(self.y.w, self.z.x, self.w.y)
        &&& mul3_req(self.y.x, self.z.w, self.w.y)
        &&& mul3_req(self.y.y, self.z.x, self.w.w)
        &&& mul3_req(self.y.w, self.z.y, self.w.x)
        &&& net6_req(
            mul3(self.y.x, self.z.y, self.w.w),
            mul3(self.y.y, self.z.w, self.w.x),
            mul3(self.y.w, self.z.x, self.w.y),
            mul3(self.y.x, self.z.w, self.w.y),
            mul3(self.y.y, self.z.x, self.w.w),
            mul3(self.y.w, self.z.y, self.w.x),
        )
        &&& mul3_req(self.y.x, self.z.z, self.w.y)
        &&& mul3_req(self.y.y, self.z.x, self.w.z)
        &&& mul3_req(self.y.z, self.z.y, self.w.x)
        &&& mul3_req(self.y.x, self.z.y, self.w.z)
        &&& mul3_req(self.y.y, self.z.z, self.w.x)
        &&& mul3_req(self.y.z, self.z.x, self.w.y)
        &&& net6_req(
            mul3(self.y.x, self.z.z, self.w.y),
            mul3(self.y.y, self.z.x, self.w.z),
            mul3(self.y.z, self.z.y, self.w.x),
            mul3(self.y.x, self.z.y, self.w.z),
            mul3(self.y.y, self.z.z, self.w.x),
            mul3(self.y.z, self.z.x, self.w.y),
        )
        &&& mul3_req(self.x.y, self.z.w, self.w.z)
        &&& mul3_req(self.x.z, self.z.y, self.w.w)
        &&& mul3_req(self.x.w, self.z.z, self.w.y)
        &&& mul3_req(self.x.y, self.z.z, self.w.w)
        &&& mul3_req(self.x.z, self.z.w, self.w.y)
        &&& mul3_req(self.x.w, self.z.y, self.w.z)
        &&& net6_req(
            mul3(self.x.y, self.z.w, self.w.z),
            mul3(self.x.z, self.z.y, self.w.w),
            mul3(self.x.w, self.z.z, self.w.y),
            mul3(self.x.y, self.z.z, self.w.w),
            mul3(self.x.z, self.z.w, self.w.y),
            mul3(self.x.w, self.z.y, self.w.z),
        )
        &&& mul3_req(self.x.x, self.z.z, self.w.w)
        &&& mul3_req(self.x.z, self.z.w, self.w.x)
        &&& mul3_req(self.x.w, self.z.x, self.w.z)
        &&& mul3_req(self.x.x, self.z.w, self.w.z)
        &&& mul3_req(self.x.z, self.z.x, self.w.w)
        &&& mul3_req(self.x.w, self.z.z, self.w.x)
        &&& net6_req(
            mul3(self.x.x, self.z.z, self.w.w),
            mul3(self.x.z, self.z.w, self.w.x),
            mul3(self.x.w, self.z.x, self.w.z),
            mul3(self.x.x, self.z.w, self.w.z),
            mul3(self.x.z, self.z.x, self.w.w),
            mul3(self.x.w, self.z.z, self.w.x),
        )
        &&& mul3_req(self.x.x, self.z.w, self.w.y)
        &&& mul3_req(self.x.y, self.z.x, self.w.w)
        &&& mul3_req(self.x.w, self.z.y, self.w.x)
        &&& mul3_req(self.x.x, self.z.y, self.w.w)
        &&& mul3_req(self.x.y, self.z.w, self.w.x)
        &&& mul3_req(self.x.w, self.z.x, self.w.y)
        &&& net6_req(
            mul3(self.x.x, self.z.w, self.w.y),
            mul3(self.x.y, self.z.x, self.w.w),
            mul3(self.x.w, self.z.y, self.w.x),
            mul3(self.x.x, self.z.y, self.w.w),
            mul3(self.x.y, self.z.w, self.w.x),
            mul3(self.x.w, self.z.x, self.w.y),
        )
        &&& mul3_req(self.x.x, self.z.y, self.w.z)
        &&& mul3_req(self.x.y, self.z.z, self.w.x)
        &&& mul3_req(self.x.z, self.z.x, self.w.y)
        &&& mul3_req(self.x.x, self.z.z, self.w.y)
        &&& mul3_req(self.x.y, self.z.x, self.w.z)
        &&& mul3_req(self.x.z, self.z.y, self.w.x)
        &&& net6_req(
            mul3(self.x.x, self.z.y, self.w.z),
            mul3(self.x.y, self.z.z, self.w.x),
            mul3(self.x.z, self.z.x, self.w.y),
            mul3(self.x.x, self.z.z, self.w.y),
            mul3(self.x.y, self.z.x, self.w.z),
            mul3(self.x.z, self.z.y, self.w.x),
        )
        &&& mul3_req(self.x.y, self.y.z, self.w.w)
        &&& mul3_req(self.x.z, self.y.w, self.w.y)
        &&& mul3_req(self.x.w, self.y.y, self.w.z)
        &&& mul3_req(self.x.y, self.y.w, self.w.z)
        &&& mul3_req(self.x.z, self.y.y, self.w.w)
        &&& mul3_req(self.x.w, self.y.z, self.w.y)
        &&& net6_req(
            mul3(self.x.y, self.y.z, self.w.w),
            mul3(self.x.z, self.y.w, self.w.y),
            mul3(self.x.w, self.y.y, self.w.z),
            mul3(self.x.y, self.y.w, self.w.z),
            mul3(self.x.z, self.y.y, self.w.w),
            mul3(self.x.w, self.y.z, self.w.y),
        )
        &&& mul3_req(self.x.x, self.y.w, self.w.z)
        &&& mul3_req(self.x.z, self.y.x, self.w.w)
        &&& mul3_req(self.x.w, self.y.z, self.w.x)
        &&& mul3_req(self.x.x, self.y.z, self.w.w)
        &&& mul3_req(self.x.z, self.y.w, self.w.x)
        &&& mul3_req(self.x.w, self.y.x, self.w.z)
        &&& net6_req(
            mul3(self.x.x, self.y.w, self.w.z),
            mul3(self.x.z, self.y.x, self.w.w),
            mul3(self.x.w, self.y.z, self.w.x),
            mul3(self.x.x, self.y.z, self.w.w),
            mul3(self.x.z, self.y.w, self.w.x),
            mul3(self.x.w, self.y.x, self.w.z),
        )
        &&& mul3_req(self.x.x, self.y.y, self.w.w)
        &&& mul3_req(self.x.y, self.y.w, self.w.x)
        &&& mul3_req(self.x.w, self.y.x, self.w.y)
        &&& mul3_req(self.x.x, self.y.w, self.w.y)
        &&& mul3_req(self.x.y, self.y.x, self.w.w)
        &&& mul3_req(self.x.w, self.y.y, self.w.x)
        &&& net6_req(
            mul3(self.x.x, self.y.y, self.w.w),
            mul3(self.x.y, self.y.w, self.w.x),
            mul3(self.x.w, self.y.x, self.w.y),
            mul3(self.x.x, self.y.w, self.w.y),
            mul3(self.x.y, self.y.x, self.w.w),
            mul3(self.x.w, self.y.y, self.w.x),
        )
        &&& mul3_req(self.x.x, self.y.z, self.w.y)
        &&& mul3_req(self.x.y, self.y.x, self.w.z)
        &&& mul3_req(self.x.z, self.y.y, self.w.x)
        &&& mul3_req(self.x.x, self.y.y, self.w.z)
        &&& mul3_req(self.x.y, self.y.z, self.w.x)
        &&& mul3_req(self.x.z, self.y.x, self.w.y)
        &&& net6_req(
            mul3(self.x.x, self.y.z, self.w.y),
            mul3(self.x.y, self.y.x, self.w.z),
            mul3(self.x.z, self.y.y, self.w.x),
            mul3(self.x.x, self.y.y, self.w.z),
            mul3(self.x.y, self.y.z, self.w.x),
            mul3(self.x.z, self.y.x, self.w.y),
        )
        &&& mul3_req(self.x.y, self.y.w, self.z.z)
        &&& mul3_req(self.x.z, self.y.y, self.z.w)
        &&& mul3_req(self.x.w, self.y.z, self.z.y)
        &&& mul3_req(self.x.y, self.y.z, self.z.w)
        &&& mul3_req(self.x.z, self.y.w, self.z.y)
        &&& mul3_req(self.x.w, self.y.y, self.z.z)
        &&& net6_req(
            mul3(self.x.y, self.y.w, self.z.z),
            mul3(self.x.z, self.y.y, self.z.w),
            mul3(self.x.w, self.y.z, self.z.y),
            mul3(self.x.y, self.y.z, self.z.w),
            mul3(self.x.z, self.y.w, self.z.y),
            mul3(self.x.w, self.y.y, self.z.z),
        )
        &&& mul3_req(self.x.x, self.y.z, self.z.w)
        &&& mul3_req(self.x.z, self.y.w, self.z.x)
        &&& mul3_req(self.x.w, self.y.x, self.z.z)
        &&& mul3_req(self.x.x, self.y.w, self.z.z)
        &&& mul3_req(self.x.z, self.y.x, self.z.w)
        &&& mul3_req(self.x.w, self.y.z, self.z.x)
        &&& net6_req(
            mul3(self.x.x, self.y.z, self.z.w),
            mul3(self.x.z, self.y.w, self.z.x),
            mul3(self.x.w, self.y.x, self.z.z),
            mul3(self.x.x, self.y.w, self.z.z),
            mul3(self.x.z, self.y.x, self.z.w),
            mul3(self.x.w, self.y.z, self.z.x),
        )
        &&& mul3_req(self.x.x, self.y.w, self.z.y)
        &&& mul3_req(self.x.y, self.y.x, self.z.w)
        &&& mul3_req(self.x.w, self.y.y, self.z.x)
        &&& mul3_req(self.x.x, self.y.y, self.z.w)
        &&& mul3_req(self.x.y, self.y.w, self.z.x)
        &&& mul3_req(self.x.w, self.y.x, self.z.y)
        &&& net6_req(
            mul3(self.x.x, self.y.w, self.z.y),
            mul3(self.x.y, self.y.x, self.z.w),
            mul3(self.x.w, self.y.y, self.z.x),
            mul3(self.x.x, self.y.y, self.z.w),
            mul3(self.x.y, self.y.w, self.z.x),
            mul3(self.x.w, self.y.x, self.z.y),
        )
        &&& mul3_req(self.x.x, self.y.y, self.z.z)
        &&& mul3_req(self.x.y, self.y.z, self.z.x)
        &&& mul3_req(self.x.z, self.y.x, self.z.y)
        &&& mul3_req(self.x.x, self.y.z, self.z.y)
        &&& mul3_req(self.x.y, self.y.x, self.z.z)
        &&& mul3_req(self.x.z, self.y.y, self.z.x)
        &&& net6_req(
            mul3(self.x.x, self.y.y, self.z.z),
            mul3(self.x.y, self.y.z, self.z.x),
            mul3(self.x.z, self.y.x, self.z.y),
            mul3(self.x.x, self.y.z, self.z.y),
            mul3(self.x.y, self.y.x, self.z.z),
            mul3(self.x.z, self.y.y, self.z.x),
        )
    }

    /// The matrix of cofactors: at each place the determinant of the three rows
    /// and three columns that are left without the row and the column of the
    /// place, with its sign, expanded in six products.
    pub open spec fn cofactor_spec(self) -> Self where
        T: Copy + Mul<Output = T> + Add<Output = T> + Sub<Output = T> + Div<Output = T> + Neg<Output = T>,
     {
        Mat4 {
            x: Vec4 {
                x: net6(
                    mul3(self.y.y, self.z.z, self.w.w),
                    mul3(self.y.z, self.z.w, self.w.y),
                    mul3(self.y.w, self.z.y, self.w.z),
                    mul3(self.y.y, self.z.w, self.w.z),
                    mul3(self.y.z, self.z.y, self.w.w),
                    mul3(self.y.w, self.z.z, self.w.y),
                ),
                y: net6(
                    mul3(self.y.x, self.z.w, self.w.z),
                    mul3(self.y.z, self.z.x, self.w.w),
                    mul3(self.y.w, self.z.z, self.w.x),
                    mul3(self.y.x, self.z.z, self.w.w),
                    mul3(self.y.z, self.z.w, self.w.x),
                    mul3(self.y.w, self.z.x, self.w.z),
                ),
                z: net6(
                    mul3(self.y.x, self.z.y, self.w.w),
                    mul3(self.y.y, self.z.w, self.w.x),
                    mul3(self.y.w, self.z.x, self.w.y),
                    mul3(self.y.x, self.z.w, self.w.y),
                    mul3(self.y.y, self.z.x, self.w.w),
                    mul3(self.y.w, self.z.y, self.w.x),
                ),
                w: net6(
                    mul3(self.y.x, self.z.z, self.w.y),
                    mul3(self.y.y, self.z.x, self.w.z),
                    mul3(self.y.z, self.z.y, self.w.x),
                    mul3(self.y.x, self.z.y, self.w.z),
                    mul3(self.y.y, self.z.z, self.w.x),
                    mul3(self.y.z, self.z.x, self.w.y),
                ),
            },
            y: Vec4 {
                x: net6(
                    mul3(self.x.y, self.z.w, self.w.z),
                    mul3(self.x.z, self.z.y, self.w.w),
                    mul3(self.x.w, self.z.z, self.w.y),
                    mul3(self.x.y, self.z.z, self.w.w),
                    mul3(self.x.z, self.z.w, self.w.y),
                    mul3(self.x.w, self.z.y, self.w.z),
                ),
                y: net6(
                    mul3(self.x.x, self.z.z, self.w.w),
                    mul3(self.x.z, self.z.w, self.w.x),
                    mul3(self.x.w, self.z.x, self.w.z),
                    mul3(self.x.x, self.z.w, self.w.z),
                    mul3(self.x.z, self.z.x, self.w.w),
                    mul3(self.x.w, self.z.z, self.w.x),
                ),
                z: net6(
                    mul3(self.x.x, self.z.w, self.w.y),
                    mul3(self.x.y, self.z.x, self.w.w),
                    mul3(self.x.w, self.z.y, self.w.x),
                    mul3(self.x.x, self.z.y, self.w.w),
                    mul3(self.x.y, self.z.w, self.w.x),
                    mul3(self.x.w, self.z.x, self.w.y),
                ),
                w: net6(
                    mul3(self.x.x, self.z.y, self.w.z),
                    mul3(self.x.y, self.z.z, self.w.x),
                    mul3(self.x.z, self.z.x, self.w.y),
                    mul3(self.x.x, self.z.z, self.w.y),
                    mul3(self.x.y, self.z.x, self.w.z),
                    mul3(self.x.z, self.z.y, self.w.x),
                ),
            },
            z: Vec4 {
                x: net6(
                    mul3(self.x.y, self.y.z, self.w.w),
                    mul3(self.x.z, self.y.w, self.w.y),
                    mul3(self.x.w, self.y.y, self.w.z),
                    mul3(self.x.y, self.y.w, self.w.z),
                    mul3(self.x.z, self.y.y, self.w.w),
                    mul3(self.x.w, self.y.z, self.w.y),
                ),
                y: net6(
                    mul3(self.x.x, self.y.w, self.w.z),
                    mul3(self.x.z, self.y.x, self.w.w),
                    mul3(self.x.w, self.y.z, self.w.x),
                    mul3(self.x.x, self.y.z, self.w.w),
                    mul3(self.x.z, self.y.w, self.w.x),
                    mul3(self.x.w, self.y.x, self.w.z),
                ),
                z: net6(
                    mul3(self.x.x, self.y.y, self.w.w),
                    mul3(self.x.y, self.y.w, self.w.x),
                    mul3(self.x.w, self.y.x, self.w.y),
                    mul3(self.x.x, self.y.w, self.w.y),
                    mul3(self.x.y, self.y.x, self.w.w),
                    mul3(self.x.w, self.y.y, self.w.x),
                ),
                w: net6(
                    mul3(self.x.x, self.y.z, self.w.y),
                    mul3(self.x.y, self.y.x, self.w.z),
                    mul3(self.x.z, self.y.y, self.w.x),
                    mul3(self.x.x, self.y.y, self.w.z),
                    mul3(self.x.y, self.y.z, self.w.x),
                    mul3(self.x.z, self.y.x, self.w.y),
                ),
            },
            w: Vec4 {
                x: net6(
                    mul3(self.x.y, self.y.w, self.z.z),
                    mul3(self.x.z, self.y.y, self.z.w),
                    mul3(self.x.w, self.y.z, self.z.y),
                    mul3(self.x.y, self.y.z, self.z.w),
                    mul3(self.x.z, self.y.w, self.z.y),
                    mul3(self.x.w, self.y.y, self.z.z),
                ),
                y: net6(
                    mul3(self.x.x, self.y.z, self.z.w),
                    mul3(self.x.z, self.y.w, self.z.x),
                    mul3(self.x.w, self.y.x, self.z.z),
                    mul3(self.x.x, self.y.w, self.z.z),
                    mul3(self.x.z, self.y.x, self.z.w),
                    mul3(self.x.w, self.y.z, self.z.x),
                ),
                z: net6(
                    mul3(self.x.x, self.y.w, self.z.y),
                    mul3(self.x.y, self.y.x, self.z.w),
                    mul3(self.x.w, self.y.y, self.z.x),
                    mul3(self.x.x, self.y.y, self.z.w),
                    mul3(self.x.y, self.y.w, self.z.x),
                    mul3(self.x.w, self.y.x, self.z.y),
                ),
                w: net6(
                    mul3(self.x.x, self.y.y, self.z.z),
                    mul3(self.x.y, self.y.z, self.z.x),
                    mul3(self.x.z, self.y.x, self.z.y),
                    mul3(self.x.x, self.y.z, self.z.y),
                    mul3(self.x.y, self.y.x, self.z.z),
                    mul3(self.x.z, self.y.y, self.z.x),
                ),
            },
        }
    }

    /// The adjugate: the transposed matrix of cofactors.
    pub open spec fn adjoint_spec(self) -> Self where
        T: Copy + Mul<Output = T> + Add<Output = T> + Sub<Output = T> + Div<Output = T> + Neg<Output = T>,
     {
        self.cofactor_spec().transpose_spec()
    }

    /// Whether every operation of the inverse is defined. For an integer this
    /// leaves out a determinant of zero.
    pub open spec fn inv_req(self) -> bool where
        T: Copy + Mul<Output = T> + Add<Output = T> + Sub<Output = T> + Div<Output = T> + Neg<Output = T>,
     {
        &&& self.cofactor_req()
        &&& self.det_req()
        &&& T::obeys_div_spec()
        &&& self.adjoint_spec().x.div_req(self.det_spec())
        &&& self.adjoint_spec().y.div_req(self.det_spec())
        &&& self.adjoint_spec().z.div_req(self.det_spec())
        &&& self.adjoint_spec().w.div_req(self.det_spec())
    }

    /// The adjugate, each entry divided by the determinant.
    pub open spec fn inv_spec(self) -> Self where
        T: Copy + Mul<Output = T> + Add<Output = T> + Sub<Output = T> + Div<Output = T> + Neg<Output = T>,
     {
        Mat4 {
            x: self.adjoint_spec().x.div_spec(self.det_spec()),
            y: self.adjoint_spec().y.div_spec(self.det_spec()),
            z: self.adjoint_spec().z.div_spec(self.det_spec()),
            w: self.adjoint_spec().w.div_spec(self.det_spec()),
        }
    }

    /// Whether every operation of `try_inv` is defined: those of the determinant
    /// and of the adjugate, and the divisions where the determinant is not zero.
    pub open spec fn try_inv_req(self) -> bool where
        T: Copy + Zero + PartialEq + Mul<Output = T> + Add<Output = T> + Sub<Output = T> + Neg<Output = T> + Div<
            Output = T,
        >,
     {
        &&& self.cofactor_req()
        &&& self.det_req()
        &&& T::obeys_div_spec()
        &&& T::obeys_eq_spec()
        &&& !self.det_spec().eq_spec(&T::zero_spec()) ==> {
            &&& self.adjoint_spec().x.div_req(self.det_spec())
            &&& self.adjoint_spec().y.div_req(self.det_spec())
            &&& self.adjoint_spec().z.div_req(self.det_spec())
            &&& self.adjoint_spec().w.div_req(self.det_spec())
        }
    }

    /// The inverse, or nothing where the determinant is zero.
    pub open spec fn try_inv_spec(self) -> Option<Self> where
        T: Copy + Zero + PartialEq + Mul<Output = T> + Add<Output = T> + Sub<Output = T> + Neg<Output = T> + Div<
            Output = T,
        >,
     {
        if self.det_spec().eq_spec(&T::zero_spec()) {
            None
        } else {
            Some(self.inv_spec())
        }
    }

    /// Whether every operation of the product with a vector is defined.
    pub open spec fn apply_to_req(self, v: Vec4<T>) -> bool where Vec4<T>: Dot<T> + Copy {
        &&& self.x.dot_req(&v)
        &&& self.y.dot_req(&v)
        &&& self.z.dot_req(&v)
        &&& self.w.dot_req(&v)
    }

    /// The product with a vector: the dot product of each row with it.
    pub open spec fn apply_to_spec(self, v: Vec4<T>) -> Vec4<T> where Vec4<T>: Dot<T> + Copy {
        Vec4 {
            x: self.x.dot_spec(&v),
            y: self.y.dot_spec(&v),
            z: self.z.dot_spec(&v),
            w: self.w.dot_spec(&v),
        }
    }

    /// Whether every operation of the product of two matrices is defined.
    pub open spec fn product_req(self, other: Self) -> bool where Vec4<T>: Dot<T> + Copy {
        &&& self.apply_to_req(other.transpose_spec().x)
        &&& self.apply_to_req(other.transpose_spec().y)
        &&& self.apply_to_req(other.transpose_spec().z)
        &&& self.apply_to_req(other.transpose_spec().w)
    }

    /// The product of two matrices: the entry in row `i` and column `j` is the
    /// dot product of row `i` of `self` with column `j` of `other`.
    pub open spec fn product_spec(self, other: Self) -> Self where Vec4<T>: Dot<T> + Copy {
        Mat4 {
            x: Vec4 {
                x: self.x.dot_spec(&other.transpose_spec().x),
                y: self.x.dot_spec(&other.transpose_spec().y),
                z: self.x.dot_spec(&other.transpose_spec().z),
                w: self.x.dot_spec(&other.transpose_spec().w),
            },
            y: Vec4 {
                x: self.y.dot_spec(&other.transpose_spec().x),
                y: self.y.dot_spec(&other.transpose_spec().y),
                z: self.y.dot_spec(&other.transpose_spec().z),
                w: self.y.dot_spec(&other.transpose_spec().w),
            },
            z: Vec4 {
                x: self.z.dot_spec(&other.transpose_spec().x),
                y: self.z.dot_spec(&other.transpose_spec().y),
                z: self.z.dot_spec(&other.transpose_spec().z),
                w: self.z.dot_spec(&other.transpose_spec().w),
            },
            w: Vec4 {
                x: self.w.dot_spec(&other.transpose_spec().x),
                y: self.w.dot_spec(&other.transpose_spec().y),
                z: self.w.dot_spec(&other.transpose_spec().z),
                w: self.w.dot_spec(&other.transpose_spec().w),
            },
        }
    }
}

impl<T> Mat4<T> {
    pub fn det(self) -> (r: T) where T: Copy + Mul<Output = T> + Add<Output = T> + Sub<Output = T>
        requires
            self.det_req(),
        ensures
            r == self.det_spec(),
    {
        self.x.x * self.y.y * self.z.z * self.w.w
            + self.x.x * self.y.z * self.z.w * self.w.y
            + self.x.x * self.y.w * self.z.y * self.w.z
            + self.x.y * self.y.x * self.z.w * self.w.z
            + self.x.y * self.y.z * self.z.x * self.w.w
            + self.x.y * self.y.w * self.z.z * self.w.x
            + self.x.z * self.y.x * self.z.y * self.w.w
            + self.x.z * self.y.y * self.z.w * self.w.x
            + self.x.z * self.y.w * self.z.x * self.w.y
            + self.x.w * self.y.x * self.z.z * self.w.y
            + self.x.w * self.y.y * self.z.x * self.w.z
            + self.x.w * self.y.z * self.z.y * self.w.x
            - self.x.x * self.y.y * self.z.w * self.w.z
            - self.x.x * self.y.z * self.z.y * self.w.w
            - self.x.x * self.y.w * self.z.z * self.w.y
            - self.x.y * self.y.x * self.z.z * self.w.w
            - self.x.y * self.y.z * self.z.w * self.w.x
            - self.x.y * self.y.w * self.z.x * self.w.z
            - self.x.z * self.y.x * self.z.w * self.w.y
            - self.x.z * self.y.y * self.z.x * self.w.w
            - self.x.z * self.y.w * self.z.y * self.w.x
            - self.x.w * self.y.x * self.z.y * self.w.z
            - self.x.w * self.y.y * self.z.z * self.w.x
            - self.x.w * self.y.z * self.z.x * self.w.y
    }

    /// The matrix of cofactors, each expanded in six products.
    pub fn cofactor(self) -> (r: Self) where
        T: Copy + Mul<Output = T> + Add<Output = T> + Sub<Output = T> + Div<Output = T> + Neg<Output = T>,

        requires
            self.cofactor_req(),
        ensures
            r == self.cofactor_spec(),
    {
        mat4(
            vec4(
                self.y.y * self.z.z * self.w.w + self.y.z * self.z.w * self.w.y + self.y.w * self.z.y * self.w.z
                    - self.y.y * self.z.w * self.w.z - self.y.z * self.z.y * self.w.w - self.y.w * self.z.z * self.w.y,
                self.y.x * self.z.w * self.w.z + self.y.z * self.z.x * self.w.w + self.y.w * self.z.z * self.w.x
                    - self.y.x * self.z.z * self.w.w - self.y.z * self.z.w * self.w.x - self.y.w * self.z.x * self.w.z,
                self.y.x * self.z.y * self.w.w + self.y.y * self.z.w * self.w.x + self.y.w * self.z.x * self.w.y
                    - self.y.x * self.z.w * self.w.y - self.y.y * self.z.x * self.w.w - self.y.w * self.z.y * self.w.x,
                self.y.x * self.z.z * self.w.y + self.y.y * self.z.x * self.w.z + self.y.z * self.z.y * self.w.x
                    - self.y.x * self.z.y * self.w.z - self.y.y * self.z.z * self.w.x - self.y.z * self.z.x * self.w.y,
            ),
            vec4(
                self.x.y * self.z.w * self.w.z + self.x.z * self.z.y * self.w.w + self.x.w * self.z.z * self.w.y
                    - self.x.y * self.z.z * self.w.w - self.x.z * self.z.w * self.w.y - self.x.w * self.z.y * self.w.z,
                self.x.x * self.z.z * self.w.w + self.x.z * self.z.w * self.w.x + self.x.w * self.z.x * self.w.z
                    - self.x.x * self.z.w * self.w.z - self.x.z * self.z.x * self.w.w - self.x.w * self.z.z * self.w.x,
                self.x.x * self.z.w * self.w.y + self.x.y * self.z.x * self.w.w + self.x.w * self.z.y * self.w.x
                    - self.x.x * self.z.y * self.w.w - self.x.y * self.z.w * self.w.x - self.x.w * self.z.x * self.w.y,
                self.x.x * self.z.y * self.w.z + self.x.y * self.z.z * self.w.x + self.x.z * self.z.x * self.w.y
                    - self.x.x * self.z.z * self.w.y - self.x.y * self.z.x * self.w.z - self.x.z * self.z.y * self.w.x,
            ),
            vec4(
                self.x.y * self.y.z * self.w.w + self.x.z * self.y.w * self.w.y + self.x.w * self.y.y * self.w.z
                    - self.x.y * self.y.w * self.w.z - self.x.z * self.y.y * self.w.w - self.x.w * self.y.z * self.w.y,
                self.x.x * self.y.w * self.w.z + self.x.z * self.y.x * self.w.w + self.x.w * self.y.z * self.w.x
                    - self.x.x * self.y.z * self.w.w - self.x.z * self.y.w * self.w.x - self.x.w * self.y.x * self.w.z,
                self.x.x * self.y.y * self.w.w + self.x.y * self.y.w * self.w.x + self.x.w * self.y.x * self.w.y
                    - self.x.x * self.y.w * self.w.y - self.x.y * self.y.x * self.w.w - self.x.w * self.y.y * self.w.x,
                self.x.x * self.y.z * self.w.y + self.x.y * self.y.x * self.w.z + self.x.z * self.y.y * self.w.x
                    - self.x.x * self.y.y * self.w.z - self.x.y * self.y.z * self.w.x - self.x.z * self.y.x * self.w.y,
            ),
            vec4(
                self.x.y * self.y.w * self.z.z + self.x.z * self.y.y * self.z.w + self.x.w * self.y.z * self.z.y
                    - self.x.y * self.y.z * self.z.w - self.x.z * self.y.w * self.z.y - self.x.w * self.y.y * self.z.z,
                self.x.x * self.y.z * self.z.w + self.x.z * self.y.w * self.z.x + self.x.w * self.y.x * self.z.z
                    - self.x.x * self.y.w * self.z.z - self.x.z * self.y.x * self.z.w - self.x.w * self.y.z * self.z.x,
                self.x.x * self.y.w * self.z.y + self.x.y * self.y.x * self.z.w + self.x.w * self.y.y * self.z.x
                    - self.x.x * self.y.y * self.z.w - self.x.y * self.y.w * self.z.x - self.x.w * self.y.x * self.z.y,
                self.x.x * self.y.y * self.z.z + self.x.y * self.y.z * self.z.x + self.x.z * self.y.x * self.z.y
                    - self.x.x * self.y.z * self.z.y - self.x.y * self.y.x * self.z.z - self.x.z * self.y.y * self.z.x,
            ),
        )
    }

    pub fn adjoint(self) -> (r: Self) where
        T: Copy + Mul<Output = T> + Add<Output = T> + Sub<Output = T> + Div<Output = T> + Neg<Output = T>,

        requires
            self.cofactor_req(),
        ensures
            r == self.adjoint_spec(),
    {
        self.cofactor().transpose()
    }

    /// The inverse: the adjugate divided by the determinant. Nothing guards a
    /// determinant of zero: `inv_req` holds only where the scalar's division by
    /// it is defined.
    pub fn inv(self) -> (r: Self) where
        T: Copy + Mul<Output = T> + Add<Output = T> + Sub<Output = T> + Div<Output = T> + Neg<Output = T>,

        requires
            self.inv_req(),
        ensures
            r == self.inv_spec(),
    {
        let d = self.det();
        mat4(
            vec4(
                self.y.y * self.z.z * self.w.w + self.y.z * self.z.w * self.w.y + self.y.w * self.z.y * self.w.z
                    - self.y.y * self.z.w * self.w.z - self.y.z * self.z.y * self.w.w - self.y.w * self.z.z * self.w.y,
                self.x.y * self.z.w * self.w.z + self.x.z * self.z.y * self.w.w + self.x.w * self.z.z * self.w.y
                    - self.x.y * self.z.z * self.w.w - self.x.z * self.z.w * self.w.y - self.x.w * self.z.y * self.w.z,
                self.x.y * self.y.z * self.w.w + self.x.z * self.y.w * self.w.y + self.x.w * self.y.y * self.w.z
                    - self.x.y * self.y.w * self.w.z - self.x.z * self.y.y * self.w.w - self.x.w * self.y.z * self.w.y,
                self.x.y * self.y.w * self.z.z + self.x.z * self.y.y * self.z.w + self.x.w * self.y.z * self.z.y
                    - self.x.y * self.y.z * self.z.w - self.x.z * self.y.w * self.z.y - self.x.w * self.y.y * self.z.z,
            ) / d,
            vec4(
                self.y.x * self.z.w * self.w.z + self.y.z * self.z.x * self.w.w + self.y.w * self.z.z * self.w.x
                    - self.y.x * self.z.z * self.w.w - self.y.z * self.z.w * self.w.x - self.y.w * self.z.x * self.w.z,
                self.x.x * self.z.z * self.w.w + self.x.z * self.z.w * self.w.x + self.x.w * self.z.x * self.w.z
                    - self.x.x * self.z.w * self.w.z - self.x.z * self.z.x * self.w.w - self.x.w * self.z.z * self.w.x,
                self.x.x * self.y.w * self.w.z + self.x.z * self.y.x * self.w.w + self.x.w * self.y.z * self.w.x
                    - self.x.x * self.y.z * self.w.w - self.x.z * self.y.w * self.w.x - self.x.w * self.y.x * self.w.z,
                self.x.x * self.y.z * self.z.w + self.x.z * self.y.w * self.z.x + self.x.w * self.y.x * self.z.z
                    - self.x.x * self.y.w * self.z.z - self.x.z * self.y.x * self.z.w - self.x.w * self.y.z * self.z.x,
            ) / d,
            vec4(
                self.y.x * self.z.y * self.w.w + self.y.y * self.z.w * self.w.x + self.y.w * self.z.x * self.w.y
                    - self.y.x * self.z.w * self.w.y - self.y.y * self.z.x * self.w.w - self.y.w * self.z.y * self.w.x,
                self.x.x * self.z.w * self.w.y + self.x.y * self.z.x * self.w.w + self.x.w * self.z.y * self.w.x
                    - self.x.x * self.z.y * self.w.w - self.x.y * self.z.w * self.w.x - self.x.w * self.z.x * self.w.y,
                self.x.x * self.y.y * self.w.w + self.x.y * self.y.w * self.w.x + self.x.w * self.y.x * self.w.y
                    - self.x.x * self.y.w * self.w.y - self.x.y * self.y.x * self.w.w - self.x.w * self.y.y * self.w.x,
                self.x.x * self.y.w * self.z.y + self.x.y * self.y.x * self.z.w + self.x.w * self.y.y * self.z.x
                    - self.x.x * self.y.y * self.z.w - self.x.y * self.y.w * self.z.x - self.x.w * self.y.x * self.z.y,
            ) / d,
            vec4(
                self.y.x * self.z.z * self.w.y + self.y.y * self.z.x * self.w.z + self.y.z * self.z.y * self.w.x
                    - self.y.x * self.z.y * self.w.z - self.y.y * self.z.z * self.w.x - self.y.z * self.z.x * self.w.y,
                self.x.x * self.z.y * self.w.z + self.x.y * self.z.z * self.w.x + self.x.z * self.z.x * self.w.y
                    - self.x.x * self.z.z * self.w.y - self.x.y * self.z.x * self.w.z - self.x.z * self.z.y * self.w.x,
                self.x.x * self.y.z * self.w.y + self.x.y * self.y.x * self.w.z + self.x.z * self.y.y * self.w.x
                    - self.x.x * self.y.y * self.w.z - self.x.y * self.y.z * self.w.x - self.x.z * self.y.x * self.w.y,
                self.x.x * self.y.y * self.z.z + self.x.y * self.y.z * self.z.x + self.x.z * self.y.x * self.z.y
                    - self.x.x * self.y.z * self.z.y - self.x.y * self.y.x * self.z.z - self.x.z * self.y.y * self.z.x,
            ) / d,
        )
    }

    /// The inverse, or `None` for a matrix whose determinant is zero, which has
    /// none.
    pub fn try_inv(self) -> (r: Option<Self>) where
        T: Copy + Zero + PartialEq + Mul<Output = T> + Add<Output = T> + Sub<Output = T> + Div<Output = T> + Neg<
            Output = T,
        >,

        requires
            self.try_inv_req(),
        ensures
            r == self.try_inv_spec(),
    {
        if self.det() == T::zero() {
            None
        } else {
            Some(self.inv())
        }
    }

    /// The identity matrix.
    pub fn ident() -> (r: Self) where T: Zero + One
        ensures
            r == Self::ident_spec(),
    {
        mat4(
            vec4(T::one(), T::zero(), T::zero(), T::zero()),
            vec4(T::zero(), T::one(), T::zero(), T::zero()),
            vec4(T::zero(), T::zero(), T::one(), T::zero()),
            vec4(T::zero(), T::zero(), T::zero(), T::one()),
        )
    }

    pub fn apply_to(self, v: Vec4<T>) -> (r: Vec4<T>) where Vec4<T>: Dot<T> + Copy
        requires
            self.apply_to_req(v),
        ensures
            r == self.apply_to_spec(v),
    {
        vec4(self.x.dot(&v), self.y.dot(&v), self.z.dot(&v), self.w.dot(&v))
    }

    pub fn transpose(self) -> (r: Self)
        ensures
            r == self.transpose_spec(),
    {
        mat4(
            vec4(self.x.x, self.y.x, self.z.x, self.w.x),
            vec4(self.x.y, self.y.y, self.z.y, self.w.y),
            vec4(self.x.z, self.y.z, self.z.z, self.w.z),
            vec4(self.x.w, self.y.w, self.z.w, self.w.w),
        )
    }

    /// The rows in order, each as an array.
    pub fn into_array(self) -> (r: [[T; 4]; 4])
        ensures
            r[0][0] == self.x.x,
            r[0][1] == self.x.y,
            r[0][2] == self.x.z,
            r[0][3] == self.x.w,
            r[1][0] == self.y.x,
            r[1][1] == self.y.y,
            r[1][2] == self.y.z,
            r[1][3] == self.y.w,
            r[2][0] == self.z.x,
            r[2][1] == self.z.y,
            r[2][2] == self.z.z,
            r[2][3] == self.z.w,
            r[3][0] == self.w.x,
            r[3][1] == self.w.y,
            r[3][2] == self.w.z,
            r[3][3] == self.w.w,
    {
        [self.x.into_array(), self.y.into_array(), self.z.into_array(), self.w.into_array()]
    }

    /// The rows in order, each as a tuple.
    pub fn into_tuple(self) -> (r: ((T, T, T, T), (T, T, T, T), (T, T, T, T), (T, T, T, T)))
        ensures
            r == (
                (self.x.x, self.x.y, self.x.z, self.x.w),
                (self.y.x, self.y.y, self.y.z, self.y.w),
                (self.z.x, self.z.y, self.z.z, self.z.w),
                (self.w.x, self.w.y, self.w.z, self.w.w),
            ),
    {
        (self.x.into_tuple(), self.y.into_tuple(), self.z.into_tuple(), self.w.into_tuple())
    }
}

/// The default matrix is the identity, not the zero matrix.
impl<T: Zero + One> Default for Mat4<T> {
    fn default() -> (r: Self)
        ensures
            r == Self::ident_spec(),
    {
        Mat4::ident()
    }
}

impl<T> Mul<Mat4<T>> for Mat4<T> where Vec4<T>: Dot<T> + Copy {
    type Output = Self;

    fn mul(self, other: Self) -> (r: Self) {
        let s = self;
        let t = other.transpose();
        mat4(
            vec4(s.x.dot(&t.x), s.x.dot(&t.y), s.x.dot(&t.z), s.x.dot(&t.w)),
            vec4(s.y.dot(&t.x), s.y.dot(&t.y), s.y.dot(&t.z), s.y.dot(&t.w)),
            vec4(s.z.dot(&t.x), s.z.dot(&t.y), s.z.dot(&t.z), s.z.dot(&t.w)),
            vec4(s.w.dot(&t.x), s.w.dot(&t.y), s.w.dot(&t.z), s.w.dot(&t.w)),
        )
    }
}

/// The product of two matrices, rows of the left by columns of the right.
impl<T> vstd::std_specs::ops::MulSpecImpl<Mat4<T>> for Mat4<T> where Vec4<T>: Dot<T> + Copy {
    open spec fn obeys_mul_spec() -> bool {
        true
    }

    open spec fn mul_req(self, other: Self) -> bool {
        self.product_req(other)
    }

    open spec fn mul_spec(self, other: Self) -> Self {
        self.product_spec(other)
    }
}

impl<T> Mul<Vec4<T>> for Mat4<T> where Vec4<T>: Dot<T> + Copy {
    type Output = Vec4<T>;

    fn mul(self, v: Vec4<T>) -> (r: Vec4<T>) {
        self.apply_to(v)
    }
}

/// The product with a vector, as `apply_to` gives it.
impl<T> vstd::std_specs::ops::MulSpecImpl<Vec4<T>> for Mat4<T> where Vec4<T>: Dot<T> + Copy {
    open spec fn obeys_mul_spec() -> bool {
        true
    }

    open spec fn mul_req(self, v: Vec4<T>) -> bool {
        self.apply_to_req(v)
    }

    open spec fn mul_spec(self, v: Vec4<T>) -> Vec4<T> {
        self.apply_to_spec(v)
    }
}

} // verus!
