//! Square matrices of three rows.

use vstd::prelude::*;
use vstd::std_specs::cmp::PartialEqSpec;
use vstd::std_specs::ops::AddSpec;
use vstd::std_specs::ops::DivSpec;
use vstd::std_specs::ops::MulSpec;
use vstd::std_specs::ops::NegSpec;
use vstd::std_specs::ops::SubSpec;
use std::ops::Add;
use std::ops::AddAssign;
use std::ops::Div;
use std::ops::Mul;
use std::ops::Neg;
use std::ops::Sub;
use std::ops::SubAssign;
use crate::mat2::mat2;
use crate::mat4::mat4;
use crate::mat4::Mat4;
use crate::terms::cross2;
use crate::terms::cross2_req;
use crate::terms::mul3;
use crate::terms::mul3_req;
use crate::terms::net6;
use crate::terms::net6_req;
use crate::terms::obeys_ring;
use crate::traits::Abs;
use crate::traits::One;
use crate::traits::Trig;
use crate::traits::Zero;
use crate::vec2::vec2;
use crate::vec3::vec3;
use crate::vec3::Vec3;
use crate::vec4::Vec4;
use crate::vector::dot;
use crate::vector::dot_req;
use crate::vector::dot_spec;

verus! {

/// A matrix of three rows, `x`, `y` and `z` from the top, each a vector of three
/// components.
#[derive(Debug, Copy, Clone, Eq, Hash)]
pub struct Mat3<T> {
    pub x: Vec3<T>,
    pub y: Vec3<T>,
    pub z: Vec3<T>,
}

impl<T: PartialEq> PartialEq for Mat3<T> {
    fn eq(&self, other: &Self) -> (r: bool) {
        self.x == other.x && self.y == other.y && self.z == other.z
    }
}

/// Two matrices are equal where each pair of entries is.
impl<T: PartialEq> vstd::std_specs::cmp::PartialEqSpecImpl for Mat3<T> {
    open spec fn obeys_eq_spec() -> bool {
        T::obeys_eq_spec()
    }

    open spec fn eq_spec(&self, other: &Self) -> bool {
        &&& PartialEqSpec::eq_spec(&self.x, &other.x)
        &&& PartialEqSpec::eq_spec(&self.y, &other.y)
        &&& PartialEqSpec::eq_spec(&self.z, &other.z)
    }
}

/// The matrix of the given rows.
pub fn mat3<T>(x: Vec3<T>, y: Vec3<T>, z: Vec3<T>) -> (r: Mat3<T>)
    ensures
        r == (Mat3 { x, y, z }),
{
    Mat3 { x, y, z }
}

impl<
    T: Copy + Zero + One + Mul<Output = T> + Add<Output = T> + Div<Output = T> + Sub<Output = T> + Neg<
        Output = T,
    >,
> Add for Mat3<T> {
    type Output = Self;

    fn add(self, other: Self) -> (r: Self) {
        mat3(self.x + other.x, self.y + other.y, self.z + other.z)
    }
}

/// The sum of each pair of entries.
impl<
    T: Copy + Zero + One + Mul<Output = T> + Add<Output = T> + Div<Output = T> + Sub<Output = T> + Neg<
        Output = T,
    >,
> vstd::std_specs::ops::AddSpecImpl for Mat3<T> {
    open spec fn obeys_add_spec() -> bool {
        T::obeys_add_spec()
    }

    open spec fn add_req(self, other: Self) -> bool {
        &&& AddSpec::add_req(self.x, other.x)
        &&& AddSpec::add_req(self.y, other.y)
        &&& AddSpec::add_req(self.z, other.z)
    }

    open spec fn add_spec(self, other: Self) -> Self {
        Mat3 {
            x: AddSpec::add_spec(self.x, other.x),
            y: AddSpec::add_spec(self.y, other.y),
            z: AddSpec::add_spec(self.z, other.z),
        }
    }
}

impl<
    T: Copy + Zero + One + Mul<Output = T> + Add<Output = T> + Div<Output = T> + Sub<Output = T> + Neg<
        Output = T,
    >,
> AddAssign for Mat3<T> {
    fn add_assign(&mut self, other: Self)
        requires
            old(self).add_req(other),
        ensures
            T::obeys_add_spec() ==> *final(self) == old(self).add_spec(other),
    {
        *self = *self + other;
    }
}

impl<
    T: Copy + Zero + One + Mul<Output = T> + Add<Output = T> + Div<Output = T> + Sub<Output = T> + Neg<
        Output = T,
    >,
> Sub for Mat3<T> {
    type Output = Self;

    fn sub(self, other: Self) -> (r: Self) {
        mat3(self.x - other.x, self.y - other.y, self.z - other.z)
    }
}

/// The difference of each pair of entries.
impl<
    T: Copy + Zero + One + Mul<Output = T> + Add<Output = T> + Div<Output = T> + Sub<Output = T> + Neg<
        Output = T,
    >,
> vstd::std_specs::ops::SubSpecImpl for Mat3<T> {
    open spec fn obeys_sub_spec() -> bool {
        T::obeys_sub_spec()
    }

    open spec fn sub_req(self, other: Self) -> bool {
        &&& SubSpec::sub_req(self.x, other.x)
        &&& SubSpec::sub_req(self.y, other.y)
        &&& SubSpec::sub_req(self.z, other.z)
    }

    open spec fn sub_spec(self, other: Self) -> Self {
        Mat3 {
            x: SubSpec::sub_spec(self.x, other.x),
            y: SubSpec::sub_spec(self.y, other.y),
            z: SubSpec::sub_spec(self.z, other.z),
        }
    }
}

impl<
    T: Copy + Zero + One + Mul<Output = T> + Add<Output = T> + Div<Output = T> + Sub<Output = T> + Neg<
        Output = T,
    >,
> SubAssign for Mat3<T> {
    fn sub_assign(&mut self, other: Self)
        requires
            old(self).sub_req(other),
        ensures
            T::obeys_sub_spec() ==> *final(self) == old(self).sub_spec(other),
    {
        *self = *self - other;
    }
}

impl<
    T: Copy + Zero + One + Mul<Output = T> + Add<Output = T> + Div<Output = T> + Sub<Output = T> + Neg<
        Output = T,
    >,
> Neg for Mat3<T> {
    type Output = Self;

    fn neg(self) -> (r: Self) {
        mat3(self.x.neg(), self.y.neg(), self.z.neg())
    }
}

/// The negation of each entry.
impl<
    T: Copy + Zero + One + Mul<Output = T> + Add<Output = T> + Div<Output = T> + Sub<Output = T> + Neg<
        Output = T,
    >,
> vstd::std_specs::ops::NegSpecImpl for Mat3<T> {
    open spec fn obeys_neg_spec() -> bool {
        T::obeys_neg_spec()
    }

    open spec fn neg_req(self) -> bool {
        &&& NegSpec::neg_req(self.x)
        &&& NegSpec::neg_req(self.y)
        &&& NegSpec::neg_req(self.z)
    }

    open spec fn neg_spec(self) -> Self {
        Mat3 {
            x: NegSpec::neg_spec(self.x),
            y: NegSpec::neg_spec(self.y),
            z: NegSpec::neg_spec(self.z),
        }
    }
}

impl<T: Copy> Mat3<T> {
    /// Rows for columns.
    pub open spec fn transpose_spec(self) -> Self {
        Mat3 {
            x: Vec3 { x: self.x.x, y: self.y.x, z: self.z.x },
            y: Vec3 { x: self.x.y, y: self.y.y, z: self.z.y },
            z: Vec3 { x: self.x.z, y: self.y.z, z: self.z.z },
        }
    }

    /// Ones on the diagonal, zeros elsewhere.
    pub open spec fn ident_spec() -> Self where T: Zero + One {
        Mat3 {
            x: Vec3 { x: T::one_spec(), y: T::zero_spec(), z: T::zero_spec() },
            y: Vec3 { x: T::zero_spec(), y: T::one_spec(), z: T::zero_spec() },
            z: Vec3 { x: T::zero_spec(), y: T::zero_spec(), z: T::one_spec() },
        }
    }

    /// Whether every operation of the determinant is defined.
    pub open spec fn det_req(self) -> bool where T: Mul<Output = T> + Add<Output = T> + Sub<Output = T> {
        &&& obeys_ring::<T>()
        &&& mul3_req(self.x.x, self.y.y, self.z.z)
        &&& mul3_req(self.x.y, self.y.z, self.z.x)
        &&& mul3_req(self.x.z, self.y.x, self.z.y)
        &&& mul3_req(self.x.x, self.y.z, self.z.y)
        &&& mul3_req(self.x.y, self.y.x, self.z.z)
        &&& mul3_req(self.x.z, self.y.y, self.z.x)
        &&& net6_req(
            mul3(self.x.x, self.y.y, self.z.z),
            mul3(self.x.y, self.y.z, self.z.x),
            mul3(self.x.z, self.y.x, self.z.y),
            mul3(self.x.x, self.y.z, self.z.y),
            mul3(self.x.y, self.y.x, self.z.z),
            mul3(self.x.z, self.y.y, self.z.x),
        )
    }

    /// The determinant, expanded in six products: three added, three removed.
    pub open spec fn det_spec(self) -> T where T: Mul<Output = T> + Add<Output = T> + Sub<Output = T> {
        net6(
            mul3(self.x.x, self.y.y, self.z.z),
            mul3(self.x.y, self.y.z, self.z.x),
            mul3(self.x.z, self.y.x, self.z.y),
            mul3(self.x.x, self.y.z, self.z.y),
            mul3(self.x.y, self.y.x, self.z.z),
            mul3(self.x.z, self.y.y, self.z.x),
        )
    }

    /// Whether every operation of the matrix of cofactors is defined.
    pub open spec fn cofactor_req(self) -> bool where
        T: Mul<Output = T> + Sub<Output = T> + Neg<Output = T>,
     {
        &&& T::obeys_mul_spec()
        &&& T::obeys_sub_spec()
        &&& T::obeys_neg_spec()
        &&& cross2_req(self.y.y, self.z.z, self.y.z, self.z.y)
        &&& cross2_req(self.y.x, self.z.z, self.y.z, self.z.x)
        &&& cross2(self.y.x, self.z.z, self.y.z, self.z.x).neg_req()
        &&& cross2_req(self.y.x, self.z.y, self.y.y, self.z.x)
        &&& cross2_req(self.x.y, self.z.z, self.x.z, self.z.y)
        &&& cross2(self.x.y, self.z.z, self.x.z, self.z.y).neg_req()
        &&& cross2_req(self.x.x, self.z.z, self.x.z, self.z.x)
        &&& cross2_req(self.x.x, self.z.y, self.x.y, self.z.x)
        &&& cross2(self.x.x, self.z.y, self.x.y, self.z.x).neg_req()
        &&& cross2_req(self.x.y, self.y.z, self.x.z, self.y.y)
        &&& cross2_req(self.x.x, self.y.z, self.x.z, self.y.x)
        &&& cross2(self.x.x, self.y.z, self.x.z, self.y.x).neg_req()
        &&& cross2_req(self.x.x, self.y.y, self.x.y, self.y.x)
    }

    /// The matrix of cofactors: at each place the determinant of what is left of
    /// the matrix without the row and the column of the place, negated where row
    /// and column add up to an odd number.
    pub open spec fn cofactor_spec(self) -> Self where
        T: Mul<Output = T> + Sub<Output = T> + Neg<Output = T>,
     {
        Mat3 {
            x: Vec3 {
                x: cross2(self.y.y, self.z.z, self.y.z, self.z.y),
                y: cross2(self.y.x, self.z.z, self.y.z, self.z.x).neg_spec(),
                z: cross2(self.y.x, self.z.y, self.y.y, self.z.x),
            },
            y: Vec3 {
                x: cross2(self.x.y, self.z.z, self.x.z, self.z.y).neg_spec(),
                y: cross2(self.x.x, self.z.z, self.x.z, self.z.x),
                z: cross2(self.x.x, self.z.y, self.x.y, self.z.x).neg_spec(),
            },
            z: Vec3 {
                x: cross2(self.x.y, self.y.z, self.x.z, self.y.y),
                y: cross2(self.x.x, self.y.z, self.x.z, self.y.x).neg_spec(),
                z: cross2(self.x.x, self.y.y, self.x.y, self.y.x),
            },
        }
    }

    /// The adjugate: the transposed matrix of cofactors.
    pub open spec fn adjoint_spec(self) -> Self where
        T: Mul<Output = T> + Sub<Output = T> + Neg<Output = T>,
     {
        self.cofactor_spec().transpose_spec()
    }

    /// Whether every operation of the inverse is defined. For an integer this
    /// leaves out a determinant of zero.
    pub open spec fn inv_req(self) -> bool where
        T: Mul<Output = T> + Add<Output = T> + Sub<Output = T> + Neg<Output = T> + Div<Output = T>,
     {
        &&& self.cofactor_req()
        &&& self.det_req()
        &&& T::obeys_div_spec()
        &&& self.adjoint_spec().x.div_req(self.det_spec())
        &&& self.adjoint_spec().y.div_req(self.det_spec())
        &&& self.adjoint_spec().z.div_req(self.det_spec())
    }

    /// The adjugate, each entry divided by the determinant.
    pub open spec fn inv_spec(self) -> Self where
        T: Mul<Output = T> + Add<Output = T> + Sub<Output = T> + Neg<Output = T> + Div<Output = T>,
     {
        Mat3 {
            x: self.adjoint_spec().x.div_spec(self.det_spec()),
            y: self.adjoint_spec().y.div_spec(self.det_spec()),
            z: self.adjoint_spec().z.div_spec(self.det_spec()),
        }
    }

    /// Whether every operation of `try_inv` is defined: those of the determinant
    /// and of the adjugate, and the divisions where the determinant is not zero.
    pub open spec fn try_inv_req(self) -> bool where
        T: Copy + Zero + PartialEq + Mul<Output = T> + Add<Output = T> + Sub<Output = T> + Neg<Output = T> + Div<
            Output = T,
        >,
     {
        &&& self.cofactor_req()
        &&& self.det_req()
        &&& T::obeys_div_spec()
        &&& T::obeys_eq_spec()
        &&& !self.det_spec().eq_spec(&T::zero_spec()) ==> {
            &&& self.adjoint_spec().x.div_req(self.det_spec())
            &&& self.adjoint_spec().y.div_req(self.det_spec())
            &&& self.adjoint_spec().z.div_req(self.det_spec())
        }
    }

    /// The inverse, or nothing where the determinant is zero.
    pub open spec fn try_inv_spec(self) -> Option<Self> where
        T: Copy + Zero + PartialEq + Mul<Output = T> + Add<Output = T> + Sub<Output = T> + Neg<Output = T> + Div<
            Output = T,
        >,
     {
        if self.det_spec().eq_spec(&T::zero_spec()) {
            None
        } else {
            Some(self.inv_spec())
        }
    }

    /// Whether every operation of the product with a vector is defined.
    pub open spec fn apply_to_req(self, v: Vec3<T>) -> bool where
        T: Mul<Output = T> + Add<Output = T> + Sub<Output = T> + Abs,
     {
        &&& dot_req(self.x, v)
        &&& dot_req(self.y, v)
        &&& dot_req(self.z, v)
    }

    /// The product with a vector: the dot product of each row with it.
    pub open spec fn apply_to_spec(self, v: Vec3<T>) -> Vec3<T> where
        T: Mul<Output = T> + Add<Output = T> + Sub<Output = T> + Abs,
     {
        Vec3 { x: dot_spec(self.x, v), y: dot_spec(self.y, v), z: dot_spec(self.z, v) }
    }

    /// Whether every operation of the product of two matrices is defined.
    pub open spec fn product_req(self, other: Self) -> bool where
        T: Mul<Output = T> + Add<Output = T> + Sub<Output = T> + Abs,
     {
        &&& self.apply_to_req(other.transpose_spec().x)
        &&& self.apply_to_req(other.transpose_spec().y)
        &&& self.apply_to_req(other.transpose_spec().z)
    }

    /// The product of two matrices: the entry in row `i` and column `j` is the
    /// dot product of row `i` of `self` with column `j` of `other`.
    pub open spec fn product_spec(self, other: Self) -> Self where
        T: Mul<Output = T> + Add<Output = T> + Sub<Output = T> + Abs,
     {
        Mat3 {
            x: Vec3 {
                x: dot_spec(self.x, other.transpose_spec().x),
                y: dot_spec(self.x, other.transpose_spec().y),
                z: dot_spec(self.x, other.transpose_spec().z),
            },
            y: Vec3 {
                x: dot_spec(self.y, other.transpose_spec().x),
                y: dot_spec(self.y, other.transpose_spec().y),
                z: dot_spec(self.y, other.transpose_spec().z),
            },
            z: Vec3 {
                x: dot_spec(self.z, other.transpose_spec().x),
                y: dot_spec(self.z, other.transpose_spec().y),
                z: dot_spec(self.z, other.transpose_spec().z),
            },
        }
    }

    /// The matrix of four rows with `right` as a fourth column and `bottom` as a
    /// fourth row; the last component of `bottom` is the corner.
    pub open spec fn extend_spec(self, right: Vec3<T>, bottom: Vec4<T>) -> Mat4<T> {
        Mat4 {
            x: Vec4 { x: self.x.x, y: self.x.y, z: self.x.z, w: right.x },
            y: Vec4 { x: self.y.x, y: self.y.y, z: self.y.z, w: right.y },
            z: Vec4 { x: self.z.x, y: self.z.y, z: self.z.z, w: right.z },
            w: bottom,
        }
    }

    /// Whether the negation of the sine is defined.
    pub open spec fn rotate_req(angle: T) -> bool where T: Trig + Neg<Output = T> {
        &&& T::obeys_neg_spec()
        &&& angle.sin_spec().neg_req()
    }

    /// The rotation by `angle` about the x axis.
    pub open spec fn rotate_x_spec(angle: T) -> Self where T: Zero + One + Trig + Neg<Output = T> {
        Mat3 {
            x: Vec3 { x: T::one_spec(), y: T::zero_spec(), z: T::zero_spec() },
            y: Vec3 { x: T::zero_spec(), y: angle.cos_spec(), z: angle.sin_spec().neg_spec() },
            z: Vec3 { x: T::zero_spec(), y: angle.sin_spec(), z: angle.cos_spec() },
        }
    }

    /// The rotation by `angle` about the y axis.
    pub open spec fn rotate_y_spec(angle: T) -> Self where T: Zero + One + Trig + Neg<Output = T> {
        Mat3 {
            x: Vec3 { x: angle.cos_spec(), y: T::zero_spec(), z: angle.sin_spec() },
            y: Vec3 { x: T::zero_spec(), y: T::one_spec(), z: T::zero_spec() },
            z: Vec3 { x: angle.sin_spec().neg_spec(), y: T::zero_spec(), z: angle.cos_spec() },
        }
    }

    /// The rotation by `angle` about the z axis.
    pub open spec fn rotate_z_spec(angle: T) -> Self where T: Zero + One + Trig + Neg<Output = T> {
        Mat3 {
            x: Vec3 { x: angle.cos_spec(), y: angle.sin_spec().neg_spec(), z: T::zero_spec() },
            y: Vec3 { x: angle.sin_spec(), y: angle.cos_spec(), z: T::zero_spec() },
            z: Vec3 { x: T::zero_spec(), y: T::zero_spec(), z: T::one_spec() },
        }
    }
}

impl<
    T: Copy + Zero + One + Mul<Output = T> + Add<Output = T> + Div<Output = T> + Sub<Output = T> + Neg<
        Output = T,
    > + Abs,
> Mat3<T> {
    /// The identity matrix.
    pub fn ident() -> (r: Self)
        ensures
            r == Self::ident_spec(),
    {
        mat3(
            vec3(T::one(), T::zero(), T::zero()),
            vec3(T::zero(), T::one(), T::zero()),
            vec3(T::zero(), T::zero(), T::one()),
        )
    }

    pub fn transpose(self) -> (r: Self)
        ensures
            r == self.transpose_spec(),
    {
        mat3(
            vec3(self.x.x, self.y.x, self.z.x),
            vec3(self.x.y, self.y.y, self.z.y),
            vec3(self.x.z, self.y.z, self.z.z),
        )
    }

    pub fn det(self) -> (r: T)
        requires
            self.det_req(),
        ensures
            r == self.det_spec(),
    {
        self.x.x * self.y.y * self.z.z
            + self.x.y * self.y.z * self.z.x
            + self.x.z * self.y.x * self.z.y
            - self.x.x * self.y.z * self.z.y
            - self.x.y * self.y.x * self.z.z
            - self.x.z * self.y.y * self.z.x
    }

    pub fn cofactor(self) -> (r: Self)
        requires
            self.cofactor_req(),
        ensures
            r == self.cofactor_spec(),
    {
        mat3(
            vec3(
                mat2(vec2(self.y.y, self.y.z), vec2(self.z.y, self.z.z)).det(),
                mat2(vec2(self.y.x, self.y.z), vec2(self.z.x, self.z.z)).det().neg(),
                mat2(vec2(self.y.x, self.y.y), vec2(self.z.x, self.z.y)).det(),
            ),
            vec3(
                mat2(vec2(self.x.y, self.x.z), vec2(self.z.y, self.z.z)).det().neg(),
                mat2(vec2(self.x.x, self.x.z), vec2(self.z.x, self.z.z)).det(),
                mat2(vec2(self.x.x, self.x.y), vec2(self.z.x, self.z.y)).det().neg(),
            ),
            vec3(
                mat2(vec2(self.x.y, self.x.z), vec2(self.y.y, self.y.z)).det(),
                mat2(vec2(self.x.x, self.x.z), vec2(self.y.x, self.y.z)).det().neg(),
                mat2(vec2(self.x.x, self.x.y), vec2(self.y.x, self.y.y)).det(),
            ),
        )
    }

    pub fn adjoint(self) -> (r: Self)
        requires
            self.cofactor_req(),
        ensures
            r == self.adjoint_spec(),
    {
        self.cofactor().transpose()
    }

    /// The inverse: the adjugate divided by the determinant. Nothing guards a
    /// determinant of zero: `inv_req` holds only where the scalar's division by
    /// it is defined.
    pub fn inv(self) -> (r: Self)
        requires
            self.inv_req(),
        ensures
            r == self.inv_spec(),
    {
        let a = self.adjoint();
        let d = self.det();
        mat3(a.x / d, a.y / d, a.z / d)
    }

    /// The inverse, or `None` for a matrix whose determinant is zero, which has
    /// none.
    pub fn try_inv(self) -> (r: Option<Self>) where T: PartialEq
        requires
            self.try_inv_req(),
        ensures
            r == self.try_inv_spec(),
    {
        if self.det() == T::zero() {
            None
        } else {
            Some(self.inv())
        }
    }

    pub fn apply_to(self, v: Vec3<T>) -> (r: Vec3<T>)
        requires
            self.apply_to_req(v),
        ensures
            r == self.apply_to_spec(v),
    {
        vec3(dot(self.x, v), dot(self.y, v), dot(self.z, v))
    }

    pub fn extend(self, right: Vec3<T>, bottom: Vec4<T>) -> (r: Mat4<T>)
        ensures
            r == self.extend_spec(right, bottom),
    {
        mat4(self.x.extend(right.x), self.y.extend(right.y), self.z.extend(right.z), bottom)
    }
}

impl<
    T: Copy + Zero + One + Mul<Output = T> + Add<Output = T> + Div<Output = T> + Sub<Output = T> + Neg<
        Output = T,
    > + Trig,
> Mat3<T> {
    pub fn rotate_x(angle: T) -> (r: Self)
        requires
            Self::rotate_req(angle),
        ensures
            r == Self::rotate_x_spec(angle),
    {
        mat3(
            vec3(T::one(), T::zero(), T::zero()),
            vec3(T::zero(), angle.cos(), angle.sin().neg()),
            vec3(T::zero(), angle.sin(), angle.cos()),
        )
    }

    pub fn rotate_y(angle: T) -> (r: Self)
        requires
            Self::rotate_req(angle),
        ensures
            r == Self::rotate_y_spec(angle),
    {
        mat3(
            vec3(angle.cos(), T::zero(), angle.sin()),
            vec3(T::zero(), T::one(), T::zero()),
            vec3(angle.sin().neg(), T::zero(), angle.cos()),
        )
    }

    pub fn rotate_z(angle: T) -> (r: Self)
        requires
            Self::rotate_req(angle),
        ensures
            r == Self::rotate_z_spec(angle),
    {
        mat3(
            vec3(angle.cos(), angle.sin().neg(), T::zero()),
            vec3(angle.sin(), angle.cos(), T::zero()),
            vec3(T::zero(), T::zero(), T::one()),
        )
    }
}

/// The default matrix is the identity, not the zero matrix.
impl<
    T: Copy + Zero + One + Mul<Output = T> + Add<Output = T> + Div<Output = T> + Sub<Output = T> + Neg<
        Output = T,
    > + Abs,
> Default for Mat3<T> {
    fn default() -> (r: Self)
        ensures
            r == Self::ident_spec(),
    {
        Mat3::ident()
    }
}

impl<
    T: Copy + Zero + One + Mul<Output = T> + Add<Output = T> + Div<Output = T> + Sub<Output = T> + Neg<
        Output = T,
    > + Abs,
> Mul<Mat3<T>> for Mat3<T> {
    type Output = Self;

    fn mul(self, other: Self) -> (r: Self) {
        let t = other.transpose();
        mat3(
            vec3(dot(self.x, t.x), dot(self.x, t.y), dot(self.x, t.z)),
            vec3(dot(self.y, t.x), dot(self.y, t.y), dot(self.y, t.z)),
            vec3(dot(self.z, t.x), dot(self.z, t.y), dot(self.z, t.z)),
        )
    }
}

/// The product of two matrices, rows of the left by columns of the right.
impl<
    T: Copy + Zero + One + Mul<Output = T> + Add<Output = T> + Div<Output = T> + Sub<Output = T> + Neg<
        Output = T,
    > + Abs,
> vstd::std_specs::ops::MulSpecImpl<Mat3<T>> for Mat3<T> {
    open spec fn obeys_mul_spec() -> bool {
        true
    }

    open spec fn mul_req(self, other: Self) -> bool {
        self.product_req(other)
    }

    open spec fn mul_spec(self, other: Self) -> Self {
        self.product_spec(other)
    }
}

impl<
    T: Copy + Zero + One + Mul<Output = T> + Add<Output = T> + Div<Output = T> + Sub<Output = T> + Neg<
        Output = T,
    > + Abs,
> Mul<Vec3<T>> for Mat3<T> {
    type Output = Vec3<T>;

    fn mul(self, v: Vec3<T>) -> (r: Vec3<T>) {
        self.apply_to(v)
    }
}

/// The product with a vector, as `apply_to` gives it.
impl<
    T: Copy + Zero + One + Mul<Output = T> + Add<Output = T> + Div<Output = T> + Sub<Output = T> + Neg<
        Output = T,
    > + Abs,
> vstd::std_specs::ops::MulSpecImpl<Vec3<T>> for Mat3<T> {
    open spec fn obeys_mul_spec() -> bool {
        true
    }

    open spec fn mul_req(self, v: Vec3<T>) -> bool {
        self.apply_to_req(v)
    }

    open spec fn mul_spec(self, v: Vec3<T>) -> Vec3<T> {
        self.apply_to_spec(v)
    }
}

impl<T> Mat3<T> {
    /// The rows in order, each as an array.
    pub fn into_array(self) -> (r: [[T; 3]; 3])
        ensures
            r[0][0] == self.x.x,
            r[0][1] == self.x.y,
            r[0][2] == self.x.z,
            r[1][0] == self.y.x,
            r[1][1] == self.y.y,
            r[1][2] == self.y.z,
            r[2][0] == self.z.x,
            r[2][1] == self.z.y,
            r[2][2] == self.z.z,
    {
        [self.x.into_array(), self.y.into_array(), self.z.into_array()]
    }

    /// The rows in order, each as a tuple.
    pub fn into_tuple(self) -> (r: ((T, T, T), (T, T, T), (T, T, T)))
        ensures
            r == ((self.x.x, self.x.y, self.x.z), (self.y.x, self.y.y, self.y.z), (self.z.x, self.z.y, self.z.z)),
    {
        (self.x.into_tuple(), self.y.into_tuple(), self.z.into_tuple())
    }
}

} // verus!
