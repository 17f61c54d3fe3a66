//! Square matrices of two rows.

use vstd::prelude::*;
use vstd::std_specs::cmp::PartialEqSpec;
use vstd::std_specs::ops::AddSpec;
use vstd::std_specs::ops::DivSpec;
use vstd::std_specs::ops::MulSpec;
use vstd::std_specs::ops::NegSpec;
use vstd::std_specs::ops::SubSpec;
use std::ops::Add;
use std::ops::AddAssign;
use std::ops::Div;
use std::ops::Mul;
use std::ops::Neg;
use std::ops::Sub;
use std::ops::SubAssign;
use crate::terms::cross2;
use crate::terms::cross2_req;
use crate::traits::Abs;
use crate::traits::One;
use crate::traits::Trig;
use crate::traits::Zero;
use crate::vec2::vec2;
use crate::vec2::Vec2;
use crate::vector::dot;
use crate::vector::dot_req;
use crate::vector::dot_spec;

verus! {

/// A matrix of two rows, `x` above `y`, each a vector of two components.
#[derive(Debug, Copy, Clone, Eq, Hash)]
pub struct Mat2<T> {
    pub x: Vec2<T>,
    pub y: Vec2<T>,
}

impl<T: PartialEq> PartialEq for Mat2<T> {
    fn eq(&self, other: &Self) -> (r: bool) {
        self.x == other.x && self.y == other.y
    }
}

/// Two matrices are equal where each pair of entries is.
impl<T: PartialEq> vstd::std_specs::cmp::PartialEqSpecImpl for Mat2<T> {
    open spec fn obeys_eq_spec() -> bool {
        T::obeys_eq_spec()
    }

    open spec fn eq_spec(&self, other: &Self) -> bool {
        &&& PartialEqSpec::eq_spec(&self.x, &other.x)
        &&& PartialEqSpec::eq_spec(&self.y, &other.y)
    }
}

/// The matrix of the given rows.
pub fn mat2<T>(x: Vec2<T>, y: Vec2<T>) -> (r: Mat2<T>)
    ensures
        r == (Mat2 { x, y }),
{
    Mat2 { x, y }
}

impl<
    T: Copy + Zero + One + Mul<Output = T> + Add<Output = T> + Div<Output = T> + Sub<Output = T> + Neg<
        Output = T,
    >,
> Add for Mat2<T> {
    type Output = Self;

    fn add(self, other: Self) -> (r: Self) {
        mat2(self.x + other.x, self.y + other.y)
    }
}

/// The sum of each pair of entries.
impl<
    T: Copy + Zero + One + Mul<Output = T> + Add<Output = T> + Div<Output = T> + Sub<Output = T> + Neg<
        Output = T,
    >,
> vstd::std_specs::ops::AddSpecImpl for Mat2<T> {
    open spec fn obeys_add_spec() -> bool {
        T::obeys_add_spec()
    }

    open spec fn add_req(self, other: Self) -> bool {
        &&& AddSpec::add_req(self.x, other.x)
        &&& AddSpec::add_req(self.y, other.y)
    }

    open spec fn add_spec(self, other: Self) -> Self {
        Mat2 { x: AddSpec::add_spec(self.x, other.x), y: AddSpec::add_spec(self.y, other.y) }
    }
}

impl<
    T: Copy + Zero + One + Mul<Output = T> + Add<Output = T> + Div<Output = T> + Sub<Output = T> + Neg<
        Output = T,
    >,
> AddAssign for Mat2<T> {
    fn add_assign(&mut self, other: Self)
        requires
            old(self).add_req(other),
        ensures
            T::obeys_add_spec() ==> *final(self) == old(self).add_spec(other),
    {
        *self = *self + other;
    }
}

impl<
    T: Copy + Zero + One + Mul<Output = T> + Add<Output = T> + Div<Output = T> + Sub<Output = T> + Neg<
        Output = T,
    >,
> Sub for Mat2<T> {
    type Output = Self;

    fn sub(self, other: Self) -> (r: Self) {
        mat2(self.x - other.x, self.y - other.y)
    }
}

/// The difference of each pair of entries.
impl<
    T: Copy + Zero + One + Mul<Output = T> + Add<Output = T> + Div<Output = T> + Sub<Output = T> + Neg<
        Output = T,
    >,
> vstd::std_specs::ops::SubSpecImpl for Mat2<T> {
    open spec fn obeys_sub_spec() -> bool {
        T::obeys_sub_spec()
    }

    open spec fn sub_req(self, other: Self) -> bool {
        &&& SubSpec::sub_req(self.x, other.x)
        &&& SubSpec::sub_req(self.y, other.y)
    }

    open spec fn sub_spec(self, other: Self) -> Self {
        Mat2 { x: SubSpec::sub_spec(self.x, other.x), y: SubSpec::sub_spec(self.y, other.y) }
    }
}

impl<
    T: Copy + Zero + One + Mul<Output = T> + Add<Output = T> + Div<Output = T> + Sub<Output = T> + Neg<
        Output = T,
    >,
> SubAssign for Mat2<T> {
    fn sub_assign(&mut self, other: Self)
        requires
            old(self).sub_req(other),
        ensures
            T::obeys_sub_spec() ==> *final(self) == old(self).sub_spec(other),
    {
        *self = *self - other;
    }
}

impl<T: Neg<Output = T>> Neg for Mat2<T> {
    type Output = Self;

    fn neg(self) -> (r: Self) {
        mat2(self.x.neg(), self.y.neg())
    }
}

/// The negation of each entry.
impl<T: Neg<Output = T>> vstd::std_specs::ops::NegSpecImpl for Mat2<T> {
    open spec fn obeys_neg_spec() -> bool {
        T::obeys_neg_spec()
    }

    open spec fn neg_req(self) -> bool {
        &&& NegSpec::neg_req(self.x)
        &&& NegSpec::neg_req(self.y)
    }

    open spec fn neg_spec(self) -> Self {
        Mat2 { x: NegSpec::neg_spec(self.x), y: NegSpec::neg_spec(self.y) }
    }
}

impl<T: Copy> Mat2<T> {
    /// Rows for columns.
    pub open spec fn transpose_spec(self) -> Self {
        Mat2 { x: Vec2 { x: self.x.x, y: self.y.x }, y: Vec2 { x: self.x.y, y: self.y.y } }
    }

    /// Ones on the diagonal, zeros elsewhere.
    pub open spec fn ident_spec() -> Self where T: Zero + One {
        Mat2 {
            x: Vec2 { x: T::one_spec(), y: T::zero_spec() },
            y: Vec2 { x: T::zero_spec(), y: T::one_spec() },
        }
    }

    /// Whether every operation of the determinant is defined.
    pub open spec fn det_req(self) -> bool where T: Mul<Output = T> + Sub<Output = T> {
        &&& T::obeys_mul_spec()
        &&& T::obeys_sub_spec()
        &&& cross2_req(self.x.x, self.y.y, self.x.y, self.y.x)
    }

    /// The determinant, `x.x * y.y - x.y * y.x`.
    pub open spec fn det_spec(self) -> T where T: Mul<Output = T> + Sub<Output = T> {
        cross2(self.x.x, self.y.y, self.x.y, self.y.x)
    }

    /// Whether both negations of the adjugate are defined.
    pub open spec fn adjoint_req(self) -> bool where T: Neg<Output = T> {
        &&& T::obeys_neg_spec()
        &&& self.x.y.neg_req()
        &&& self.y.x.neg_req()
    }

    /// The adjugate: the transposed matrix of cofactors.
    pub open spec fn adjoint_spec(self) -> Self where T: Neg<Output = T> {
        Mat2 {
            x: Vec2 { x: self.y.y, y: self.x.y.neg_spec() },
            y: Vec2 { x: self.y.x.neg_spec(), y: self.x.x },
        }
    }

    /// Whether every operation of the inverse is defined. For an integer this
    /// leaves out a determinant of zero.
    pub open spec fn inv_req(self) -> bool where
        T: Mul<Output = T> + Sub<Output = T> + Neg<Output = T> + Div<Output = T>,
     {
        &&& self.det_req()
        &&& self.adjoint_req()
        &&& T::obeys_div_spec()
        &&& self.adjoint_spec().x.div_req(self.det_spec())
        &&& self.adjoint_spec().y.div_req(self.det_spec())
    }

    /// The adjugate, each entry divided by the determinant.
    pub open spec fn inv_spec(self) -> Self where
        T: Mul<Output = T> + Sub<Output = T> + Neg<Output = T> + Div<Output = T>,
     {
        Mat2 {
            x: self.adjoint_spec().x.div_spec(self.det_spec()),
            y: self.adjoint_spec().y.div_spec(self.det_spec()),
        }
    }

    /// Whether every operation of `try_inv` is defined: those of the determinant
    /// and of the adjugate, and the divisions where the determinant is not zero.
    pub open spec fn try_inv_req(self) -> bool where
        T: Zero + PartialEq + Mul<Output = T> + Add<Output = T> + Sub<Output = T> + Neg<Output = T> + Div<
            Output = T,
        >,
     {
        &&& self.adjoint_req()
        &&& self.det_req()
        &&& T::obeys_div_spec()
        &&& T::obeys_eq_spec()
        &&& !self.det_spec().eq_spec(&T::zero_spec()) ==> {
            &&& self.adjoint_spec().x.div_req(self.det_spec())
            &&& self.adjoint_spec().y.div_req(self.det_spec())
        }
    }

    /// The inverse, or nothing where the determinant is zero.
    pub open spec fn try_inv_spec(self) -> Option<Self> where
        T: Zero + PartialEq + Mul<Output = T> + Add<Output = T> + Sub<Output = T> + Neg<Output = T> + Div<
            Output = T,
        >,
     {
        if self.det_spec().eq_spec(&T::zero_spec()) {
            None
        } else {
            Some(self.inv_spec())
        }
    }

    /// Whether every operation of the product with a vector is defined.
    pub open spec fn apply_to_req(self, v: Vec2<T>) -> bool where
        T: Mul<Output = T> + Add<Output = T> + Sub<Output = T> + Abs,
     {
        &&& dot_req(self.x, v)
        &&& dot_req(self.y, v)
    }

    /// The product with a vector: the dot product of each row with it.
    pub open spec fn apply_to_spec(self, v: Vec2<T>) -> Vec2<T> where
        T: Mul<Output = T> + Add<Output = T> + Sub<Output = T> + Abs,
     {
        Vec2 { x: dot_spec(self.x, v), y: dot_spec(self.y, v) }
    }

    /// Whether every operation of the product of two matrices is defined.
    pub open spec fn product_req(self, other: Self) -> bool where
        T: Mul<Output = T> + Add<Output = T> + Sub<Output = T> + Abs,
     {
        &&& self.apply_to_req(other.transpose_spec().x)
        &&& self.apply_to_req(other.transpose_spec().y)
    }

    /// The product of two matrices: the entry in row `i` and column `j` is the
    /// dot product of row `i` of `self` with column `j` of `other`.
    pub open spec fn product_spec(self, other: Self) -> Self where
        T: Mul<Output = T> + Add<Output = T> + Sub<Output = T> + Abs,
     {
        Mat2 {
            x: Vec2 {
                x: dot_spec(self.x, other.transpose_spec().x),
                y: dot_spec(self.x, other.transpose_spec().y),
            },
            y: Vec2 {
                x: dot_spec(self.y, other.transpose_spec().x),
                y: dot_spec(self.y, other.transpose_spec().y),
            },
        }
    }

    /// Whether the negation of the sine is defined.
    pub open spec fn rotate_req(angle: T) -> bool where T: Trig + Neg<Output = T> {
        &&& T::obeys_neg_spec()
        &&& angle.sin_spec().neg_req()
    }

    /// The rotation of the plane by `angle`.
    pub open spec fn rotate_spec(angle: T) -> Self where T: Trig + Neg<Output = T> {
        Mat2 {
            x: Vec2 { x: angle.cos_spec(), y: angle.sin_spec().neg_spec() },
            y: Vec2 { x: angle.sin_spec(), y: angle.cos_spec() },
        }
    }
}

impl<
    T: Copy + Zero + One + Mul<Output = T> + Add<Output = T> + Div<Output = T> + Sub<Output = T> + Neg<
        Output = T,
    > + Abs,
> Mat2<T> {
    /// The identity matrix.
    pub fn ident() -> (r: Self)
        ensures
            r == Self::ident_spec(),
    {
        mat2(vec2(T::one(), T::zero()), vec2(T::zero(), T::one()))
    }

    pub fn det(self) -> (r: T)
        requires
            self.det_req(),
        ensures
            r == self.det_spec(),
    {
        self.x.x * self.y.y - self.x.y * self.y.x
    }

    /// The inverse: the adjugate divided by the determinant. Nothing guards a
    /// determinant of zero: `inv_req` holds only where the scalar's division by
    /// it is defined.
    pub fn inv(self) -> (r: Self)
        requires
            self.inv_req(),
        ensures
            r == self.inv_spec(),
    {
        let d = self.det();
        mat2(vec2(self.y.y, self.x.y.neg()) / d, vec2(self.y.x.neg(), self.x.x) / d)
    }

    /// The inverse, or `None` for a matrix whose determinant is zero, which has
    /// none.
    pub fn try_inv(self) -> (r: Option<Self>) where T: PartialEq
        requires
            self.try_inv_req(),
        ensures
            r == self.try_inv_spec(),
    {
        if self.det() == T::zero() {
            None
        } else {
            Some(self.inv())
        }
    }

    pub fn apply_to(self, v: Vec2<T>) -> (r: Vec2<T>)
        requires
            self.apply_to_req(v),
        ensures
            r == self.apply_to_spec(v),
    {
        vec2(dot(self.x, v), dot(self.y, v))
    }

    pub fn transpose(self) -> (r: Self)
        ensures
            r == self.transpose_spec(),
    {
        mat2(vec2(self.x.x, self.y.x), vec2(self.x.y, self.y.y))
    }

    pub fn rotate(angle: T) -> (r: Self) where T: Trig
        requires
            Self::rotate_req(angle),
        ensures
            r == Self::rotate_spec(angle),
    {
        mat2(vec2(angle.cos(), angle.sin().neg()), vec2(angle.sin(), angle.cos()))
    }
}

/// The default matrix is the identity, not the zero matrix.
impl<
    T: Copy + Zero + One + Mul<Output = T> + Add<Output = T> + Div<Output = T> + Sub<Output = T> + Neg<
        Output = T,
    > + Abs,
> Default for Mat2<T> {
    fn default() -> (r: Self)
        ensures
            r == Self::ident_spec(),
    {
        Mat2::ident()
    }
}

impl<
    T: Copy + Zero + One + Mul<Output = T> + Add<Output = T> + Div<Output = T> + Sub<Output = T> + Neg<
        Output = T,
    > + Abs,
> Mul<Mat2<T>> for Mat2<T> {
    type Output = Self;

    fn mul(self, other: Self) -> (r: Self) {
        let t = other.transpose();
        mat2(
            vec2(dot(self.x, t.x), dot(self.x, t.y)),
            vec2(dot(self.y, t.x), dot(self.y, t.y)),
        )
    }
}

/// The product of two matrices, rows of the left by columns of the right.
impl<
    T: Copy + Zero + One + Mul<Output = T> + Add<Output = T> + Div<Output = T> + Sub<Output = T> + Neg<
        Output = T,
    > + Abs,
> vstd::std_specs::ops::MulSpecImpl<Mat2<T>> for Mat2<T> {
    open spec fn obeys_mul_spec() -> bool {
        true
    }

    open spec fn mul_req(self, other: Self) -> bool {
        self.product_req(other)
    }

    open spec fn mul_spec(self, other: Self) -> Self {
        self.product_spec(other)
    }
}

impl<
    T: Copy + Zero + One + Mul<Output = T> + Add<Output = T> + Div<Output = T> + Sub<Output = T> + Neg<
        Output = T,
    > + Abs,
> Mul<Vec2<T>> for Mat2<T> {
    type Output = Vec2<T>;

    fn mul(self, v: Vec2<T>) -> (r: Vec2<T>) {
        self.apply_to(v)
    }
}

/// The product with a vector, as `apply_to` gives it.
impl<
    T: Copy + Zero + One + Mul<Output = T> + Add<Output = T> + Div<Output = T> + Sub<Output = T> + Neg<
        Output = T,
    > + Abs,
> vstd::std_specs::ops::MulSpecImpl<Vec2<T>> for Mat2<T> {
    open spec fn obeys_mul_spec() -> bool {
        true
    }

    open spec fn mul_req(self, v: Vec2<T>) -> bool {
        self.apply_to_req(v)
    }

    open spec fn mul_spec(self, v: Vec2<T>) -> Vec2<T> {
        self.apply_to_spec(v)
    }
}

} // verus!
