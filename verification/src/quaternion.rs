//! Quaternions: a real part and three imaginary parts.

use vstd::prelude::*;
use vstd::std_specs::cmp::PartialEqSpec;
use vstd::std_specs::ops::AddSpec;
use vstd::std_specs::ops::DivSpec;
use vstd::std_specs::ops::MulSpec;
use vstd::std_specs::ops::NegSpec;
use vstd::std_specs::ops::SubSpec;
use vstd::string::StringExecFns;
use std::ops::Add;
use std::ops::Div;
use std::ops::Index;
use std::ops::IndexMut;
use std::ops::Mul;
use std::ops::Neg;
use std::ops::Sub;
use crate::mat3::mat3;
use crate::mat3::Mat3;
use crate::terms::obeys_ring;
use crate::text::components;
use crate::text::components_spec;
use crate::text::parses;
use crate::text::views;
use crate::traits::Abs;
use crate::traits::NiceFmt;
use crate::traits::One;
use crate::traits::Sqrt;
use crate::traits::Trig;
use crate::traits::Two;
use crate::traits::Zero;
use crate::vec3::vec3;
use crate::vec3::Vec3;
use crate::vector::dot_req;
use crate::vector::dot_spec;

verus! {

/// A quaternion `r + i·i + j·j + k·k`. It stands for a rotation where its
/// magnitude is one; the type does not ask for that.
#[derive(Debug, Copy, Clone, Eq, Hash)]
pub struct Quaternion<T> {
    pub r: T,
    pub i: T,
    pub j: T,
    pub k: T,
}

impl<T: PartialEq> PartialEq for Quaternion<T> {
    fn eq(&self, other: &Self) -> (r: bool) {
        self.r == other.r && self.i == other.i && self.j == other.j && self.k == other.k
    }
}

/// Two quaternions are equal where each pair of parts is.
impl<T: PartialEq> vstd::std_specs::cmp::PartialEqSpecImpl for Quaternion<T> {
    open spec fn obeys_eq_spec() -> bool {
        T::obeys_eq_spec()
    }

    open spec fn eq_spec(&self, other: &Self) -> bool {
        &&& self.r.eq_spec(&other.r)
        &&& self.i.eq_spec(&other.i)
        &&& self.j.eq_spec(&other.j)
        &&& self.k.eq_spec(&other.k)
    }
}

/// The quaternion of the given parts.
pub fn quaternion<T>(r: T, i: T, j: T, k: T) -> (q: Quaternion<T>)
    ensures
        q == (Quaternion { r, i, j, k }),
{
    Quaternion { r, i, j, k }
}

impl<T: Copy + Mul<Output = T> + Add<Output = T> + Sub<Output = T>> Mul<Quaternion<T>> for Quaternion<T> {
    type Output = Self;

    fn mul(self, other: Self) -> (r: Self) {
        Self {
            r: self.r * other.r - self.i * other.i - self.j * other.j - self.k * other.k,
            i: self.r * other.i + self.i * other.r + self.j * other.k - self.k * other.j,
            j: self.r * other.j - self.i * other.k + self.j * other.r + self.k * other.i,
            k: self.r * other.k + self.i * other.j - self.j * other.i + self.k * other.r,
        }
    }
}

/// The Hamilton product.
impl<T: Copy + Mul<Output = T> + Add<Output = T> + Sub<Output = T>> vstd::std_specs::ops::MulSpecImpl<Quaternion<T>> for Quaternion<T> {
    open spec fn obeys_mul_spec() -> bool {
        true
    }

    open spec fn mul_req(self, other: Self) -> bool {
        &&& obeys_ring::<T>()
        &&& self.r.mul_req(other.r)
        &&& self.i.mul_req(other.i)
        &&& self.r.mul_spec(other.r).sub_req(self.i.mul_spec(other.i))
        &&& self.j.mul_req(other.j)
        &&& self.r.mul_spec(other.r).sub_spec(self.i.mul_spec(other.i)).sub_req(self.j.mul_spec(other.j))
        &&& self.k.mul_req(other.k)
        &&& self.r.mul_spec(other.r).sub_spec(self.i.mul_spec(other.i)).sub_spec(self.j.mul_spec(other.j)).sub_req(self.k.mul_spec(other.k))
        &&& self.r.mul_req(other.i)
        &&& self.i.mul_req(other.r)
        &&& self.r.mul_spec(other.i).add_req(self.i.mul_spec(other.r))
        &&& self.j.mul_req(other.k)
        &&& self.r.mul_spec(other.i).add_spec(self.i.mul_spec(other.r)).add_req(self.j.mul_spec(other.k))
        &&& self.k.mul_req(other.j)
        &&& self.r.mul_spec(other.i).add_spec(self.i.mul_spec(other.r)).add_spec(self.j.mul_spec(other.k)).sub_req(self.k.mul_spec(other.j))
        &&& self.r.mul_req(other.j)
        &&& self.i.mul_req(other.k)
        &&& self.r.mul_spec(other.j).sub_req(self.i.mul_spec(other.k))
        &&& self.j.mul_req(other.r)
        &&& self.r.mul_spec(other.j).sub_spec(self.i.mul_spec(other.k)).add_req(self.j.mul_spec(other.r))
        &&& self.k.mul_req(other.i)
        &&& self.r.mul_spec(other.j).sub_spec(self.i.mul_spec(other.k)).add_spec(self.j.mul_spec(other.r)).add_req(self.k.mul_spec(other.i))
        &&& self.r.mul_req(other.k)
        &&& self.i.mul_req(other.j)
        &&& self.r.mul_spec(other.k).add_req(self.i.mul_spec(other.j))
        &&& self.j.mul_req(other.i)
        &&& self.r.mul_spec(other.k).add_spec(self.i.mul_spec(other.j)).sub_req(self.j.mul_spec(other.i))
        &&& self.k.mul_req(other.r)
        &&& self.r.mul_spec(other.k).add_spec(self.i.mul_spec(other.j)).sub_spec(self.j.mul_spec(other.i)).add_req(self.k.mul_spec(other.r))
    }

    open spec fn mul_spec(self, other: Self) -> Self {
        Quaternion {
            r: self.r.mul_spec(other.r).sub_spec(self.i.mul_spec(other.i)).sub_spec(self.j.mul_spec(other.j)).sub_spec(self.k.mul_spec(other.k)),
            i: self.r.mul_spec(other.i).add_spec(self.i.mul_spec(other.r)).add_spec(self.j.mul_spec(other.k)).sub_spec(self.k.mul_spec(other.j)),
            j: self.r.mul_spec(other.j).sub_spec(self.i.mul_spec(other.k)).add_spec(self.j.mul_spec(other.r)).add_spec(self.k.mul_spec(other.i)),
            k: self.r.mul_spec(other.k).add_spec(self.i.mul_spec(other.j)).sub_spec(self.j.mul_spec(other.i)).add_spec(self.k.mul_spec(other.r)),
        }
    }
}

impl<T: Copy> Quaternion<T> {
    /// One, without an imaginary part.
    pub open spec fn ident_spec() -> Self where T: Zero + One {
        Quaternion { r: T::one_spec(), i: T::zero_spec(), j: T::zero_spec(), k: T::zero_spec() }
    }

    /// Whether every operation of the squared magnitude is defined.
    pub open spec fn magnitude_squared_req(self) -> bool where T: Mul<Output = T> + Add<Output = T> {
        &&& T::obeys_mul_spec()
        &&& T::obeys_add_spec()
        &&& self.i.mul_req(self.i)
        &&& self.j.mul_req(self.j)
        &&& self.i.mul_spec(self.i).add_req(self.j.mul_spec(self.j))
        &&& self.k.mul_req(self.k)
        &&& self.i.mul_spec(self.i).add_spec(self.j.mul_spec(self.j)).add_req(self.k.mul_spec(self.k))
        &&& self.r.mul_req(self.r)
        &&& self.i.mul_spec(self.i).add_spec(self.j.mul_spec(self.j)).add_spec(self.k.mul_spec(self.k)).add_req(self.r.mul_spec(self.r))
    }

    /// The sum of the squares of the parts, the imaginary ones first.
    pub open spec fn magnitude_squared_spec(self) -> T where T: Mul<Output = T> + Add<Output = T> {
        self.i.mul_spec(self.i).add_spec(self.j.mul_spec(self.j)).add_spec(self.k.mul_spec(self.k)).add_spec(self.r.mul_spec(self.r))
    }

    /// Whether every operation of `normalize` is defined.
    pub open spec fn normalize_req(self) -> bool where
        T: Mul<Output = T> + Add<Output = T> + Div<Output = T> + Sqrt<T>,
     {
        &&& self.magnitude_squared_req()
        &&& T::obeys_div_spec()
        &&& self.r.div_req(self.magnitude_squared_spec().sqrt_spec())
        &&& self.i.div_req(self.magnitude_squared_spec().sqrt_spec())
        &&& self.j.div_req(self.magnitude_squared_spec().sqrt_spec())
        &&& self.k.div_req(self.magnitude_squared_spec().sqrt_spec())
    }

    /// Each part divided by the magnitude.
    pub open spec fn normalize_spec(self) -> Self where
        T: Mul<Output = T> + Add<Output = T> + Div<Output = T> + Sqrt<T>,
     {
        Quaternion {
            r: self.r.div_spec(self.magnitude_squared_spec().sqrt_spec()),
            i: self.i.div_spec(self.magnitude_squared_spec().sqrt_spec()),
            j: self.j.div_spec(self.magnitude_squared_spec().sqrt_spec()),
            k: self.k.div_spec(self.magnitude_squared_spec().sqrt_spec()),
        }
    }

    /// Whether the negation of the real part is defined.
    pub open spec fn inv_req(self) -> bool where T: Neg<Output = T> {
        &&& T::obeys_neg_spec()
        &&& self.r.neg_req()
    }

    /// The real part negated, the imaginary parts kept.
    pub open spec fn inv_spec(self) -> Self where T: Neg<Output = T> {
        Quaternion { r: self.r.neg_spec(), i: self.i, j: self.j, k: self.k }
    }

    /// Whether every operation of `rot_mat` is defined.
    pub open spec fn rot_mat_req(self) -> bool where
        T: One + Two + Mul<Output = T> + Add<Output = T> + Sub<Output = T>,
     {
        &&& obeys_ring::<T>()
        &&& self.j.mul_req(self.j)
        &&& self.k.mul_req(self.k)
        &&& self.j.mul_spec(self.j).add_req(self.k.mul_spec(self.k))
        &&& T::two_spec().mul_req(self.j.mul_spec(self.j).add_spec(self.k.mul_spec(self.k)))
        &&& T::one_spec().sub_req(T::two_spec().mul_spec(self.j.mul_spec(self.j).add_spec(self.k.mul_spec(self.k))))
        &&& self.i.mul_req(self.j)
        &&& self.r.mul_req(self.k)
        &&& self.i.mul_spec(self.j).sub_req(self.r.mul_spec(self.k))
        &&& T::two_spec().mul_req(self.i.mul_spec(self.j).sub_spec(self.r.mul_spec(self.k)))
        &&& self.i.mul_req(self.k)
        &&& self.r.mul_req(self.j)
        &&& self.i.mul_spec(self.k).add_req(self.r.mul_spec(self.j))
        &&& T::two_spec().mul_req(self.i.mul_spec(self.k).add_spec(self.r.mul_spec(self.j)))
        &&& self.i.mul_spec(self.j).add_req(self.r.mul_spec(self.k))
        &&& T::two_spec().mul_req(self.i.mul_spec(self.j).add_spec(self.r.mul_spec(self.k)))
        &&& self.i.mul_req(self.i)
        &&& self.i.mul_spec(self.i).add_req(self.k.mul_spec(self.k))
        &&& T::two_spec().mul_req(self.i.mul_spec(self.i).add_spec(self.k.mul_spec(self.k)))
        &&& T::one_spec().sub_req(T::two_spec().mul_spec(self.i.mul_spec(self.i).add_spec(self.k.mul_spec(self.k))))
        &&& self.j.mul_req(self.k)
        &&& self.r.mul_req(self.i)
        &&& self.j.mul_spec(self.k).sub_req(self.r.mul_spec(self.i))
        &&& T::two_spec().mul_req(self.j.mul_spec(self.k).sub_spec(self.r.mul_spec(self.i)))
        &&& self.i.mul_spec(self.k).sub_req(self.r.mul_spec(self.j))
        &&& T::two_spec().mul_req(self.i.mul_spec(self.k).sub_spec(self.r.mul_spec(self.j)))
        &&& self.j.mul_spec(self.k).add_req(self.r.mul_spec(self.i))
        &&& T::two_spec().mul_req(self.j.mul_spec(self.k).add_spec(self.r.mul_spec(self.i)))
        &&& self.i.mul_spec(self.i).add_req(self.j.mul_spec(self.j))
        &&& T::two_spec().mul_req(self.i.mul_spec(self.i).add_spec(self.j.mul_spec(self.j)))
        &&& T::one_spec().sub_req(T::two_spec().mul_spec(self.i.mul_spec(self.i).add_spec(self.j.mul_spec(self.j))))
    }

    /// The matrix of the rotation that a quaternion of magnitude one stands for.
    pub open spec fn rot_mat_spec(self) -> Mat3<T> where
        T: One + Two + Mul<Output = T> + Add<Output = T> + Sub<Output = T>,
     {
        Mat3 {
            x: Vec3 {
                x: T::one_spec().sub_spec(T::two_spec().mul_spec(self.j.mul_spec(self.j).add_spec(self.k.mul_spec(self.k)))),
                y: T::two_spec().mul_spec(self.i.mul_spec(self.j).sub_spec(self.r.mul_spec(self.k))),
                z: T::two_spec().mul_spec(self.i.mul_spec(self.k).add_spec(self.r.mul_spec(self.j))),
            },
            y: Vec3 {
                x: T::two_spec().mul_spec(self.i.mul_spec(self.j).add_spec(self.r.mul_spec(self.k))),
                y: T::one_spec().sub_spec(T::two_spec().mul_spec(self.i.mul_spec(self.i).add_spec(self.k.mul_spec(self.k)))),
                z: T::two_spec().mul_spec(self.j.mul_spec(self.k).sub_spec(self.r.mul_spec(self.i))),
            },
            z: Vec3 {
                x: T::two_spec().mul_spec(self.i.mul_spec(self.k).sub_spec(self.r.mul_spec(self.j))),
                y: T::two_spec().mul_spec(self.j.mul_spec(self.k).add_spec(self.r.mul_spec(self.i))),
                z: T::one_spec().sub_spec(T::two_spec().mul_spec(self.i.mul_spec(self.i).add_spec(self.j.mul_spec(self.j)))),
            },
        }
    }

    /// Half the angle that a rotation vector holds: half its magnitude.
    pub open spec fn half_angle_spec(input: Vec3<T>) -> T where
        T: Two + Mul<Output = T> + Add<Output = T> + Sub<Output = T> + Div<Output = T> + Abs + Sqrt<T> + Trig,
     {
        dot_spec(input, input).sqrt_spec().div_spec(T::two_spec())
    }

    /// Whether every operation of `from_euler_angles` is defined.
    pub open spec fn from_euler_angles_req(input: Vec3<T>) -> bool where
        T: Two + Mul<Output = T> + Add<Output = T> + Sub<Output = T> + Div<Output = T> + Abs + Sqrt<T> + Trig,
     {
        &&& dot_req(input, input)
        &&& T::obeys_div_spec()
        &&& dot_spec(input, input).sqrt_spec().div_req(T::two_spec())
        &&& T::obeys_mul_spec()
        &&& Self::half_angle_spec(input).sin_spec().mul_req(input.x)
        &&& Self::half_angle_spec(input).sin_spec().mul_req(input.y)
        &&& Self::half_angle_spec(input).sin_spec().mul_req(input.z)
    }

    /// The quaternion of a rotation vector: the cosine of half the angle, and the
    /// vector as it is, not normalized, times the sine of half the angle.
    pub open spec fn from_euler_angles_spec(input: Vec3<T>) -> Self where
        T: Two + Mul<Output = T> + Add<Output = T> + Sub<Output = T> + Div<Output = T> + Abs + Sqrt<T> + Trig,
     {
        Quaternion {
            r: Self::half_angle_spec(input).cos_spec(),
            i: Self::half_angle_spec(input).sin_spec().mul_spec(input.x),
            j: Self::half_angle_spec(input).sin_spec().mul_spec(input.y),
            k: Self::half_angle_spec(input).sin_spec().mul_spec(input.z),
        }
    }
}

impl<
    T: Copy + Zero + One + Two + Mul<Output = T> + Add<Output = T> + Div<Output = T> + Sub<Output = T> + Trig + Sqrt<
        T,
    > + Neg<Output = T> + Abs,
> Quaternion<T> {
    /// The quaternion one.
    pub fn ident() -> (r: Self)
        ensures
            r == Self::ident_spec(),
    {
        quaternion(T::one(), T::zero(), T::zero(), T::zero())
    }

    /// The square root of the sum of the squares of the parts.
    pub fn magnitude(self) -> (r: T)
        requires
            self.magnitude_squared_req(),
        ensures
            r == self.magnitude_squared_spec().sqrt_spec(),
    {
        (self.i * self.i + self.j * self.j + self.k * self.k + self.r * self.r).sqrt()
    }

    /// Divides the four parts by the magnitude. Nothing guards a magnitude of
    /// zero.
    pub fn normalize(self) -> (r: Self)
        requires
            self.normalize_req(),
        ensures
            r == self.normalize_spec(),
    {
        let mag = self.magnitude();
        Self { r: self.r / mag, i: self.i / mag, j: self.j / mag, k: self.k / mag }
    }

    /// Negates the real part and keeps the imaginary parts. Of a quaternion of
    /// magnitude one this is the negated conjugate, which stands for the inverse
    /// rotation as the conjugate does.
    pub fn inv(self) -> (r: Self)
        requires
            self.inv_req(),
        ensures
            r == self.inv_spec(),
    {
        Self { r: self.r.neg(), i: self.i, j: self.j, k: self.k }
    }

    /// The quaternion of the rotation vector `input`, whose direction is the axis
    /// and whose magnitude is the angle. The axis is not normalized.
    pub fn from_euler_angles(input: Vec3<T>) -> (r: Self)
        requires
            Self::from_euler_angles_req(input),
        ensures
            r == Self::from_euler_angles_spec(input),
    {
        let (factor, r) = (input.magnitude() / T::two()).sin_cos();
        let (i, j, k) = (factor * input.x, factor * input.y, factor * input.z);
        quaternion(r, i, j, k)
    }

    pub fn rot_mat(self) -> (r: Mat3<T>)
        requires
            self.rot_mat_req(),
        ensures
            r == self.rot_mat_spec(),
    {
        mat3(
            vec3(
                T::one() - T::two() * (self.j * self.j + self.k * self.k),
                T::two() * (self.i * self.j - self.r * self.k),
                T::two() * (self.i * self.k + self.r * self.j),
            ),
            vec3(
                T::two() * (self.i * self.j + self.r * self.k),
                T::one() - T::two() * (self.i * self.i + self.k * self.k),
                T::two() * (self.j * self.k - self.r * self.i),
            ),
            vec3(
                T::two() * (self.i * self.k - self.r * self.j),
                T::two() * (self.j * self.k + self.r * self.i),
                T::one() - T::two() * (self.i * self.i + self.j * self.j),
            ),
        )
    }
}

/// The default quaternion is one.
impl<
    T: Copy + Zero + One + Two + Mul<Output = T> + Add<Output = T> + Div<Output = T> + Sub<Output = T> + Trig + Sqrt<
        T,
    > + Neg<Output = T> + Abs,
> Default for Quaternion<T> {
    fn default() -> (r: Self)
        ensures
            r == Self::ident_spec(),
    {
        Quaternion::ident()
    }
}

impl<T: Copy + Zero + One + Mul<Output = T> + Add<Output = T> + Sub<Output = T>> Quaternion<T> {
    /// The product of the quaternions, folded from the left, starting from one.
    pub open spec fn product_spec(items: Seq<Self>) -> Self
        decreases items.len(),
    {
        if items.len() == 0 {
            Self::ident_spec()
        } else {
            Self::product_spec(items.drop_last()).mul_spec(items.last())
        }
    }

    /// Whether every operation of the fold is defined.
    pub open spec fn product_req(items: Seq<Self>) -> bool
        decreases items.len(),
    {
        items.len() > 0 ==> Self::product_req(items.drop_last()) && Self::product_spec(
            items.drop_last(),
        ).mul_req(items.last())
    }

    /// The product of a sequence of quaternions, in its order: the rotations of a
    /// chain, composed. One for the empty sequence.
    pub fn product(items: &[Self]) -> (r: Self)
        requires
            Self::product_req(items@),
        ensures
            r == Self::product_spec(items@),
    {
        let mut acc = quaternion(T::one(), T::zero(), T::zero(), T::zero());
        let mut i: usize = 0;
        while i < items.len()
            invariant
                i <= items.len(),
                Self::product_req(items@),
                acc == Self::product_spec(items@.take(i as int)),
            decreases items.len() - i,
        {
            proof {
                Self::lemma_product_prefix(items@, i as int + 1);
                assert(items@.take(i as int + 1).drop_last() == items@.take(i as int));
            }
            acc = acc * items[i];
            i = i + 1;
        }
        proof {
            assert(items@.take(i as int) == items@);
        }
        acc
    }

    /// A fold that is defined is defined on each of its prefixes.
    proof fn lemma_product_prefix(items: Seq<Self>, n: int)
        requires
            Self::product_req(items),
            0 <= n <= items.len(),
        ensures
            Self::product_req(items.take(n)),
        decreases items.len(),
    {
        if n < items.len() {
            Self::lemma_product_prefix(items.drop_last(), n);
            assert(items.drop_last().take(n) == items.take(n));
        } else {
            assert(items.take(n) == items);
        }
    }
}

impl<T> Quaternion<T> {
    /// The part at `index`: the real part at zero, then `i`, `j` and `k`.
    pub open spec fn component(self, index: int) -> T {
        if index == 0 {
            self.r
        } else if index == 1 {
            self.i
        } else if index == 2 {
            self.j
        } else {
            self.k
        }
    }

    /// The quaternion with `value` in place of the part at `index`.
    pub open spec fn with_component(self, index: int, value: T) -> Self {
        if index == 0 {
            Quaternion { r: value, i: self.i, j: self.j, k: self.k }
        } else if index == 1 {
            Quaternion { r: self.r, i: value, j: self.j, k: self.k }
        } else if index == 2 {
            Quaternion { r: self.r, i: self.i, j: value, k: self.k }
        } else {
            Quaternion { r: self.r, i: self.i, j: self.j, k: value }
        }
    }
}

/// Indexing by position; an index of 4 or more is left out by `index_req`.
impl<T> Index<usize> for Quaternion<T> {
    type Output = T;

    fn index(&self, index: usize) -> (r: &T)
        ensures
            *r == self.component(index as int),
    {
        match index {
            0 => &self.r,
            1 => &self.i,
            2 => &self.j,
            3 => &self.k,
            _ => vstd::pervasive::unreached(),
        }
    }
}

impl<T> vstd::std_specs::core::IndexSpecImpl<usize> for Quaternion<T> {
    open spec fn index_req(&self, index: &usize) -> bool {
        *index < 4
    }
}

impl<T> IndexMut<usize> for Quaternion<T> {
    fn index_mut(&mut self, index: usize) -> (r: &mut T)
        requires
            index < 4,
        ensures
            *r == old(self).component(index as int),
            *final(self) == old(self).with_component(index as int, *final(r)),
    {
        match index {
            0 => &mut self.r,
            1 => &mut self.i,
            2 => &mut self.j,
            3 => &mut self.k,
            _ => vstd::pervasive::unreached(),
        }
    }
}

impl<T> Quaternion<T> {
    /// The quaternion of the parsed parts, or the first error in their order.
    pub open spec fn from_parsed_spec<E>(r: Result<T, E>, i: Result<T, E>, j: Result<T, E>, k: Result<T, E>) -> Result<Self, E> {
        match r {
            Err(e) => Err(e),
            Ok(r) => {
                match i {
                    Err(e) => Err(e),
                    Ok(i) => {
                        match j {
                            Err(e) => Err(e),
                            Ok(j) => {
                                match k {
                                    Err(e) => Err(e),
                                    Ok(k) => {
                                        Ok(Quaternion { r, i, j, k })
                                    },
                                }
                            },
                        }
                    },
                }
            },
        }
    }

    /// Puts together what parsing each part gave: the first error in their
    /// order where one failed.
    pub fn from_parsed<E>(r: Result<T, E>, i: Result<T, E>, j: Result<T, E>, k: Result<T, E>) -> (out: Result<Self, E>)
        ensures
            out == Self::from_parsed_spec(r, i, j, k),
    {
        match r {
            Err(e) => Err(e),
            Ok(r) => {
                match i {
                    Err(e) => Err(e),
                    Ok(i) => {
                        match j {
                            Err(e) => Err(e),
                            Ok(j) => {
                                match k {
                                    Err(e) => Err(e),
                                    Ok(k) => {
                                        Ok(Quaternion { r, i, j, k })
                                    },
                                }
                            },
                        }
                    },
                }
            },
        }
    }

    /// Reads the text form: the first four numerals of `input`, each handed to
    /// `parse` in order until one fails. A numeral that is missing is handed over
    /// as the empty string, for `parse` to refuse.
    pub fn from_str_with<E, F: Fn(&str) -> Result<T, E>>(input: &str, parse: F) -> (out: Result<Self, E>)
        requires
            forall|s: &str| call_requires(parse, (s,)),
        ensures
            exists|r: Result<T, E>, i: Result<T, E>, j: Result<T, E>, k: Result<T, E>|
                #![trigger Self::from_parsed_spec(r, i, j, k)]
                {
                    &&& parses(parse, components_spec(input@, 4)[0], r)
                    &&& (r is Ok ==> parses(parse, components_spec(input@, 4)[1], i))
                    &&& (r is Ok && i is Ok ==> parses(parse, components_spec(input@, 4)[2], j))
                    &&& (r is Ok && i is Ok && j is Ok ==> parses(parse, components_spec(input@, 4)[3], k))
                    &&& out == Self::from_parsed_spec(r, i, j, k)
                },
    {
        let words = components(input, 4);
        proof {
            assert(views(words@)[0] == words@[0]@);
            assert(views(words@)[1] == words@[1]@);
            assert(views(words@)[2] == words@[2]@);
            assert(views(words@)[3] == words@[3]@);
        }
        let r = parse(words[0].as_str());
        match r {
            Err(e) => {
                proof {
                    assert(Self::from_parsed_spec::<E>(Err(e), Err(e), Err(e), Err(e)) == Err::<Self, E>(e));
                }
                Err(e)
            },
            Ok(r) => {
                let i = parse(words[1].as_str());
                match i {
                    Err(e) => {
                        proof {
                            assert(Self::from_parsed_spec::<E>(Ok(r), Err(e), Err(e), Err(e)) == Err::<Self, E>(e));
                        }
                        Err(e)
                    },
                    Ok(i) => {
                        let j = parse(words[2].as_str());
                        match j {
                            Err(e) => {
                                proof {
                                    assert(Self::from_parsed_spec::<E>(Ok(r), Ok(i), Err(e), Err(e)) == Err::<Self, E>(e));
                                }
                                Err(e)
                            },
                            Ok(j) => {
                                let k = parse(words[3].as_str());
                                match k {
                                    Err(e) => {
                                        proof {
                                            assert(Self::from_parsed_spec::<E>(Ok(r), Ok(i), Ok(j), Err(e)) == Err::<Self, E>(e));
                                        }
                                        Err(e)
                                    },
                                    Ok(k) => {
                                        proof {
                                            assert(Self::from_parsed_spec::<E>(Ok(r), Ok(i), Ok(j), Ok(k)) == Ok::<Self, E>(Quaternion { r, i, j, k }));
                                        }
                                        Ok(Quaternion { r, i, j, k })
                                    },
                                }
                            },
                        }
                    },
                }
            },
        }
    }
}

/// The parts, each rendered within `limit` characters, as a sum between
/// brackets: `(r + ii + jj + kk)`.
impl<T: NiceFmt> NiceFmt for Quaternion<T> {
    open spec fn nice_fmt_spec(&self, limit: usize, pad: bool) -> Seq<char> {
        seq!['('] + self.r.nice_fmt_spec(limit, pad) + seq![' ', '+', ' '] + self.i.nice_fmt_spec(
            limit,
            pad,
        ) + seq!['i', ' ', '+', ' '] + self.j.nice_fmt_spec(limit, pad) + seq!['j', ' ', '+', ' ']
            + self.k.nice_fmt_spec(limit, pad) + seq!['k', ')']
    }

    fn nice_fmt(&self, limit: usize, pad: bool) -> (r: String) {
        let mut s = String::new();
        proof {
            reveal_strlit("(");
            reveal_strlit(" + ");
            reveal_strlit("i + ");
            reveal_strlit("j + ");
            reveal_strlit("k)");
        }
        s.append("(");
        s.append(self.r.nice_fmt(limit, pad).as_str());
        s.append(" + ");
        s.append(self.i.nice_fmt(limit, pad).as_str());
        s.append("i + ");
        s.append(self.j.nice_fmt(limit, pad).as_str());
        s.append("j + ");
        s.append(self.k.nice_fmt(limit, pad).as_str());
        s.append("k)");
        proof {
            assert(s@ =~= self.nice_fmt_spec(limit, pad));
        }
        s
    }
}

} // verus!
