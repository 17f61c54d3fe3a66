//! Identity-like constants and absolute value, one small trait each.
//!
//! Each trait names what its method returns with a spec function. The trait
//! leaves that function open; an impl says what it is, and proves the method
//! against it.

use vstd::prelude::*;

verus! {

/// The additive identity of a scalar type.
pub trait Zero: Sized {
    /// The value that [`Zero::zero`] returns.
    open spec fn zero_spec() -> Self {
        arbitrary()
    }

    fn zero() -> (r: Self)
        ensures
            r == Self::zero_spec(),
    ;
}

/// The multiplicative identity of a scalar type.
pub trait One: Sized {
    /// The value that [`One::one`] returns.
    open spec fn one_spec() -> Self {
        arbitrary()
    }

    fn one() -> (r: Self)
        ensures
            r == Self::one_spec(),
    ;
}

/// The scalar two, the divisor of a half.
pub trait Two: Sized {
    /// The value that [`Two::two`] returns.
    open spec fn two_spec() -> Self {
        arbitrary()
    }

    fn two() -> (r: Self)
        ensures
            r == Self::two_spec(),
    ;
}

/// Half of a scalar: exact where the scalar can hold it, and rounded toward
/// zero for an integer.
pub trait Half: Sized {
    /// The value that [`Half::half`] returns.
    open spec fn half_spec(self) -> Self {
        arbitrary()
    }

    fn half(self) -> (r: Self)
        ensures
            r == self.half_spec(),
    ;
}

/// Magnitude of a scalar, or of each component of a vector.
pub trait Abs: Sized {
    /// The value that [`Abs::abs`] returns.
    open spec fn abs_spec(self) -> Self {
        arbitrary()
    }

    fn abs(self) -> (r: Self)
        ensures
            r == self.abs_spec(),
    ;
}

impl Zero for u8 {
    open spec fn zero_spec() -> Self {
        0
    }

    fn zero() -> (r: Self) {
        0
    }
}

impl One for u8 {
    open spec fn one_spec() -> Self {
        1
    }

    fn one() -> (r: Self) {
        1
    }
}

impl Two for u8 {
    open spec fn two_spec() -> Self {
        2
    }

    fn two() -> (r: Self) {
        2
    }
}

impl Half for u8 {
    open spec fn half_spec(self) -> Self {
        self / 2
    }

    fn half(self) -> (r: Self) {
        self / 2
    }
}

/// An unsigned value is its own magnitude.
impl Abs for u8 {
    open spec fn abs_spec(self) -> Self {
        self
    }

    fn abs(self) -> (r: Self) {
        self
    }
}

impl Zero for u16 {
    open spec fn zero_spec() -> Self {
        0
    }

    fn zero() -> (r: Self) {
        0
    }
}

impl One for u16 {
    open spec fn one_spec() -> Self {
        1
    }

    fn one() -> (r: Self) {
        1
    }
}

impl Two for u16 {
    open spec fn two_spec() -> Self {
        2
    }

    fn two() -> (r: Self) {
        2
    }
}

impl Half for u16 {
    open spec fn half_spec(self) -> Self {
        self / 2
    }

    fn half(self) -> (r: Self) {
        self / 2
    }
}

/// An unsigned value is its own magnitude.
impl Abs for u16 {
    open spec fn abs_spec(self) -> Self {
        self
    }

    fn abs(self) -> (r: Self) {
        self
    }
}

impl Zero for u32 {
    open spec fn zero_spec() -> Self {
        0
    }

    fn zero() -> (r: Self) {
        0
    }
}

impl One for u32 {
    open spec fn one_spec() -> Self {
        1
    }

    fn one() -> (r: Self) {
        1
    }
}

impl Two for u32 {
    open spec fn two_spec() -> Self {
        2
    }

    fn two() -> (r: Self) {
        2
    }
}

impl Half for u32 {
    open spec fn half_spec(self) -> Self {
        self / 2
    }

    fn half(self) -> (r: Self) {
        self / 2
    }
}

/// An unsigned value is its own magnitude.
impl Abs for u32 {
    open spec fn abs_spec(self) -> Self {
        self
    }

    fn abs(self) -> (r: Self) {
        self
    }
}

impl Zero for u64 {
    open spec fn zero_spec() -> Self {
        0
    }

    fn zero() -> (r: Self) {
        0
    }
}

impl One for u64 {
    open spec fn one_spec() -> Self {
        1
    }

    fn one() -> (r: Self) {
        1
    }
}

impl Two for u64 {
    open spec fn two_spec() -> Self {
        2
    }

    fn two() -> (r: Self) {
        2
    }
}

impl Half for u64 {
    open spec fn half_spec(self) -> Self {
        self / 2
    }

    fn half(self) -> (r: Self) {
        self / 2
    }
}

/// An unsigned value is its own magnitude.
impl Abs for u64 {
    open spec fn abs_spec(self) -> Self {
        self
    }

    fn abs(self) -> (r: Self) {
        self
    }
}

impl Zero for usize {
    open spec fn zero_spec() -> Self {
        0
    }

    fn zero() -> (r: Self) {
        0
    }
}

impl One for usize {
    open spec fn one_spec() -> Self {
        1
    }

    fn one() -> (r: Self) {
        1
    }
}

impl Two for usize {
    open spec fn two_spec() -> Self {
        2
    }

    fn two() -> (r: Self) {
        2
    }
}

impl Half for usize {
    open spec fn half_spec(self) -> Self {
        self / 2
    }

    fn half(self) -> (r: Self) {
        self / 2
    }
}

/// An unsigned value is its own magnitude.
impl Abs for usize {
    open spec fn abs_spec(self) -> Self {
        self
    }

    fn abs(self) -> (r: Self) {
        self
    }
}

impl Zero for i8 {
    open spec fn zero_spec() -> Self {
        0
    }

    fn zero() -> (r: Self) {
        0
    }
}

impl One for i8 {
    open spec fn one_spec() -> Self {
        1
    }

    fn one() -> (r: Self) {
        1
    }
}

impl Two for i8 {
    open spec fn two_spec() -> Self {
        2
    }

    fn two() -> (r: Self) {
        2
    }
}

/// Half of a negative integer is rounded up, toward zero.
impl Half for i8 {
    open spec fn half_spec(self) -> Self {
        if self >= 0 {
            (self / 2) as i8
        } else {
            (-((-self) / 2)) as i8
        }
    }

    fn half(self) -> (r: Self) {
        self / 2
    }
}

/// The magnitude wraps at the least value, whose negation the type cannot hold.
impl Abs for i8 {
    open spec fn abs_spec(self) -> Self {
        if self >= 0 || self == i8::MIN {
            self
        } else {
            (-self) as i8
        }
    }

    fn abs(self) -> (r: Self) {
        if self >= 0 || self == i8::MIN {
            self
        } else {
            -self
        }
    }
}

impl Zero for i16 {
    open spec fn zero_spec() -> Self {
        0
    }

    fn zero() -> (r: Self) {
        0
    }
}

impl One for i16 {
    open spec fn one_spec() -> Self {
        1
    }

    fn one() -> (r: Self) {
        1
    }
}

impl Two for i16 {
    open spec fn two_spec() -> Self {
        2
    }

    fn two() -> (r: Self) {
        2
    }
}

/// Half of a negative integer is rounded up, toward zero.
impl Half for i16 {
    open spec fn half_spec(self) -> Self {
        if self >= 0 {
            (self / 2) as i16
        } else {
            (-((-self) / 2)) as i16
        }
    }

    fn half(self) -> (r: Self) {
        self / 2
    }
}

/// The magnitude wraps at the least value, whose negation the type cannot hold.
impl Abs for i16 {
    open spec fn abs_spec(self) -> Self {
        if self >= 0 || self == i16::MIN {
            self
        } else {
            (-self) as i16
        }
    }

    fn abs(self) -> (r: Self) {
        if self >= 0 || self == i16::MIN {
            self
        } else {
            -self
        }
    }
}

impl Zero for i32 {
    open spec fn zero_spec() -> Self {
        0
    }

    fn zero() -> (r: Self) {
        0
    }
}

impl One for i32 {
    open spec fn one_spec() -> Self {
        1
    }

    fn one() -> (r: Self) {
        1
    }
}

impl Two for i32 {
    open spec fn two_spec() -> Self {
        2
    }

    fn two() -> (r: Self) {
        2
    }
}

/// Half of a negative integer is rounded up, toward zero.
impl Half for i32 {
    open spec fn half_spec(self) -> Self {
        if self >= 0 {
            (self / 2) as i32
        } else {
            (-((-self) / 2)) as i32
        }
    }

    fn half(self) -> (r: Self) {
        self / 2
    }
}

/// The magnitude wraps at the least value, whose negation the type cannot hold.
impl Abs for i32 {
    open spec fn abs_spec(self) -> Self {
        if self >= 0 || self == i32::MIN {
            self
        } else {
            (-self) as i32
        }
    }

    fn abs(self) -> (r: Self) {
        if self >= 0 || self == i32::MIN {
            self
        } else {
            -self
        }
    }
}

impl Zero for i64 {
    open spec fn zero_spec() -> Self {
        0
    }

    fn zero() -> (r: Self) {
        0
    }
}

impl One for i64 {
    open spec fn one_spec() -> Self {
        1
    }

    fn one() -> (r: Self) {
        1
    }
}

impl Two for i64 {
    open spec fn two_spec() -> Self {
        2
    }

    fn two() -> (r: Self) {
        2
    }
}

/// Half of a negative integer is rounded up, toward zero.
impl Half for i64 {
    open spec fn half_spec(self) -> Self {
        if self >= 0 {
            (self / 2) as i64
        } else {
            (-((-self) / 2)) as i64
        }
    }

    fn half(self) -> (r: Self) {
        self / 2
    }
}

/// The magnitude wraps at the least value, whose negation the type cannot hold.
impl Abs for i64 {
    open spec fn abs_spec(self) -> Self {
        if self >= 0 || self == i64::MIN {
            self
        } else {
            (-self) as i64
        }
    }

    fn abs(self) -> (r: Self) {
        if self >= 0 || self == i64::MIN {
            self
        } else {
            -self
        }
    }
}

impl Zero for isize {
    open spec fn zero_spec() -> Self {
        0
    }

    fn zero() -> (r: Self) {
        0
    }
}

impl One for isize {
    open spec fn one_spec() -> Self {
        1
    }

    fn one() -> (r: Self) {
        1
    }
}

impl Two for isize {
    open spec fn two_spec() -> Self {
        2
    }

    fn two() -> (r: Self) {
        2
    }
}

/// Half of a negative integer is rounded up, toward zero.
impl Half for isize {
    open spec fn half_spec(self) -> Self {
        if self >= 0 {
            (self / 2) as isize
        } else {
            (-((-self) / 2)) as isize
        }
    }

    fn half(self) -> (r: Self) {
        self / 2
    }
}

/// The magnitude wraps at the least value, whose negation the type cannot hold.
impl Abs for isize {
    open spec fn abs_spec(self) -> Self {
        if self >= 0 || self == isize::MIN {
            self
        } else {
            (-self) as isize
        }
    }

    fn abs(self) -> (r: Self) {
        if self >= 0 || self == isize::MIN {
            self
        } else {
            -self
        }
    }
}

/// The sign of an integer: -1, 0 or 1.
pub open spec fn sign_of(n: int) -> int {
    if n > 0 {
        1
    } else if n < 0 {
        -1
    } else {
        0
    }
}

/// For masks, zero is `false`.
impl Zero for bool {
    open spec fn zero_spec() -> Self {
        false
    }

    fn zero() -> (r: Self) {
        false
    }
}

/// For masks, one is `true`.
impl One for bool {
    open spec fn one_spec() -> Self {
        true
    }

    fn one() -> (r: Self) {
        true
    }
}

} // verus!
