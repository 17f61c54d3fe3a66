//! Scalars whose arithmetic is that of the integers.
//!
//! The contracts of the algebra speak of a scalar's own `+`, `-`, `*` and `/`.
//! What holds of those for every scalar is little. For a scalar that stands for
//! an integer, and whose operations give the integer result wherever they are
//! defined, the laws of the integers carry over: this module says which scalars
//! those are, and proves it of the machine integers.

use vstd::prelude::*;
use vstd::std_specs::ops::AddSpec;
use vstd::std_specs::ops::DivSpec;
use vstd::std_specs::ops::MulSpec;
use vstd::std_specs::ops::NegSpec;
use vstd::std_specs::ops::SubSpec;
use std::ops::Add;
use std::ops::Div;
use std::ops::Mul;
use std::ops::Neg;
use std::ops::Sub;
use crate::traits::Abs;
use crate::traits::One;
use crate::traits::Two;
use crate::traits::Zero;

verus! {

/// A scalar that stands for an integer, `val`, and adds, subtracts and
/// multiplies as the integers do wherever the operation is defined. Its
/// division is exact where the divisor divides.
pub trait Exact: Copy + Zero + One + Two + Abs + Add<Output = Self> + Sub<Output = Self> + Mul<
    Output = Self,
> + Div<Output = Self> {
    /// The integer that the scalar stands for.
    spec fn val(self) -> int;

    /// The operators return what their spec functions say, two scalars that stand
    /// for one integer are one scalar, and the constants stand for 0, 1 and 2.
    proof fn lemma_scalar()
        ensures
            Self::obeys_add_spec(),
            Self::obeys_sub_spec(),
            Self::obeys_mul_spec(),
            Self::obeys_div_spec(),
            forall|a: Self, b: Self| a.val() == b.val() ==> a == b,
            Self::zero_spec().val() == 0,
            Self::one_spec().val() == 1,
            Self::two_spec().val() == 2,
    ;

    /// Where an operation is defined, it gives the integer result.
    proof fn lemma_ring()
        ensures
            forall|a: Self, b: Self| a.add_req(b) ==> #[trigger] a.add_spec(b).val() == a.val() + b.val(),
            forall|a: Self, b: Self| a.sub_req(b) ==> #[trigger] a.sub_spec(b).val() == a.val() - b.val(),
            forall|a: Self, b: Self| a.mul_req(b) ==> #[trigger] a.mul_spec(b).val() == a.val() * b.val(),
    ;

    /// Where a division is defined, the divisor is not zero; where it also
    /// divides, the quotient times the divisor is the dividend.
    proof fn lemma_div(a: Self, b: Self)
        requires
            a.div_req(b),
        ensures
            b.val() != 0,
            a.val() % b.val() == 0 ==> a.div_spec(b).val() * b.val() == a.val(),
    ;
}

/// An exact scalar with a negation that is the integers'.
pub trait ExactNeg: Exact + Neg<Output = Self> {
    proof fn lemma_neg()
        ensures
            Self::obeys_neg_spec(),
            forall|a: Self| a.neg_req() ==> #[trigger] a.neg_spec().val() == -a.val(),
    ;
}

/// A quotient that leaves no remainder, times the divisor, is the dividend,
/// whichever way the division rounds; it is no larger than the dividend, and as
/// large only where the divisor is one or minus one.
pub proof fn lemma_exact_quotient(a: int, b: int) -> (q: int)
    requires
        b != 0,
        a % b == 0,
    ensures
        q * b == a,
        a >= 0 ==> q == a / b,
        a < 0 ==> q == -((-a) / b),
        a >= 0 ==> -a <= q <= a,
        a < 0 ==> a <= q <= -a,
        q == -a && a != 0 ==> b == -1,
{
    vstd::arithmetic::div_mod::lemma_fundamental_div_mod(a, b);
    let q = if a >= 0 {
        a / b
    } else {
        vstd::arithmetic::div_mod::lemma_fundamental_div_mod(-a, b);
        lemma_neg_multiple(a, b);
        -((-a) / b)
    };
    assert(q * b == a) by (nonlinear_arith)
        requires
            a >= 0 ==> a == b * q,
            a < 0 ==> -a == b * (-q),
    ;
    assert(a >= 0 ==> -a <= q <= a) by (nonlinear_arith)
        requires
            q * b == a,
            b != 0,
    ;
    assert(a < 0 ==> a <= q <= -a) by (nonlinear_arith)
        requires
            q * b == a,
            b != 0,
    ;
    assert(q == -a && a != 0 ==> b == -1) by (nonlinear_arith)
        requires
            q * b == a,
    ;
    q
}

/// The negation of a multiple is a multiple.
proof fn lemma_neg_multiple(a: int, b: int)
    requires
        b != 0,
        a % b == 0,
    ensures
        (-a) % b == 0,
{
    vstd::arithmetic::div_mod::lemma_fundamental_div_mod(a, b);
    let q = a / b;
    assert(-a == b * (-q)) by (nonlinear_arith)
        requires
            a == b * q,
    ;
    assert((b * (-q)) % b == 0) by (nonlinear_arith)
        requires
            b != 0,
    ;
}

impl Exact for u8 {
    open spec fn val(self) -> int {
        self as int
    }

    proof fn lemma_scalar() {
    }

    proof fn lemma_ring() {
    }

    proof fn lemma_div(a: Self, b: Self) {
        if (a as int) % (b as int) == 0 {
            let q = lemma_exact_quotient(a as int, b as int);
        }
    }
}

impl Exact for u16 {
    open spec fn val(self) -> int {
        self as int
    }

    proof fn lemma_scalar() {
    }

    proof fn lemma_ring() {
    }

    proof fn lemma_div(a: Self, b: Self) {
        if (a as int) % (b as int) == 0 {
            let q = lemma_exact_quotient(a as int, b as int);
        }
    }
}

impl Exact for u32 {
    open spec fn val(self) -> int {
        self as int
    }

    proof fn lemma_scalar() {
    }

    proof fn lemma_ring() {
    }

    proof fn lemma_div(a: Self, b: Self) {
        if (a as int) % (b as int) == 0 {
            let q = lemma_exact_quotient(a as int, b as int);
        }
    }
}

impl Exact for u64 {
    open spec fn val(self) -> int {
        self as int
    }

    proof fn lemma_scalar() {
    }

    proof fn lemma_ring() {
    }

    proof fn lemma_div(a: Self, b: Self) {
        if (a as int) % (b as int) == 0 {
            let q = lemma_exact_quotient(a as int, b as int);
        }
    }
}

impl Exact for usize {
    open spec fn val(self) -> int {
        self as int
    }

    proof fn lemma_scalar() {
    }

    proof fn lemma_ring() {
    }

    proof fn lemma_div(a: Self, b: Self) {
        if (a as int) % (b as int) == 0 {
            let q = lemma_exact_quotient(a as int, b as int);
        }
    }
}

impl Exact for i8 {
    open spec fn val(self) -> int {
        self as int
    }

    proof fn lemma_scalar() {
    }

    proof fn lemma_ring() {
    }

    proof fn lemma_div(a: Self, b: Self) {
        if (a as int) % (b as int) == 0 {
            let q = lemma_exact_quotient(a as int, b as int);
        }
    }
}

impl ExactNeg for i8 {
    proof fn lemma_neg() {
    }
}

impl Exact for i16 {
    open spec fn val(self) -> int {
        self as int
    }

    proof fn lemma_scalar() {
    }

    proof fn lemma_ring() {
    }

    proof fn lemma_div(a: Self, b: Self) {
        if (a as int) % (b as int) == 0 {
            let q = lemma_exact_quotient(a as int, b as int);
        }
    }
}

impl ExactNeg for i16 {
    proof fn lemma_neg() {
    }
}

impl Exact for i32 {
    open spec fn val(self) -> int {
        self as int
    }

    proof fn lemma_scalar() {
    }

    proof fn lemma_ring() {
    }

    proof fn lemma_div(a: Self, b: Self) {
        if (a as int) % (b as int) == 0 {
            let q = lemma_exact_quotient(a as int, b as int);
        }
    }
}

impl ExactNeg for i32 {
    proof fn lemma_neg() {
    }
}

impl Exact for i64 {
    open spec fn val(self) -> int {
        self as int
    }

    proof fn lemma_scalar() {
    }

    proof fn lemma_ring() {
    }

    proof fn lemma_div(a: Self, b: Self) {
        if (a as int) % (b as int) == 0 {
            let q = lemma_exact_quotient(a as int, b as int);
        }
    }
}

impl ExactNeg for i64 {
    proof fn lemma_neg() {
    }
}

impl Exact for isize {
    open spec fn val(self) -> int {
        self as int
    }

    proof fn lemma_scalar() {
    }

    proof fn lemma_ring() {
    }

    proof fn lemma_div(a: Self, b: Self) {
        if (a as int) % (b as int) == 0 {
            let q = lemma_exact_quotient(a as int, b as int);
        }
    }
}

impl ExactNeg for isize {
    proof fn lemma_neg() {
    }
}

} // verus!
