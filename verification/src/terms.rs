//! Products and signed sums of scalars, each taken from the left as the
//! expression `a * b * c + ..` is.
//!
//! A determinant or a cofactor is a signed sum of products. Its contract names
//! the value with these functions, and with the `_req` twin of each says that
//! every operation on the way is defined: for an integer, that none overflows.

use vstd::prelude::*;
use vstd::std_specs::ops::AddSpec;
use vstd::std_specs::ops::MulSpec;
use vstd::std_specs::ops::SubSpec;
use std::ops::Add;
use std::ops::Mul;
use std::ops::Sub;

verus! {

/// `a * b - c * d`.
pub open spec fn cross2<T: Mul<Output = T> + Sub<Output = T>>(a: T, b: T, c: T, d: T) -> T {
    a.mul_spec(b).sub_spec(c.mul_spec(d))
}

/// Whether every operation of `a * b - c * d` is defined.
pub open spec fn cross2_req<T: Mul<Output = T> + Sub<Output = T>>(a: T, b: T, c: T, d: T) -> bool {
    &&& a.mul_req(b)
    &&& c.mul_req(d)
    &&& a.mul_spec(b).sub_req(c.mul_spec(d))
}

/// `a * b * c`.
pub open spec fn mul3<T: Mul<Output = T>>(a: T, b: T, c: T) -> T {
    a.mul_spec(b).mul_spec(c)
}

/// Whether both multiplications of `a * b * c` are defined.
pub open spec fn mul3_req<T: Mul<Output = T>>(a: T, b: T, c: T) -> bool {
    &&& a.mul_req(b)
    &&& a.mul_spec(b).mul_req(c)
}

/// `a * b * c * d`.
pub open spec fn mul4<T: Mul<Output = T>>(a: T, b: T, c: T, d: T) -> T {
    a.mul_spec(b).mul_spec(c).mul_spec(d)
}

/// Whether the three multiplications of `a * b * c * d` are defined.
pub open spec fn mul4_req<T: Mul<Output = T>>(a: T, b: T, c: T, d: T) -> bool {
    &&& a.mul_req(b)
    &&& a.mul_spec(b).mul_req(c)
    &&& a.mul_spec(b).mul_spec(c).mul_req(d)
}

/// `a + b + c - d - e - f`.
pub open spec fn net6<T: Add<Output = T> + Sub<Output = T>>(a: T, b: T, c: T, d: T, e: T, f: T) -> T {
    a.add_spec(b).add_spec(c).sub_spec(d).sub_spec(e).sub_spec(f)
}

/// Whether every operation of `a + b + c - d - e - f` is defined.
pub open spec fn net6_req<T: Add<Output = T> + Sub<Output = T>>(
    a: T,
    b: T,
    c: T,
    d: T,
    e: T,
    f: T,
) -> bool {
    &&& a.add_req(b)
    &&& a.add_spec(b).add_req(c)
    &&& a.add_spec(b).add_spec(c).sub_req(d)
    &&& a.add_spec(b).add_spec(c).sub_spec(d).sub_req(e)
    &&& a.add_spec(b).add_spec(c).sub_spec(d).sub_spec(e).sub_req(f)
}

/// Whether the scalar's `+`, `-` and `*` return what their spec functions say.
pub open spec fn obeys_ring<T: Add<Output = T> + Sub<Output = T> + Mul<Output = T>>() -> bool {
    &&& T::obeys_add_spec()
    &&& T::obeys_sub_spec()
    &&& T::obeys_mul_spec()
}

} // verus!
