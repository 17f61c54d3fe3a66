//! Fixed-size vectors, square matrices and quaternions over a generic scalar,
//! with contracts that Verus proves.
//!
//! # Scalars
//!
//! The algebra is written once for every scalar. It asks of a scalar the
//! operators of `std::ops` and the capabilities of [`traits`]: the constants
//! zero, one and two, a half, a magnitude, a square root, trigonometry, and a
//! maximum and minimum that avoid what is not a number. The machine integers
//! have the constants, the half, the magnitude and the maximum here; floating
//! point is left to the user of the library, whose scalar types implement the
//! traits.
//!
//! # Contracts
//!
//! A contract cannot say what `a * b + c` is for a scalar that it does not
//! know. It says instead that the result is `a.mul_spec(b).add_spec(c)`: the
//! value that the scalar's own operators name for it. Each function `f` of the
//! algebra has two spec functions beside it. `f_spec` is the result, written
//! with the scalar's spec operators in the order in which `f` computes.
//! `f_req` holds where every operation on the way is defined; for a machine
//! integer that means that none overflows and none divides by zero. `f`
//! requires `f_req` and ensures that it returns `f_spec`.
//!
//! # Laws
//!
//! What holds of real numbers need not hold of a scalar: not of one that
//! rounds, and not of one that overflows. [`exact`] names the scalars that
//! behave as the integers do wherever their operations are defined, and
//! [`laws`] proves of them that the product of matrices is associative, that a
//! matrix times its inverse is the identity where the division is exact, that
//! the cross product of a vector with itself is zero, and how the product of
//! quaternions goes with the rotation matrix.
//!
//! # Text
//!
//! [`text`] reads the numerals of a vector from a string, and [`render`]
//! decides how a number is written within a width. [`convert`] converts the
//! components between the integer types.

pub mod traits;
pub mod terms;
pub mod text;
pub mod render;
pub mod vector;
pub mod vec2;
pub mod vec3;
pub mod vec4;
pub mod mat2;
pub mod mat4;
pub mod mat3;
pub mod quaternion;
pub mod convert;
pub mod exact;
pub mod laws;
