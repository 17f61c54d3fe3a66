//! Laws of the algebra, proved of every exact scalar.

pub mod ints;
pub mod mat2;
pub mod mat3;
pub mod mat4;
pub mod vectors;
pub mod quaternion;
