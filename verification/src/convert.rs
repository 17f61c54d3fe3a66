//! Conversions of every component to another integer type, as `as` converts:
//! the value where the type can hold it, and its low bits where not.

use vstd::prelude::*;
use crate::mat2::Mat2;
use crate::mat3::Mat3;
use crate::mat4::Mat4;
use crate::quaternion::Quaternion;
use crate::vec2::Vec2;
use crate::vec3::Vec3;
use crate::vec4::Vec4;

verus! {

/// A scalar that converts into `U`.
pub trait CastTo<U>: Sized {
    /// The value that [`CastTo::cast_to`] returns. The trait leaves it open; an
    /// impl says what it is.
    open spec fn cast_to_spec(self) -> U {
        arbitrary()
    }

    fn cast_to(self) -> (r: U)
        ensures
            r == self.cast_to_spec(),
    ;
}

impl CastTo<u8> for u8 {
    open spec fn cast_to_spec(self) -> u8 {
        self
    }

    fn cast_to(self) -> (r: u8) {
        self
    }
}

impl CastTo<u16> for u8 {
    open spec fn cast_to_spec(self) -> u16 {
        self as u16
    }

    fn cast_to(self) -> (r: u16) {
        #[verifier::truncate]
        (self as u16)
    }
}

impl CastTo<u32> for u8 {
    open spec fn cast_to_spec(self) -> u32 {
        self as u32
    }

    fn cast_to(self) -> (r: u32) {
        #[verifier::truncate]
        (self as u32)
    }
}

impl CastTo<u64> for u8 {
    open spec fn cast_to_spec(self) -> u64 {
        self as u64
    }

    fn cast_to(self) -> (r: u64) {
        #[verifier::truncate]
        (self as u64)
    }
}

impl CastTo<usize> for u8 {
    open spec fn cast_to_spec(self) -> usize {
        self as usize
    }

    fn cast_to(self) -> (r: usize) {
        #[verifier::truncate]
        (self as usize)
    }
}

impl CastTo<i8> for u8 {
    open spec fn cast_to_spec(self) -> i8 {
        self as i8
    }

    fn cast_to(self) -> (r: i8) {
        #[verifier::truncate]
        (self as i8)
    }
}

impl CastTo<i16> for u8 {
    open spec fn cast_to_spec(self) -> i16 {
        self as i16
    }

    fn cast_to(self) -> (r: i16) {
        #[verifier::truncate]
        (self as i16)
    }
}

impl CastTo<i32> for u8 {
    open spec fn cast_to_spec(self) -> i32 {
        self as i32
    }

    fn cast_to(self) -> (r: i32) {
        #[verifier::truncate]
        (self as i32)
    }
}

impl CastTo<i64> for u8 {
    open spec fn cast_to_spec(self) -> i64 {
        self as i64
    }

    fn cast_to(self) -> (r: i64) {
        #[verifier::truncate]
        (self as i64)
    }
}

impl CastTo<isize> for u8 {
    open spec fn cast_to_spec(self) -> isize {
        self as isize
    }

    fn cast_to(self) -> (r: isize) {
        #[verifier::truncate]
        (self as isize)
    }
}

impl CastTo<u8> for u16 {
    open spec fn cast_to_spec(self) -> u8 {
        self as u8
    }

    fn cast_to(self) -> (r: u8) {
        #[verifier::truncate]
        (self as u8)
    }
}

impl CastTo<u16> for u16 {
    open spec fn cast_to_spec(self) -> u16 {
        self
    }

    fn cast_to(self) -> (r: u16) {
        self
    }
}

impl CastTo<u32> for u16 {
    open spec fn cast_to_spec(self) -> u32 {
        self as u32
    }

    fn cast_to(self) -> (r: u32) {
        #[verifier::truncate]
        (self as u32)
    }
}

impl CastTo<u64> for u16 {
    open spec fn cast_to_spec(self) -> u64 {
        self as u64
    }

    fn cast_to(self) -> (r: u64) {
        #[verifier::truncate]
        (self as u64)
    }
}

impl CastTo<usize> for u16 {
    open spec fn cast_to_spec(self) -> usize {
        self as usize
    }

    fn cast_to(self) -> (r: usize) {
        #[verifier::truncate]
        (self as usize)
    }
}

impl CastTo<i8> for u16 {
    open spec fn cast_to_spec(self) -> i8 {
        self as i8
    }

    fn cast_to(self) -> (r: i8) {
        #[verifier::truncate]
        (self as i8)
    }
}

impl CastTo<i16> for u16 {
    open spec fn cast_to_spec(self) -> i16 {
        self as i16
    }

    fn cast_to(self) -> (r: i16) {
        #[verifier::truncate]
        (self as i16)
    }
}

impl CastTo<i32> for u16 {
    open spec fn cast_to_spec(self) -> i32 {
        self as i32
    }

    fn cast_to(self) -> (r: i32) {
        #[verifier::truncate]
        (self as i32)
    }
}

impl CastTo<i64> for u16 {
    open spec fn cast_to_spec(self) -> i64 {
        self as i64
    }

    fn cast_to(self) -> (r: i64) {
        #[verifier::truncate]
        (self as i64)
    }
}

impl CastTo<isize> for u16 {
    open spec fn cast_to_spec(self) -> isize {
        self as isize
    }

    fn cast_to(self) -> (r: isize) {
        #[verifier::truncate]
        (self as isize)
    }
}

impl CastTo<u8> for u32 {
    open spec fn cast_to_spec(self) -> u8 {
        self as u8
    }

    fn cast_to(self) -> (r: u8) {
        #[verifier::truncate]
        (self as u8)
    }
}

impl CastTo<u16> for u32 {
    open spec fn cast_to_spec(self) -> u16 {
        self as u16
    }

    fn cast_to(self) -> (r: u16) {
        #[verifier::truncate]
        (self as u16)
    }
}

impl CastTo<u32> for u32 {
    open spec fn cast_to_spec(self) -> u32 {
        self
    }

    fn cast_to(self) -> (r: u32) {
        self
    }
}

impl CastTo<u64> for u32 {
    open spec fn cast_to_spec(self) -> u64 {
        self as u64
    }

    fn cast_to(self) -> (r: u64) {
        #[verifier::truncate]
        (self as u64)
    }
}

impl CastTo<usize> for u32 {
    open spec fn cast_to_spec(self) -> usize {
        self as usize
    }

    fn cast_to(self) -> (r: usize) {
        #[verifier::truncate]
        (self as usize)
    }
}

impl CastTo<i8> for u32 {
    open spec fn cast_to_spec(self) -> i8 {
        self as i8
    }

    fn cast_to(self) -> (r: i8) {
        #[verifier::truncate]
        (self as i8)
    }
}

impl CastTo<i16> for u32 {
    open spec fn cast_to_spec(self) -> i16 {
        self as i16
    }

    fn cast_to(self) -> (r: i16) {
        #[verifier::truncate]
        (self as i16)
    }
}

impl CastTo<i32> for u32 {
    open spec fn cast_to_spec(self) -> i32 {
        self as i32
    }

    fn cast_to(self) -> (r: i32) {
        #[verifier::truncate]
        (self as i32)
    }
}

impl CastTo<i64> for u32 {
    open spec fn cast_to_spec(self) -> i64 {
        self as i64
    }

    fn cast_to(self) -> (r: i64) {
        #[verifier::truncate]
        (self as i64)
    }
}

impl CastTo<isize> for u32 {
    open spec fn cast_to_spec(self) -> isize {
        self as isize
    }

    fn cast_to(self) -> (r: isize) {
        #[verifier::truncate]
        (self as isize)
    }
}

impl CastTo<u8> for u64 {
    open spec fn cast_to_spec(self) -> u8 {
        self as u8
    }

    fn cast_to(self) -> (r: u8) {
        #[verifier::truncate]
        (self as u8)
    }
}

impl CastTo<u16> for u64 {
    open spec fn cast_to_spec(self) -> u16 {
        self as u16
    }

    fn cast_to(self) -> (r: u16) {
        #[verifier::truncate]
        (self as u16)
    }
}

impl CastTo<u32> for u64 {
    open spec fn cast_to_spec(self) -> u32 {
        self as u32
    }

    fn cast_to(self) -> (r: u32) {
        #[verifier::truncate]
        (self as u32)
    }
}

impl CastTo<u64> for u64 {
    open spec fn cast_to_spec(self) -> u64 {
        self
    }

    fn cast_to(self) -> (r: u64) {
        self
    }
}

impl CastTo<usize> for u64 {
    open spec fn cast_to_spec(self) -> usize {
        self as usize
    }

    fn cast_to(self) -> (r: usize) {
        #[verifier::truncate]
        (self as usize)
    }
}

impl CastTo<i8> for u64 {
    open spec fn cast_to_spec(self) -> i8 {
        self as i8
    }

    fn cast_to(self) -> (r: i8) {
        #[verifier::truncate]
        (self as i8)
    }
}

impl CastTo<i16> for u64 {
    open spec fn cast_to_spec(self) -> i16 {
        self as i16
    }

    fn cast_to(self) -> (r: i16) {
        #[verifier::truncate]
        (self as i16)
    }
}

impl CastTo<i32> for u64 {
    open spec fn cast_to_spec(self) -> i32 {
        self as i32
    }

    fn cast_to(self) -> (r: i32) {
        #[verifier::truncate]
        (self as i32)
    }
}

impl CastTo<i64> for u64 {
    open spec fn cast_to_spec(self) -> i64 {
        self as i64
    }

    fn cast_to(self) -> (r: i64) {
        #[verifier::truncate]
        (self as i64)
    }
}

impl CastTo<isize> for u64 {
    open spec fn cast_to_spec(self) -> isize {
        self as isize
    }

    fn cast_to(self) -> (r: isize) {
        #[verifier::truncate]
        (self as isize)
    }
}

impl CastTo<u8> for usize {
    open spec fn cast_to_spec(self) -> u8 {
        self as u8
    }

    fn cast_to(self) -> (r: u8) {
        #[verifier::truncate]
        (self as u8)
    }
}

impl CastTo<u16> for usize {
    open spec fn cast_to_spec(self) -> u16 {
        self as u16
    }

    fn cast_to(self) -> (r: u16) {
        #[verifier::truncate]
        (self as u16)
    }
}

impl CastTo<u32> for usize {
    open spec fn cast_to_spec(self) -> u32 {
        self as u32
    }

    fn cast_to(self) -> (r: u32) {
        #[verifier::truncate]
        (self as u32)
    }
}

impl CastTo<u64> for usize {
    open spec fn cast_to_spec(self) -> u64 {
        self as u64
    }

    fn cast_to(self) -> (r: u64) {
        #[verifier::truncate]
        (self as u64)
    }
}

impl CastTo<usize> for usize {
    open spec fn cast_to_spec(self) -> usize {
        self
    }

    fn cast_to(self) -> (r: usize) {
        self
    }
}

impl CastTo<i8> for usize {
    open spec fn cast_to_spec(self) -> i8 {
        self as i8
    }

    fn cast_to(self) -> (r: i8) {
        #[verifier::truncate]
        (self as i8)
    }
}

impl CastTo<i16> for usize {
    open spec fn cast_to_spec(self) -> i16 {
        self as i16
    }

    fn cast_to(self) -> (r: i16) {
        #[verifier::truncate]
        (self as i16)
    }
}

impl CastTo<i32> for usize {
    open spec fn cast_to_spec(self) -> i32 {
        self as i32
    }

    fn cast_to(self) -> (r: i32) {
        #[verifier::truncate]
        (self as i32)
    }
}

impl CastTo<i64> for usize {
    open spec fn cast_to_spec(self) -> i64 {
        self as i64
    }

    fn cast_to(self) -> (r: i64) {
        #[verifier::truncate]
        (self as i64)
    }
}

impl CastTo<isize> for usize {
    open spec fn cast_to_spec(self) -> isize {
        self as isize
    }

    fn cast_to(self) -> (r: isize) {
        #[verifier::truncate]
        (self as isize)
    }
}

impl CastTo<u8> for i8 {
    open spec fn cast_to_spec(self) -> u8 {
        self as u8
    }

    fn cast_to(self) -> (r: u8) {
        #[verifier::truncate]
        (self as u8)
    }
}

impl CastTo<u16> for i8 {
    open spec fn cast_to_spec(self) -> u16 {
        self as u16
    }

    fn cast_to(self) -> (r: u16) {
        #[verifier::truncate]
        (self as u16)
    }
}

impl CastTo<u32> for i8 {
    open spec fn cast_to_spec(self) -> u32 {
        self as u32
    }

    fn cast_to(self) -> (r: u32) {
        #[verifier::truncate]
        (self as u32)
    }
}

impl CastTo<u64> for i8 {
    open spec fn cast_to_spec(self) -> u64 {
        self as u64
    }

    fn cast_to(self) -> (r: u64) {
        #[verifier::truncate]
        (self as u64)
    }
}

impl CastTo<usize> for i8 {
    open spec fn cast_to_spec(self) -> usize {
        self as usize
    }

    fn cast_to(self) -> (r: usize) {
        #[verifier::truncate]
        (self as usize)
    }
}

impl CastTo<i8> for i8 {
    open spec fn cast_to_spec(self) -> i8 {
        self
    }

    fn cast_to(self) -> (r: i8) {
        self
    }
}

impl CastTo<i16> for i8 {
    open spec fn cast_to_spec(self) -> i16 {
        self as i16
    }

    fn cast_to(self) -> (r: i16) {
        #[verifier::truncate]
        (self as i16)
    }
}

impl CastTo<i32> for i8 {
    open spec fn cast_to_spec(self) -> i32 {
        self as i32
    }

    fn cast_to(self) -> (r: i32) {
        #[verifier::truncate]
        (self as i32)
    }
}

impl CastTo<i64> for i8 {
    open spec fn cast_to_spec(self) -> i64 {
        self as i64
    }

    fn cast_to(self) -> (r: i64) {
        #[verifier::truncate]
        (self as i64)
    }
}

impl CastTo<isize> for i8 {
    open spec fn cast_to_spec(self) -> isize {
        self as isize
    }

    fn cast_to(self) -> (r: isize) {
        #[verifier::truncate]
        (self as isize)
    }
}

impl CastTo<u8> for i16 {
    open spec fn cast_to_spec(self) -> u8 {
        self as u8
    }

    fn cast_to(self) -> (r: u8) {
        #[verifier::truncate]
        (self as u8)
    }
}

impl CastTo<u16> for i16 {
    open spec fn cast_to_spec(self) -> u16 {
        self as u16
    }

    fn cast_to(self) -> (r: u16) {
        #[verifier::truncate]
        (self as u16)
    }
}

impl CastTo<u32> for i16 {
    open spec fn cast_to_spec(self) -> u32 {
        self as u32
    }

    fn cast_to(self) -> (r: u32) {
        #[verifier::truncate]
        (self as u32)
    }
}

impl CastTo<u64> for i16 {
    open spec fn cast_to_spec(self) -> u64 {
        self as u64
    }

    fn cast_to(self) -> (r: u64) {
        #[verifier::truncate]
        (self as u64)
    }
}

impl CastTo<usize> for i16 {
    open spec fn cast_to_spec(self) -> usize {
        self as usize
    }

    fn cast_to(self) -> (r: usize) {
        #[verifier::truncate]
        (self as usize)
    }
}

impl CastTo<i8> for i16 {
    open spec fn cast_to_spec(self) -> i8 {
        self as i8
    }

    fn cast_to(self) -> (r: i8) {
        #[verifier::truncate]
        (self as i8)
    }
}

impl CastTo<i16> for i16 {
    open spec fn cast_to_spec(self) -> i16 {
        self
    }

    fn cast_to(self) -> (r: i16) {
        self
    }
}

impl CastTo<i32> for i16 {
    open spec fn cast_to_spec(self) -> i32 {
        self as i32
    }

    fn cast_to(self) -> (r: i32) {
        #[verifier::truncate]
        (self as i32)
    }
}

impl CastTo<i64> for i16 {
    open spec fn cast_to_spec(self) -> i64 {
        self as i64
    }

    fn cast_to(self) -> (r: i64) {
        #[verifier::truncate]
        (self as i64)
    }
}

impl CastTo<isize> for i16 {
    open spec fn cast_to_spec(self) -> isize {
        self as isize
    }

    fn cast_to(self) -> (r: isize) {
        #[verifier::truncate]
        (self as isize)
    }
}

impl CastTo<u8> for i32 {
    open spec fn cast_to_spec(self) -> u8 {
        self as u8
    }

    fn cast_to(self) -> (r: u8) {
        #[verifier::truncate]
        (self as u8)
    }
}

impl CastTo<u16> for i32 {
    open spec fn cast_to_spec(self) -> u16 {
        self as u16
    }

    fn cast_to(self) -> (r: u16) {
        #[verifier::truncate]
        (self as u16)
    }
}

impl CastTo<u32> for i32 {
    open spec fn cast_to_spec(self) -> u32 {
        self as u32
    }

    fn cast_to(self) -> (r: u32) {
        #[verifier::truncate]
        (self as u32)
    }
}

impl CastTo<u64> for i32 {
    open spec fn cast_to_spec(self) -> u64 {
        self as u64
    }

    fn cast_to(self) -> (r: u64) {
        #[verifier::truncate]
        (self as u64)
    }
}

impl CastTo<usize> for i32 {
    open spec fn cast_to_spec(self) -> usize {
        self as usize
    }

    fn cast_to(self) -> (r: usize) {
        #[verifier::truncate]
        (self as usize)
    }
}

impl CastTo<i8> for i32 {
    open spec fn cast_to_spec(self) -> i8 {
        self as i8
    }

    fn cast_to(self) -> (r: i8) {
        #[verifier::truncate]
        (self as i8)
    }
}

impl CastTo<i16> for i32 {
    open spec fn cast_to_spec(self) -> i16 {
        self as i16
    }

    fn cast_to(self) -> (r: i16) {
        #[verifier::truncate]
        (self as i16)
    }
}

impl CastTo<i32> for i32 {
    open spec fn cast_to_spec(self) -> i32 {
        self
    }

    fn cast_to(self) -> (r: i32) {
        self
    }
}

impl CastTo<i64> for i32 {
    open spec fn cast_to_spec(self) -> i64 {
        self as i64
    }

    fn cast_to(self) -> (r: i64) {
        #[verifier::truncate]
        (self as i64)
    }
}

impl CastTo<isize> for i32 {
    open spec fn cast_to_spec(self) -> isize {
        self as isize
    }

    fn cast_to(self) -> (r: isize) {
        #[verifier::truncate]
        (self as isize)
    }
}

impl CastTo<u8> for i64 {
    open spec fn cast_to_spec(self) -> u8 {
        self as u8
    }

    fn cast_to(self) -> (r: u8) {
        #[verifier::truncate]
        (self as u8)
    }
}

impl CastTo<u16> for i64 {
    open spec fn cast_to_spec(self) -> u16 {
        self as u16
    }

    fn cast_to(self) -> (r: u16) {
        #[verifier::truncate]
        (self as u16)
    }
}

impl CastTo<u32> for i64 {
    open spec fn cast_to_spec(self) -> u32 {
        self as u32
    }

    fn cast_to(self) -> (r: u32) {
        #[verifier::truncate]
        (self as u32)
    }
}

impl CastTo<u64> for i64 {
    open spec fn cast_to_spec(self) -> u64 {
        self as u64
    }

    fn cast_to(self) -> (r: u64) {
        #[verifier::truncate]
        (self as u64)
    }
}

impl CastTo<usize> for i64 {
    open spec fn cast_to_spec(self) -> usize {
        self as usize
    }

    fn cast_to(self) -> (r: usize) {
        #[verifier::truncate]
        (self as usize)
    }
}

impl CastTo<i8> for i64 {
    open spec fn cast_to_spec(self) -> i8 {
        self as i8
    }

    fn cast_to(self) -> (r: i8) {
        #[verifier::truncate]
        (self as i8)
    }
}

impl CastTo<i16> for i64 {
    open spec fn cast_to_spec(self) -> i16 {
        self as i16
    }

    fn cast_to(self) -> (r: i16) {
        #[verifier::truncate]
        (self as i16)
    }
}

impl CastTo<i32> for i64 {
    open spec fn cast_to_spec(self) -> i32 {
        self as i32
    }

    fn cast_to(self) -> (r: i32) {
        #[verifier::truncate]
        (self as i32)
    }
}

impl CastTo<i64> for i64 {
    open spec fn cast_to_spec(self) -> i64 {
        self
    }

    fn cast_to(self) -> (r: i64) {
        self
    }
}

impl CastTo<isize> for i64 {
    open spec fn cast_to_spec(self) -> isize {
        self as isize
    }

    fn cast_to(self) -> (r: isize) {
        #[verifier::truncate]
        (self as isize)
    }
}

impl CastTo<u8> for isize {
    open spec fn cast_to_spec(self) -> u8 {
        self as u8
    }

    fn cast_to(self) -> (r: u8) {
        #[verifier::truncate]
        (self as u8)
    }
}

impl CastTo<u16> for isize {
    open spec fn cast_to_spec(self) -> u16 {
        self as u16
    }

    fn cast_to(self) -> (r: u16) {
        #[verifier::truncate]
        (self as u16)
    }
}

impl CastTo<u32> for isize {
    open spec fn cast_to_spec(self) -> u32 {
        self as u32
    }

    fn cast_to(self) -> (r: u32) {
        #[verifier::truncate]
        (self as u32)
    }
}

impl CastTo<u64> for isize {
    open spec fn cast_to_spec(self) -> u64 {
        self as u64
    }

    fn cast_to(self) -> (r: u64) {
        #[verifier::truncate]
        (self as u64)
    }
}

impl CastTo<usize> for isize {
    open spec fn cast_to_spec(self) -> usize {
        self as usize
    }

    fn cast_to(self) -> (r: usize) {
        #[verifier::truncate]
        (self as usize)
    }
}

impl CastTo<i8> for isize {
    open spec fn cast_to_spec(self) -> i8 {
        self as i8
    }

    fn cast_to(self) -> (r: i8) {
        #[verifier::truncate]
        (self as i8)
    }
}

impl CastTo<i16> for isize {
    open spec fn cast_to_spec(self) -> i16 {
        self as i16
    }

    fn cast_to(self) -> (r: i16) {
        #[verifier::truncate]
        (self as i16)
    }
}

impl CastTo<i32> for isize {
    open spec fn cast_to_spec(self) -> i32 {
        self as i32
    }

    fn cast_to(self) -> (r: i32) {
        #[verifier::truncate]
        (self as i32)
    }
}

impl CastTo<i64> for isize {
    open spec fn cast_to_spec(self) -> i64 {
        self as i64
    }

    fn cast_to(self) -> (r: i64) {
        #[verifier::truncate]
        (self as i64)
    }
}

impl CastTo<isize> for isize {
    open spec fn cast_to_spec(self) -> isize {
        self
    }

    fn cast_to(self) -> (r: isize) {
        self
    }
}

/// A mask converts to one where it holds and to zero where not.
impl CastTo<u8> for bool {
    open spec fn cast_to_spec(self) -> u8 {
        if self {
            1
        } else {
            0
        }
    }

    fn cast_to(self) -> (r: u8) {
        if self {
            1
        } else {
            0
        }
    }
}

/// A mask converts to one where it holds and to zero where not.
impl CastTo<u16> for bool {
    open spec fn cast_to_spec(self) -> u16 {
        if self {
            1
        } else {
            0
        }
    }

    fn cast_to(self) -> (r: u16) {
        if self {
            1
        } else {
            0
        }
    }
}

/// A mask converts to one where it holds and to zero where not.
impl CastTo<u32> for bool {
    open spec fn cast_to_spec(self) -> u32 {
        if self {
            1
        } else {
            0
        }
    }

    fn cast_to(self) -> (r: u32) {
        if self {
            1
        } else {
            0
        }
    }
}

/// A mask converts to one where it holds and to zero where not.
impl CastTo<u64> for bool {
    open spec fn cast_to_spec(self) -> u64 {
        if self {
            1
        } else {
            0
        }
    }

    fn cast_to(self) -> (r: u64) {
        if self {
            1
        } else {
            0
        }
    }
}

/// A mask converts to one where it holds and to zero where not.
impl CastTo<usize> for bool {
    open spec fn cast_to_spec(self) -> usize {
        if self {
            1
        } else {
            0
        }
    }

    fn cast_to(self) -> (r: usize) {
        if self {
            1
        } else {
            0
        }
    }
}

/// A mask converts to one where it holds and to zero where not.
impl CastTo<i8> for bool {
    open spec fn cast_to_spec(self) -> i8 {
        if self {
            1
        } else {
            0
        }
    }

    fn cast_to(self) -> (r: i8) {
        if self {
            1
        } else {
            0
        }
    }
}

/// A mask converts to one where it holds and to zero where not.
impl CastTo<i16> for bool {
    open spec fn cast_to_spec(self) -> i16 {
        if self {
            1
        } else {
            0
        }
    }

    fn cast_to(self) -> (r: i16) {
        if self {
            1
        } else {
            0
        }
    }
}

/// A mask converts to one where it holds and to zero where not.
impl CastTo<i32> for bool {
    open spec fn cast_to_spec(self) -> i32 {
        if self {
            1
        } else {
            0
        }
    }

    fn cast_to(self) -> (r: i32) {
        if self {
            1
        } else {
            0
        }
    }
}

/// A mask converts to one where it holds and to zero where not.
impl CastTo<i64> for bool {
    open spec fn cast_to_spec(self) -> i64 {
        if self {
            1
        } else {
            0
        }
    }

    fn cast_to(self) -> (r: i64) {
        if self {
            1
        } else {
            0
        }
    }
}

/// A mask converts to one where it holds and to zero where not.
impl CastTo<isize> for bool {
    open spec fn cast_to_spec(self) -> isize {
        if self {
            1
        } else {
            0
        }
    }

    fn cast_to(self) -> (r: isize) {
        if self {
            1
        } else {
            0
        }
    }
}

impl<T> Vec2<T> {
    /// Each component converted into `U`.
    pub open spec fn convert_spec<U>(self) -> Vec2<U> where T: CastTo<U> {
        Vec2 { x: self.x.cast_to_spec(), y: self.y.cast_to_spec() }
    }

    /// Converts each component into `U`.
    pub fn convert<U>(self) -> (r: Vec2<U>) where T: CastTo<U>
        ensures
            r == self.convert_spec::<U>(),
    {
        Vec2 { x: self.x.cast_to(), y: self.y.cast_to() }
    }

    /// The vector with every component as `u8`.
    pub fn u8(self) -> (r: Vec2<u8>) where T: CastTo<u8>
        ensures
            r == self.convert_spec::<u8>(),
    {
        self.convert()
    }

    /// The vector with every component as `u16`.
    pub fn u16(self) -> (r: Vec2<u16>) where T: CastTo<u16>
        ensures
            r == self.convert_spec::<u16>(),
    {
        self.convert()
    }

    /// The vector with every component as `u32`.
    pub fn u32(self) -> (r: Vec2<u32>) where T: CastTo<u32>
        ensures
            r == self.convert_spec::<u32>(),
    {
        self.convert()
    }

    /// The vector with every component as `u64`.
    pub fn u64(self) -> (r: Vec2<u64>) where T: CastTo<u64>
        ensures
            r == self.convert_spec::<u64>(),
    {
        self.convert()
    }

    /// The vector with every component as `usize`.
    pub fn usize(self) -> (r: Vec2<usize>) where T: CastTo<usize>
        ensures
            r == self.convert_spec::<usize>(),
    {
        self.convert()
    }

    /// The vector with every component as `i8`.
    pub fn i8(self) -> (r: Vec2<i8>) where T: CastTo<i8>
        ensures
            r == self.convert_spec::<i8>(),
    {
        self.convert()
    }

    /// The vector with every component as `i16`.
    pub fn i16(self) -> (r: Vec2<i16>) where T: CastTo<i16>
        ensures
            r == self.convert_spec::<i16>(),
    {
        self.convert()
    }

    /// The vector with every component as `i32`.
    pub fn i32(self) -> (r: Vec2<i32>) where T: CastTo<i32>
        ensures
            r == self.convert_spec::<i32>(),
    {
        self.convert()
    }

    /// The vector with every component as `i64`.
    pub fn i64(self) -> (r: Vec2<i64>) where T: CastTo<i64>
        ensures
            r == self.convert_spec::<i64>(),
    {
        self.convert()
    }

    /// The vector with every component as `isize`.
    pub fn isize(self) -> (r: Vec2<isize>) where T: CastTo<isize>
        ensures
            r == self.convert_spec::<isize>(),
    {
        self.convert()
    }
}

impl<T> Vec3<T> {
    /// Each component converted into `U`.
    pub open spec fn convert_spec<U>(self) -> Vec3<U> where T: CastTo<U> {
        Vec3 { x: self.x.cast_to_spec(), y: self.y.cast_to_spec(), z: self.z.cast_to_spec() }
    }

    /// Converts each component into `U`.
    pub fn convert<U>(self) -> (r: Vec3<U>) where T: CastTo<U>
        ensures
            r == self.convert_spec::<U>(),
    {
        Vec3 { x: self.x.cast_to(), y: self.y.cast_to(), z: self.z.cast_to() }
    }

    /// The vector with every component as `u8`.
    pub fn u8(self) -> (r: Vec3<u8>) where T: CastTo<u8>
        ensures
            r == self.convert_spec::<u8>(),
    {
        self.convert()
    }

    /// The vector with every component as `u16`.
    pub fn u16(self) -> (r: Vec3<u16>) where T: CastTo<u16>
        ensures
            r == self.convert_spec::<u16>(),
    {
        self.convert()
    }

    /// The vector with every component as `u32`.
    pub fn u32(self) -> (r: Vec3<u32>) where T: CastTo<u32>
        ensures
            r == self.convert_spec::<u32>(),
    {
        self.convert()
    }

    /// The vector with every component as `u64`.
    pub fn u64(self) -> (r: Vec3<u64>) where T: CastTo<u64>
        ensures
            r == self.convert_spec::<u64>(),
    {
        self.convert()
    }

    /// The vector with every component as `usize`.
    pub fn usize(self) -> (r: Vec3<usize>) where T: CastTo<usize>
        ensures
            r == self.convert_spec::<usize>(),
    {
        self.convert()
    }

    /// The vector with every component as `i8`.
    pub fn i8(self) -> (r: Vec3<i8>) where T: CastTo<i8>
        ensures
            r == self.convert_spec::<i8>(),
    {
        self.convert()
    }

    /// The vector with every component as `i16`.
    pub fn i16(self) -> (r: Vec3<i16>) where T: CastTo<i16>
        ensures
            r == self.convert_spec::<i16>(),
    {
        self.convert()
    }

    /// The vector with every component as `i32`.
    pub fn i32(self) -> (r: Vec3<i32>) where T: CastTo<i32>
        ensures
            r == self.convert_spec::<i32>(),
    {
        self.convert()
    }

    /// The vector with every component as `i64`.
    pub fn i64(self) -> (r: Vec3<i64>) where T: CastTo<i64>
        ensures
            r == self.convert_spec::<i64>(),
    {
        self.convert()
    }

    /// The vector with every component as `isize`.
    pub fn isize(self) -> (r: Vec3<isize>) where T: CastTo<isize>
        ensures
            r == self.convert_spec::<isize>(),
    {
        self.convert()
    }
}

impl<T> Vec4<T> {
    /// Each component converted into `U`.
    pub open spec fn convert_spec<U>(self) -> Vec4<U> where T: CastTo<U> {
        Vec4 { x: self.x.cast_to_spec(), y: self.y.cast_to_spec(), z: self.z.cast_to_spec(), w: self.w.cast_to_spec() }
    }

    /// Converts each component into `U`.
    pub fn convert<U>(self) -> (r: Vec4<U>) where T: CastTo<U>
        ensures
            r == self.convert_spec::<U>(),
    {
        Vec4 { x: self.x.cast_to(), y: self.y.cast_to(), z: self.z.cast_to(), w: self.w.cast_to() }
    }

    /// The vector with every component as `u8`.
    pub fn u8(self) -> (r: Vec4<u8>) where T: CastTo<u8>
        ensures
            r == self.convert_spec::<u8>(),
    {
        self.convert()
    }

    /// The vector with every component as `u16`.
    pub fn u16(self) -> (r: Vec4<u16>) where T: CastTo<u16>
        ensures
            r == self.convert_spec::<u16>(),
    {
        self.convert()
    }

    /// The vector with every component as `u32`.
    pub fn u32(self) -> (r: Vec4<u32>) where T: CastTo<u32>
        ensures
            r == self.convert_spec::<u32>(),
    {
        self.convert()
    }

    /// The vector with every component as `u64`.
    pub fn u64(self) -> (r: Vec4<u64>) where T: CastTo<u64>
        ensures
            r == self.convert_spec::<u64>(),
    {
        self.convert()
    }

    /// The vector with every component as `usize`.
    pub fn usize(self) -> (r: Vec4<usize>) where T: CastTo<usize>
        ensures
            r == self.convert_spec::<usize>(),
    {
        self.convert()
    }

    /// The vector with every component as `i8`.
    pub fn i8(self) -> (r: Vec4<i8>) where T: CastTo<i8>
        ensures
            r == self.convert_spec::<i8>(),
    {
        self.convert()
    }

    /// The vector with every component as `i16`.
    pub fn i16(self) -> (r: Vec4<i16>) where T: CastTo<i16>
        ensures
            r == self.convert_spec::<i16>(),
    {
        self.convert()
    }

    /// The vector with every component as `i32`.
    pub fn i32(self) -> (r: Vec4<i32>) where T: CastTo<i32>
        ensures
            r == self.convert_spec::<i32>(),
    {
        self.convert()
    }

    /// The vector with every component as `i64`.
    pub fn i64(self) -> (r: Vec4<i64>) where T: CastTo<i64>
        ensures
            r == self.convert_spec::<i64>(),
    {
        self.convert()
    }

    /// The vector with every component as `isize`.
    pub fn isize(self) -> (r: Vec4<isize>) where T: CastTo<isize>
        ensures
            r == self.convert_spec::<isize>(),
    {
        self.convert()
    }
}

impl<T> Mat2<T> {
    /// Each row converted into `U`.
    pub open spec fn convert_spec<U>(self) -> Mat2<U> where T: CastTo<U> {
        Mat2 { x: self.x.convert_spec(), y: self.y.convert_spec() }
    }

    /// Converts each row into `U`.
    pub fn convert<U>(self) -> (r: Mat2<U>) where T: CastTo<U>
        ensures
            r == self.convert_spec::<U>(),
    {
        Mat2 { x: self.x.convert(), y: self.y.convert() }
    }

    /// The matrix with every entry as `u8`.
    pub fn u8(self) -> (r: Mat2<u8>) where T: CastTo<u8>
        ensures
            r == self.convert_spec::<u8>(),
    {
        self.convert()
    }

    /// The matrix with every entry as `u16`.
    pub fn u16(self) -> (r: Mat2<u16>) where T: CastTo<u16>
        ensures
            r == self.convert_spec::<u16>(),
    {
        self.convert()
    }

    /// The matrix with every entry as `u32`.
    pub fn u32(self) -> (r: Mat2<u32>) where T: CastTo<u32>
        ensures
            r == self.convert_spec::<u32>(),
    {
        self.convert()
    }

    /// The matrix with every entry as `u64`.
    pub fn u64(self) -> (r: Mat2<u64>) where T: CastTo<u64>
        ensures
            r == self.convert_spec::<u64>(),
    {
        self.convert()
    }

    /// The matrix with every entry as `usize`.
    pub fn usize(self) -> (r: Mat2<usize>) where T: CastTo<usize>
        ensures
            r == self.convert_spec::<usize>(),
    {
        self.convert()
    }

    /// The matrix with every entry as `i8`.
    pub fn i8(self) -> (r: Mat2<i8>) where T: CastTo<i8>
        ensures
            r == self.convert_spec::<i8>(),
    {
        self.convert()
    }

    /// The matrix with every entry as `i16`.
    pub fn i16(self) -> (r: Mat2<i16>) where T: CastTo<i16>
        ensures
            r == self.convert_spec::<i16>(),
    {
        self.convert()
    }

    /// The matrix with every entry as `i32`.
    pub fn i32(self) -> (r: Mat2<i32>) where T: CastTo<i32>
        ensures
            r == self.convert_spec::<i32>(),
    {
        self.convert()
    }

    /// The matrix with every entry as `i64`.
    pub fn i64(self) -> (r: Mat2<i64>) where T: CastTo<i64>
        ensures
            r == self.convert_spec::<i64>(),
    {
        self.convert()
    }

    /// The matrix with every entry as `isize`.
    pub fn isize(self) -> (r: Mat2<isize>) where T: CastTo<isize>
        ensures
            r == self.convert_spec::<isize>(),
    {
        self.convert()
    }
}

impl<T> Mat3<T> {
    /// Each row converted into `U`.
    pub open spec fn convert_spec<U>(self) -> Mat3<U> where T: CastTo<U> {
        Mat3 { x: self.x.convert_spec(), y: self.y.convert_spec(), z: self.z.convert_spec() }
    }

    /// Converts each row into `U`.
    pub fn convert<U>(self) -> (r: Mat3<U>) where T: CastTo<U>
        ensures
            r == self.convert_spec::<U>(),
    {
        Mat3 { x: self.x.convert(), y: self.y.convert(), z: self.z.convert() }
    }

    /// The matrix with every entry as `u8`.
    pub fn u8(self) -> (r: Mat3<u8>) where T: CastTo<u8>
        ensures
            r == self.convert_spec::<u8>(),
    {
        self.convert()
    }

    /// The matrix with every entry as `u16`.
    pub fn u16(self) -> (r: Mat3<u16>) where T: CastTo<u16>
        ensures
            r == self.convert_spec::<u16>(),
    {
        self.convert()
    }

    /// The matrix with every entry as `u32`.
    pub fn u32(self) -> (r: Mat3<u32>) where T: CastTo<u32>
        ensures
            r == self.convert_spec::<u32>(),
    {
        self.convert()
    }

    /// The matrix with every entry as `u64`.
    pub fn u64(self) -> (r: Mat3<u64>) where T: CastTo<u64>
        ensures
            r == self.convert_spec::<u64>(),
    {
        self.convert()
    }

    /// The matrix with every entry as `usize`.
    pub fn usize(self) -> (r: Mat3<usize>) where T: CastTo<usize>
        ensures
            r == self.convert_spec::<usize>(),
    {
        self.convert()
    }

    /// The matrix with every entry as `i8`.
    pub fn i8(self) -> (r: Mat3<i8>) where T: CastTo<i8>
        ensures
            r == self.convert_spec::<i8>(),
    {
        self.convert()
    }

    /// The matrix with every entry as `i16`.
    pub fn i16(self) -> (r: Mat3<i16>) where T: CastTo<i16>
        ensures
            r == self.convert_spec::<i16>(),
    {
        self.convert()
    }

    /// The matrix with every entry as `i32`.
    pub fn i32(self) -> (r: Mat3<i32>) where T: CastTo<i32>
        ensures
            r == self.convert_spec::<i32>(),
    {
        self.convert()
    }

    /// The matrix with every entry as `i64`.
    pub fn i64(self) -> (r: Mat3<i64>) where T: CastTo<i64>
        ensures
            r == self.convert_spec::<i64>(),
    {
        self.convert()
    }

    /// The matrix with every entry as `isize`.
    pub fn isize(self) -> (r: Mat3<isize>) where T: CastTo<isize>
        ensures
            r == self.convert_spec::<isize>(),
    {
        self.convert()
    }
}

impl<T> Mat4<T> {
    /// Each row converted into `U`.
    pub open spec fn convert_spec<U>(self) -> Mat4<U> where T: CastTo<U> {
        Mat4 { x: self.x.convert_spec(), y: self.y.convert_spec(), z: self.z.convert_spec(), w: self.w.convert_spec() }
    }

    /// Converts each row into `U`.
    pub fn convert<U>(self) -> (r: Mat4<U>) where T: CastTo<U>
        ensures
            r == self.convert_spec::<U>(),
    {
        Mat4 { x: self.x.convert(), y: self.y.convert(), z: self.z.convert(), w: self.w.convert() }
    }

    /// The matrix with every entry as `u8`.
    pub fn u8(self) -> (r: Mat4<u8>) where T: CastTo<u8>
        ensures
            r == self.convert_spec::<u8>(),
    {
        self.convert()
    }

    /// The matrix with every entry as `u16`.
    pub fn u16(self) -> (r: Mat4<u16>) where T: CastTo<u16>
        ensures
            r == self.convert_spec::<u16>(),
    {
        self.convert()
    }

    /// The matrix with every entry as `u32`.
    pub fn u32(self) -> (r: Mat4<u32>) where T: CastTo<u32>
        ensures
            r == self.convert_spec::<u32>(),
    {
        self.convert()
    }

    /// The matrix with every entry as `u64`.
    pub fn u64(self) -> (r: Mat4<u64>) where T: CastTo<u64>
        ensures
            r == self.convert_spec::<u64>(),
    {
        self.convert()
    }

    /// The matrix with every entry as `usize`.
    pub fn usize(self) -> (r: Mat4<usize>) where T: CastTo<usize>
        ensures
            r == self.convert_spec::<usize>(),
    {
        self.convert()
    }

    /// The matrix with every entry as `i8`.
    pub fn i8(self) -> (r: Mat4<i8>) where T: CastTo<i8>
        ensures
            r == self.convert_spec::<i8>(),
    {
        self.convert()
    }

    /// The matrix with every entry as `i16`.
    pub fn i16(self) -> (r: Mat4<i16>) where T: CastTo<i16>
        ensures
            r == self.convert_spec::<i16>(),
    {
        self.convert()
    }

    /// The matrix with every entry as `i32`.
    pub fn i32(self) -> (r: Mat4<i32>) where T: CastTo<i32>
        ensures
            r == self.convert_spec::<i32>(),
    {
        self.convert()
    }

    /// The matrix with every entry as `i64`.
    pub fn i64(self) -> (r: Mat4<i64>) where T: CastTo<i64>
        ensures
            r == self.convert_spec::<i64>(),
    {
        self.convert()
    }

    /// The matrix with every entry as `isize`.
    pub fn isize(self) -> (r: Mat4<isize>) where T: CastTo<isize>
        ensures
            r == self.convert_spec::<isize>(),
    {
        self.convert()
    }
}

impl<T> Quaternion<T> {
    /// Each part converted into `U`.
    pub open spec fn convert_spec<U>(self) -> Quaternion<U> where T: CastTo<U> {
        Quaternion { r: self.r.cast_to_spec(), i: self.i.cast_to_spec(), j: self.j.cast_to_spec(), k: self.k.cast_to_spec() }
    }

    /// Converts each part into `U`.
    pub fn convert<U>(self) -> (r: Quaternion<U>) where T: CastTo<U>
        ensures
            r == self.convert_spec::<U>(),
    {
        Quaternion { r: self.r.cast_to(), i: self.i.cast_to(), j: self.j.cast_to(), k: self.k.cast_to() }
    }

    /// The quaternion with every part as `u8`.
    pub fn u8(self) -> (r: Quaternion<u8>) where T: CastTo<u8>
        ensures
            r == self.convert_spec::<u8>(),
    {
        self.convert()
    }

    /// The quaternion with every part as `u16`.
    pub fn u16(self) -> (r: Quaternion<u16>) where T: CastTo<u16>
        ensures
            r == self.convert_spec::<u16>(),
    {
        self.convert()
    }

    /// The quaternion with every part as `u32`.
    pub fn u32(self) -> (r: Quaternion<u32>) where T: CastTo<u32>
        ensures
            r == self.convert_spec::<u32>(),
    {
        self.convert()
    }

    /// The quaternion with every part as `u64`.
    pub fn u64(self) -> (r: Quaternion<u64>) where T: CastTo<u64>
        ensures
            r == self.convert_spec::<u64>(),
    {
        self.convert()
    }

    /// The quaternion with every part as `usize`.
    pub fn usize(self) -> (r: Quaternion<usize>) where T: CastTo<usize>
        ensures
            r == self.convert_spec::<usize>(),
    {
        self.convert()
    }

    /// The quaternion with every part as `i8`.
    pub fn i8(self) -> (r: Quaternion<i8>) where T: CastTo<i8>
        ensures
            r == self.convert_spec::<i8>(),
    {
        self.convert()
    }

    /// The quaternion with every part as `i16`.
    pub fn i16(self) -> (r: Quaternion<i16>) where T: CastTo<i16>
        ensures
            r == self.convert_spec::<i16>(),
    {
        self.convert()
    }

    /// The quaternion with every part as `i32`.
    pub fn i32(self) -> (r: Quaternion<i32>) where T: CastTo<i32>
        ensures
            r == self.convert_spec::<i32>(),
    {
        self.convert()
    }

    /// The quaternion with every part as `i64`.
    pub fn i64(self) -> (r: Quaternion<i64>) where T: CastTo<i64>
        ensures
            r == self.convert_spec::<i64>(),
    {
        self.convert()
    }

    /// The quaternion with every part as `isize`.
    pub fn isize(self) -> (r: Quaternion<isize>) where T: CastTo<isize>
        ensures
            r == self.convert_spec::<isize>(),
    {
        self.convert()
    }
}

} // verus!
