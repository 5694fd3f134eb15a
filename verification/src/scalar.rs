//! Conversion between scalar kinds, with the meaning of a native numeric cast.
//!
//! Every integer kind converts into every integer kind, itself included. A
//! conversion never fails. A value that the target kind can hold is kept; any
//! other value is cut down to the low bits of its two's complement form, which
//! are then read in the target's signedness.

use vstd::prelude::*;

verus! {

/// A scalar that converts into the scalar kind `T`.
pub trait ScalarConvertible<T>: Sized {
    /// The value that `_as` returns for `self`.
    spec fn as_spec(self) -> T;

    /// Converts `self` as a numeric cast does.
    fn _as(self) -> (r: T)
        ensures
            r == self.as_spec(),
    ;
}

impl ScalarConvertible<u8> for u8 {
    open spec fn as_spec(self) -> u8 {
        self
    }

    fn _as(self) -> (r: u8) {
        self
    }
}

impl ScalarConvertible<i8> for u8 {
    open spec fn as_spec(self) -> i8 {
        self as i8
    }

    fn _as(self) -> (r: i8) {
        self as i8
    }
}

impl ScalarConvertible<u16> for u8 {
    open spec fn as_spec(self) -> u16 {
        self as u16
    }

    fn _as(self) -> (r: u16) {
        self as u16
    }
}

impl ScalarConvertible<i16> for u8 {
    open spec fn as_spec(self) -> i16 {
        self as i16
    }

    fn _as(self) -> (r: i16) {
        self as i16
    }
}

impl ScalarConvertible<u32> for u8 {
    open spec fn as_spec(self) -> u32 {
        self as u32
    }

    fn _as(self) -> (r: u32) {
        self as u32
    }
}

impl ScalarConvertible<i32> for u8 {
    open spec fn as_spec(self) -> i32 {
        self as i32
    }

    fn _as(self) -> (r: i32) {
        self as i32
    }
}

impl ScalarConvertible<u64> for u8 {
    open spec fn as_spec(self) -> u64 {
        self as u64
    }

    fn _as(self) -> (r: u64) {
        self as u64
    }
}

impl ScalarConvertible<i64> for u8 {
    open spec fn as_spec(self) -> i64 {
        self as i64
    }

    fn _as(self) -> (r: i64) {
        self as i64
    }
}

impl ScalarConvertible<usize> for u8 {
    open spec fn as_spec(self) -> usize {
        self as usize
    }

    fn _as(self) -> (r: usize) {
        self as usize
    }
}

impl ScalarConvertible<isize> for u8 {
    open spec fn as_spec(self) -> isize {
        self as isize
    }

    fn _as(self) -> (r: isize) {
        self as isize
    }
}

impl ScalarConvertible<u8> for i8 {
    open spec fn as_spec(self) -> u8 {
        self as u8
    }

    fn _as(self) -> (r: u8) {
        self as u8
    }
}

impl ScalarConvertible<i8> for i8 {
    open spec fn as_spec(self) -> i8 {
        self
    }

    fn _as(self) -> (r: i8) {
        self
    }
}

impl ScalarConvertible<u16> for i8 {
    open spec fn as_spec(self) -> u16 {
        self as u16
    }

    fn _as(self) -> (r: u16) {
        self as u16
    }
}

impl ScalarConvertible<i16> for i8 {
    open spec fn as_spec(self) -> i16 {
        self as i16
    }

    fn _as(self) -> (r: i16) {
        self as i16
    }
}

impl ScalarConvertible<u32> for i8 {
    open spec fn as_spec(self) -> u32 {
        self as u32
    }

    fn _as(self) -> (r: u32) {
        self as u32
    }
}

impl ScalarConvertible<i32> for i8 {
    open spec fn as_spec(self) -> i32 {
        self as i32
    }

    fn _as(self) -> (r: i32) {
        self as i32
    }
}

impl ScalarConvertible<u64> for i8 {
    open spec fn as_spec(self) -> u64 {
        self as u64
    }

    fn _as(self) -> (r: u64) {
        self as u64
    }
}

impl ScalarConvertible<i64> for i8 {
    open spec fn as_spec(self) -> i64 {
        self as i64
    }

    fn _as(self) -> (r: i64) {
        self as i64
    }
}

impl ScalarConvertible<usize> for i8 {
    open spec fn as_spec(self) -> usize {
        self as usize
    }

    fn _as(self) -> (r: usize) {
        self as usize
    }
}

impl ScalarConvertible<isize> for i8 {
    open spec fn as_spec(self) -> isize {
        self as isize
    }

    fn _as(self) -> (r: isize) {
        self as isize
    }
}

impl ScalarConvertible<u8> for u16 {
    open spec fn as_spec(self) -> u8 {
        self as u8
    }

    fn _as(self) -> (r: u8) {
        self as u8
    }
}

impl ScalarConvertible<i8> for u16 {
    open spec fn as_spec(self) -> i8 {
        self as i8
    }

    fn _as(self) -> (r: i8) {
        self as i8
    }
}

impl ScalarConvertible<u16> for u16 {
    open spec fn as_spec(self) -> u16 {
        self
    }

    fn _as(self) -> (r: u16) {
        self
    }
}

impl ScalarConvertible<i16> for u16 {
    open spec fn as_spec(self) -> i16 {
        self as i16
    }

    fn _as(self) -> (r: i16) {
        self as i16
    }
}

impl ScalarConvertible<u32> for u16 {
    open spec fn as_spec(self) -> u32 {
        self as u32
    }

    fn _as(self) -> (r: u32) {
        self as u32
    }
}

impl ScalarConvertible<i32> for u16 {
    open spec fn as_spec(self) -> i32 {
        self as i32
    }

    fn _as(self) -> (r: i32) {
        self as i32
    }
}

impl ScalarConvertible<u64> for u16 {
    open spec fn as_spec(self) -> u64 {
        self as u64
    }

    fn _as(self) -> (r: u64) {
        self as u64
    }
}

impl ScalarConvertible<i64> for u16 {
    open spec fn as_spec(self) -> i64 {
        self as i64
    }

    fn _as(self) -> (r: i64) {
        self as i64
    }
}

impl ScalarConvertible<usize> for u16 {
    open spec fn as_spec(self) -> usize {
        self as usize
    }

    fn _as(self) -> (r: usize) {
        self as usize
    }
}

impl ScalarConvertible<isize> for u16 {
    open spec fn as_spec(self) -> isize {
        self as isize
    }

    fn _as(self) -> (r: isize) {
        self as isize
    }
}

impl ScalarConvertible<u8> for i16 {
    open spec fn as_spec(self) -> u8 {
        self as u8
    }

    fn _as(self) -> (r: u8) {
        self as u8
    }
}

impl ScalarConvertible<i8> for i16 {
    open spec fn as_spec(self) -> i8 {
        self as i8
    }

    fn _as(self) -> (r: i8) {
        self as i8
    }
}

impl ScalarConvertible<u16> for i16 {
    open spec fn as_spec(self) -> u16 {
        self as u16
    }

    fn _as(self) -> (r: u16) {
        self as u16
    }
}

impl ScalarConvertible<i16> for i16 {
    open spec fn as_spec(self) -> i16 {
        self
    }

    fn _as(self) -> (r: i16) {
        self
    }
}

impl ScalarConvertible<u32> for i16 {
    open spec fn as_spec(self) -> u32 {
        self as u32
    }

    fn _as(self) -> (r: u32) {
        self as u32
    }
}

impl ScalarConvertible<i32> for i16 {
    open spec fn as_spec(self) -> i32 {
        self as i32
    }

    fn _as(self) -> (r: i32) {
        self as i32
    }
}

impl ScalarConvertible<u64> for i16 {
    open spec fn as_spec(self) -> u64 {
        self as u64
    }

    fn _as(self) -> (r: u64) {
        self as u64
    }
}

impl ScalarConvertible<i64> for i16 {
    open spec fn as_spec(self) -> i64 {
        self as i64
    }

    fn _as(self) -> (r: i64) {
        self as i64
    }
}

impl ScalarConvertible<usize> for i16 {
    open spec fn as_spec(self) -> usize {
        self as usize
    }

    fn _as(self) -> (r: usize) {
        self as usize
    }
}

impl ScalarConvertible<isize> for i16 {
    open spec fn as_spec(self) -> isize {
        self as isize
    }

    fn _as(self) -> (r: isize) {
        self as isize
    }
}

impl ScalarConvertible<u8> for u32 {
    open spec fn as_spec(self) -> u8 {
        self as u8
    }

    fn _as(self) -> (r: u8) {
        self as u8
    }
}

impl ScalarConvertible<i8> for u32 {
    open spec fn as_spec(self) -> i8 {
        self as i8
    }

    fn _as(self) -> (r: i8) {
        self as i8
    }
}

impl ScalarConvertible<u16> for u32 {
    open spec fn as_spec(self) -> u16 {
        self as u16
    }

    fn _as(self) -> (r: u16) {
        self as u16
    }
}

impl ScalarConvertible<i16> for u32 {
    open spec fn as_spec(self) -> i16 {
        self as i16
    }

    fn _as(self) -> (r: i16) {
        self as i16
    }
}

impl ScalarConvertible<u32> for u32 {
    open spec fn as_spec(self) -> u32 {
        self
    }

    fn _as(self) -> (r: u32) {
        self
    }
}

impl ScalarConvertible<i32> for u32 {
    open spec fn as_spec(self) -> i32 {
        self as i32
    }

    fn _as(self) -> (r: i32) {
        self as i32
    }
}

impl ScalarConvertible<u64> for u32 {
    open spec fn as_spec(self) -> u64 {
        self as u64
    }

    fn _as(self) -> (r: u64) {
        self as u64
    }
}

impl ScalarConvertible<i64> for u32 {
    open spec fn as_spec(self) -> i64 {
        self as i64
    }

    fn _as(self) -> (r: i64) {
        self as i64
    }
}

impl ScalarConvertible<usize> for u32 {
    open spec fn as_spec(self) -> usize {
        self as usize
    }

    fn _as(self) -> (r: usize) {
        self as usize
    }
}

impl ScalarConvertible<isize> for u32 {
    open spec fn as_spec(self) -> isize {
        self as isize
    }

    fn _as(self) -> (r: isize) {
        self as isize
    }
}

impl ScalarConvertible<u8> for i32 {
    open spec fn as_spec(self) -> u8 {
        self as u8
    }

    fn _as(self) -> (r: u8) {
        self as u8
    }
}

impl ScalarConvertible<i8> for i32 {
    open spec fn as_spec(self) -> i8 {
        self as i8
    }

    fn _as(self) -> (r: i8) {
        self as i8
    }
}

impl ScalarConvertible<u16> for i32 {
    open spec fn as_spec(self) -> u16 {
        self as u16
    }

    fn _as(self) -> (r: u16) {
        self as u16
    }
}

impl ScalarConvertible<i16> for i32 {
    open spec fn as_spec(self) -> i16 {
        self as i16
    }

    fn _as(self) -> (r: i16) {
        self as i16
    }
}

impl ScalarConvertible<u32> for i32 {
    open spec fn as_spec(self) -> u32 {
        self as u32
    }

    fn _as(self) -> (r: u32) {
        self as u32
    }
}

impl ScalarConvertible<i32> for i32 {
    open spec fn as_spec(self) -> i32 {
        self
    }

    fn _as(self) -> (r: i32) {
        self
    }
}

impl ScalarConvertible<u64> for i32 {
    open spec fn as_spec(self) -> u64 {
        self as u64
    }

    fn _as(self) -> (r: u64) {
        self as u64
    }
}

impl ScalarConvertible<i64> for i32 {
    open spec fn as_spec(self) -> i64 {
        self as i64
    }

    fn _as(self) -> (r: i64) {
        self as i64
    }
}

impl ScalarConvertible<usize> for i32 {
    open spec fn as_spec(self) -> usize {
        self as usize
    }

    fn _as(self) -> (r: usize) {
        self as usize
    }
}

impl ScalarConvertible<isize> for i32 {
    open spec fn as_spec(self) -> isize {
        self as isize
    }

    fn _as(self) -> (r: isize) {
        self as isize
    }
}

impl ScalarConvertible<u8> for u64 {
    open spec fn as_spec(self) -> u8 {
        self as u8
    }

    fn _as(self) -> (r: u8) {
        self as u8
    }
}

impl ScalarConvertible<i8> for u64 {
    open spec fn as_spec(self) -> i8 {
        self as i8
    }

    fn _as(self) -> (r: i8) {
        self as i8
    }
}

impl ScalarConvertible<u16> for u64 {
    open spec fn as_spec(self) -> u16 {
        self as u16
    }

    fn _as(self) -> (r: u16) {
        self as u16
    }
}

impl ScalarConvertible<i16> for u64 {
    open spec fn as_spec(self) -> i16 {
        self as i16
    }

    fn _as(self) -> (r: i16) {
        self as i16
    }
}

impl ScalarConvertible<u32> for u64 {
    open spec fn as_spec(self) -> u32 {
        self as u32
    }

    fn _as(self) -> (r: u32) {
        self as u32
    }
}

impl ScalarConvertible<i32> for u64 {
    open spec fn as_spec(self) -> i32 {
        self as i32
    }

    fn _as(self) -> (r: i32) {
        self as i32
    }
}

impl ScalarConvertible<u64> for u64 {
    open spec fn as_spec(self) -> u64 {
        self
    }

    fn _as(self) -> (r: u64) {
        self
    }
}

impl ScalarConvertible<i64> for u64 {
    open spec fn as_spec(self) -> i64 {
        self as i64
    }

    fn _as(self) -> (r: i64) {
        self as i64
    }
}

impl ScalarConvertible<usize> for u64 {
    open spec fn as_spec(self) -> usize {
        self as usize
    }

    fn _as(self) -> (r: usize) {
        self as usize
    }
}

impl ScalarConvertible<isize> for u64 {
    open spec fn as_spec(self) -> isize {
        self as isize
    }

    fn _as(self) -> (r: isize) {
        self as isize
    }
}

impl ScalarConvertible<u8> for i64 {
    open spec fn as_spec(self) -> u8 {
        self as u8
    }

    fn _as(self) -> (r: u8) {
        self as u8
    }
}

impl ScalarConvertible<i8> for i64 {
    open spec fn as_spec(self) -> i8 {
        self as i8
    }

    fn _as(self) -> (r: i8) {
        self as i8
    }
}

impl ScalarConvertible<u16> for i64 {
    open spec fn as_spec(self) -> u16 {
        self as u16
    }

    fn _as(self) -> (r: u16) {
        self as u16
    }
}

impl ScalarConvertible<i16> for i64 {
    open spec fn as_spec(self) -> i16 {
        self as i16
    }

    fn _as(self) -> (r: i16) {
        self as i16
    }
}

impl ScalarConvertible<u32> for i64 {
    open spec fn as_spec(self) -> u32 {
        self as u32
    }

    fn _as(self) -> (r: u32) {
        self as u32
    }
}

impl ScalarConvertible<i32> for i64 {
    open spec fn as_spec(self) -> i32 {
        self as i32
    }

    fn _as(self) -> (r: i32) {
        self as i32
    }
}

impl ScalarConvertible<u64> for i64 {
    open spec fn as_spec(self) -> u64 {
        self as u64
    }

    fn _as(self) -> (r: u64) {
        self as u64
    }
}

impl ScalarConvertible<i64> for i64 {
    open spec fn as_spec(self) -> i64 {
        self
    }

    fn _as(self) -> (r: i64) {
        self
    }
}

impl ScalarConvertible<usize> for i64 {
    open spec fn as_spec(self) -> usize {
        self as usize
    }

    fn _as(self) -> (r: usize) {
        self as usize
    }
}

impl ScalarConvertible<isize> for i64 {
    open spec fn as_spec(self) -> isize {
        self as isize
    }

    fn _as(self) -> (r: isize) {
        self as isize
    }
}

impl ScalarConvertible<u8> for usize {
    open spec fn as_spec(self) -> u8 {
        self as u8
    }

    fn _as(self) -> (r: u8) {
        self as u8
    }
}

impl ScalarConvertible<i8> for usize {
    open spec fn as_spec(self) -> i8 {
        self as i8
    }

    fn _as(self) -> (r: i8) {
        self as i8
    }
}

impl ScalarConvertible<u16> for usize {
    open spec fn as_spec(self) -> u16 {
        self as u16
    }

    fn _as(self) -> (r: u16) {
        self as u16
    }
}

impl ScalarConvertible<i16> for usize {
    open spec fn as_spec(self) -> i16 {
        self as i16
    }

    fn _as(self) -> (r: i16) {
        self as i16
    }
}

impl ScalarConvertible<u32> for usize {
    open spec fn as_spec(self) -> u32 {
        self as u32
    }

    fn _as(self) -> (r: u32) {
        self as u32
    }
}

impl ScalarConvertible<i32> for usize {
    open spec fn as_spec(self) -> i32 {
        self as i32
    }

    fn _as(self) -> (r: i32) {
        self as i32
    }
}

impl ScalarConvertible<u64> for usize {
    open spec fn as_spec(self) -> u64 {
        self as u64
    }

    fn _as(self) -> (r: u64) {
        self as u64
    }
}

impl ScalarConvertible<i64> for usize {
    open spec fn as_spec(self) -> i64 {
        self as i64
    }

    fn _as(self) -> (r: i64) {
        self as i64
    }
}

impl ScalarConvertible<usize> for usize {
    open spec fn as_spec(self) -> usize {
        self
    }

    fn _as(self) -> (r: usize) {
        self
    }
}

impl ScalarConvertible<isize> for usize {
    open spec fn as_spec(self) -> isize {
        self as isize
    }

    fn _as(self) -> (r: isize) {
        self as isize
    }
}

impl ScalarConvertible<u8> for isize {
    open spec fn as_spec(self) -> u8 {
        self as u8
    }

    fn _as(self) -> (r: u8) {
        self as u8
    }
}

impl ScalarConvertible<i8> for isize {
    open spec fn as_spec(self) -> i8 {
        self as i8
    }

    fn _as(self) -> (r: i8) {
        self as i8
    }
}

impl ScalarConvertible<u16> for isize {
    open spec fn as_spec(self) -> u16 {
        self as u16
    }

    fn _as(self) -> (r: u16) {
        self as u16
    }
}

impl ScalarConvertible<i16> for isize {
    open spec fn as_spec(self) -> i16 {
        self as i16
    }

    fn _as(self) -> (r: i16) {
        self as i16
    }
}

impl ScalarConvertible<u32> for isize {
    open spec fn as_spec(self) -> u32 {
        self as u32
    }

    fn _as(self) -> (r: u32) {
        self as u32
    }
}

impl ScalarConvertible<i32> for isize {
    open spec fn as_spec(self) -> i32 {
        self as i32
    }

    fn _as(self) -> (r: i32) {
        self as i32
    }
}

impl ScalarConvertible<u64> for isize {
    open spec fn as_spec(self) -> u64 {
        self as u64
    }

    fn _as(self) -> (r: u64) {
        self as u64
    }
}

impl ScalarConvertible<i64> for isize {
    open spec fn as_spec(self) -> i64 {
        self as i64
    }

    fn _as(self) -> (r: i64) {
        self as i64
    }
}

impl ScalarConvertible<usize> for isize {
    open spec fn as_spec(self) -> usize {
        self as usize
    }

    fn _as(self) -> (r: usize) {
        self as usize
    }
}

impl ScalarConvertible<isize> for isize {
    open spec fn as_spec(self) -> isize {
        self
    }

    fn _as(self) -> (r: isize) {
        self
    }
}

} // verus!
