//! What the conversions between integer kinds give, stated over the integers.

use vstd::prelude::*;
use vstd::arithmetic::div_mod::lemma_mod_multiples_vanish;
use crate::scalar::ScalarConvertible;

verus! {

/// The number from zero up to `modulus` (not reached) that differs from `v` by
/// a multiple of `modulus`: what the low bits of `v` spell when read without a
/// sign.
pub open spec fn wrap_unsigned(v: int, modulus: int) -> int {
    v % modulus
}

/// The number from minus half of `modulus` up to half of `modulus` (not
/// reached) that differs from `v` by a multiple of `modulus`: what the low
/// bits of `v` spell when read in two's complement.
pub open spec fn wrap_signed(v: int, modulus: int) -> int {
    let low = v % modulus;
    if low >= modulus / 2 {
        low - modulus
    } else {
        low
    }
}

/// How the signed kinds read the bits that the unsigned kinds keep of an
/// `u8`.
proof fn lemma_bits_u8_signed(v: u8)
    by (bit_vector)
    ensures
        (v as u8) < 0x80 ==> (v as i8) == (v as u8),
        (v as u8) >= 0x80 ==> (v as i8) == (v as u8) - 0x100,
{
}

/// What a conversion from `u8` gives, for every target kind of a fixed
/// width: the low bits of the value, as many as the target has, read in the
/// target's signedness.
pub proof fn lemma_from_u8(v: u8)
    ensures
        ScalarConvertible::<u8>::as_spec(v) == wrap_unsigned(v as int, 0x100),
        ScalarConvertible::<i8>::as_spec(v) == wrap_signed(v as int, 0x100),
        ScalarConvertible::<u16>::as_spec(v) == wrap_unsigned(v as int, 0x1_0000),
        ScalarConvertible::<i16>::as_spec(v) == wrap_signed(v as int, 0x1_0000),
        ScalarConvertible::<u32>::as_spec(v) == wrap_unsigned(v as int, 0x1_0000_0000),
        ScalarConvertible::<i32>::as_spec(v) == wrap_signed(v as int, 0x1_0000_0000),
        ScalarConvertible::<u64>::as_spec(v) == wrap_unsigned(v as int, 0x1_0000_0000_0000_0000),
        ScalarConvertible::<i64>::as_spec(v) == wrap_signed(v as int, 0x1_0000_0000_0000_0000),
{
    lemma_bits_u8_signed(v);
}

/// How the bits of an `i8` read without a sign.
proof fn lemma_bits_i8_own(v: i8)
    by (bit_vector)
    ensures
        v >= 0 ==> (v as u8) == v,
        v < 0 ==> (v as u8) == v + 0x100,
{
}

/// What an `i8` becomes in the unsigned kinds.
proof fn lemma_bits_i8_unsigned(v: i8)
    by (bit_vector)
    ensures
        v >= 0 ==> (v as u16) == v,
        v < 0 ==> (v as u16) == v + 0x1_0000,
        v >= 0 ==> (v as u32) == v,
        v < 0 ==> (v as u32) == v + 0x1_0000_0000,
        v >= 0 ==> (v as u64) == v,
        v < 0 ==> (v as u64) == v + 0x1_0000_0000_0000_0000,
{
}

/// What a conversion from `i8` gives, for every target kind of a fixed
/// width: the low bits of the value, as many as the target has, read in the
/// target's signedness.
pub proof fn lemma_from_i8(v: i8)
    ensures
        ScalarConvertible::<u8>::as_spec(v) == wrap_unsigned(v as int, 0x100),
        ScalarConvertible::<i8>::as_spec(v) == wrap_signed(v as int, 0x100),
        ScalarConvertible::<u16>::as_spec(v) == wrap_unsigned(v as int, 0x1_0000),
        ScalarConvertible::<i16>::as_spec(v) == wrap_signed(v as int, 0x1_0000),
        ScalarConvertible::<u32>::as_spec(v) == wrap_unsigned(v as int, 0x1_0000_0000),
        ScalarConvertible::<i32>::as_spec(v) == wrap_signed(v as int, 0x1_0000_0000),
        ScalarConvertible::<u64>::as_spec(v) == wrap_unsigned(v as int, 0x1_0000_0000_0000_0000),
        ScalarConvertible::<i64>::as_spec(v) == wrap_signed(v as int, 0x1_0000_0000_0000_0000),
{
    lemma_bits_i8_own(v);
    lemma_bits_i8_unsigned(v);
}

/// What an `u16` becomes in the unsigned kinds.
proof fn lemma_bits_u16_unsigned(v: u16)
    by (bit_vector)
    ensures
        (v as u8) == v % 0x100,
{
}

/// How the signed kinds read the bits that the unsigned kinds keep of an
/// `u16`.
proof fn lemma_bits_u16_signed(v: u16)
    by (bit_vector)
    ensures
        (v as u8) < 0x80 ==> (v as i8) == (v as u8),
        (v as u8) >= 0x80 ==> (v as i8) == (v as u8) - 0x100,
        (v as u16) < 0x8000 ==> (v as i16) == (v as u16),
        (v as u16) >= 0x8000 ==> (v as i16) == (v as u16) - 0x1_0000,
{
}

/// What a conversion from `u16` gives, for every target kind of a fixed
/// width: the low bits of the value, as many as the target has, read in the
/// target's signedness.
pub proof fn lemma_from_u16(v: u16)
    ensures
        ScalarConvertible::<u8>::as_spec(v) == wrap_unsigned(v as int, 0x100),
        ScalarConvertible::<i8>::as_spec(v) == wrap_signed(v as int, 0x100),
        ScalarConvertible::<u16>::as_spec(v) == wrap_unsigned(v as int, 0x1_0000),
        ScalarConvertible::<i16>::as_spec(v) == wrap_signed(v as int, 0x1_0000),
        ScalarConvertible::<u32>::as_spec(v) == wrap_unsigned(v as int, 0x1_0000_0000),
        ScalarConvertible::<i32>::as_spec(v) == wrap_signed(v as int, 0x1_0000_0000),
        ScalarConvertible::<u64>::as_spec(v) == wrap_unsigned(v as int, 0x1_0000_0000_0000_0000),
        ScalarConvertible::<i64>::as_spec(v) == wrap_signed(v as int, 0x1_0000_0000_0000_0000),
{
    lemma_bits_u16_unsigned(v);
    lemma_bits_u16_signed(v);
}

/// How the bits of an `i16` read without a sign.
proof fn lemma_bits_i16_own(v: i16)
    by (bit_vector)
    ensures
        v >= 0 ==> (v as u16) == v,
        v < 0 ==> (v as u16) == v + 0x1_0000,
{
}

/// What an `i16` becomes in the unsigned kinds.
proof fn lemma_bits_i16_unsigned(v: i16)
    by (bit_vector)
    ensures
        (v as u8) == (v as u16) % 0x100,
        v >= 0 ==> (v as u32) == v,
        v < 0 ==> (v as u32) == v + 0x1_0000_0000,
        v >= 0 ==> (v as u64) == v,
        v < 0 ==> (v as u64) == v + 0x1_0000_0000_0000_0000,
{
}

/// How the signed kinds read the bits that the unsigned kinds keep of an
/// `i16`.
proof fn lemma_bits_i16_signed(v: i16)
    by (bit_vector)
    ensures
        (v as u8) < 0x80 ==> (v as i8) == (v as u8),
        (v as u8) >= 0x80 ==> (v as i8) == (v as u8) - 0x100,
{
}

/// What a conversion from `i16` gives, for every target kind of a fixed
/// width: the low bits of the value, as many as the target has, read in the
/// target's signedness.
pub proof fn lemma_from_i16(v: i16)
    ensures
        ScalarConvertible::<u8>::as_spec(v) == wrap_unsigned(v as int, 0x100),
        ScalarConvertible::<i8>::as_spec(v) == wrap_signed(v as int, 0x100),
        ScalarConvertible::<u16>::as_spec(v) == wrap_unsigned(v as int, 0x1_0000),
        ScalarConvertible::<i16>::as_spec(v) == wrap_signed(v as int, 0x1_0000),
        ScalarConvertible::<u32>::as_spec(v) == wrap_unsigned(v as int, 0x1_0000_0000),
        ScalarConvertible::<i32>::as_spec(v) == wrap_signed(v as int, 0x1_0000_0000),
        ScalarConvertible::<u64>::as_spec(v) == wrap_unsigned(v as int, 0x1_0000_0000_0000_0000),
        ScalarConvertible::<i64>::as_spec(v) == wrap_signed(v as int, 0x1_0000_0000_0000_0000),
{
    lemma_bits_i16_own(v);
    lemma_bits_i16_unsigned(v);
    lemma_bits_i16_signed(v);
    lemma_mod_multiples_vanish(0x100, v as int, 0x100);
}

/// What an `u32` becomes in the unsigned kinds.
proof fn lemma_bits_u32_unsigned(v: u32)
    by (bit_vector)
    ensures
        (v as u8) == v % 0x100,
        (v as u16) == v % 0x1_0000,
{
}

/// How the signed kinds read the bits that the unsigned kinds keep of an
/// `u32`.
proof fn lemma_bits_u32_signed(v: u32)
    by (bit_vector)
    ensures
        (v as u8) < 0x80 ==> (v as i8) == (v as u8),
        (v as u8) >= 0x80 ==> (v as i8) == (v as u8) - 0x100,
        (v as u16) < 0x8000 ==> (v as i16) == (v as u16),
        (v as u16) >= 0x8000 ==> (v as i16) == (v as u16) - 0x1_0000,
        (v as u32) < 0x8000_0000 ==> (v as i32) == (v as u32),
        (v as u32) >= 0x8000_0000 ==> (v as i32) == (v as u32) - 0x1_0000_0000,
{
}

/// What a conversion from `u32` gives, for every target kind of a fixed
/// width: the low bits of the value, as many as the target has, read in the
/// target's signedness.
pub proof fn lemma_from_u32(v: u32)
    ensures
        ScalarConvertible::<u8>::as_spec(v) == wrap_unsigned(v as int, 0x100),
        ScalarConvertible::<i8>::as_spec(v) == wrap_signed(v as int, 0x100),
        ScalarConvertible::<u16>::as_spec(v) == wrap_unsigned(v as int, 0x1_0000),
        ScalarConvertible::<i16>::as_spec(v) == wrap_signed(v as int, 0x1_0000),
        ScalarConvertible::<u32>::as_spec(v) == wrap_unsigned(v as int, 0x1_0000_0000),
        ScalarConvertible::<i32>::as_spec(v) == wrap_signed(v as int, 0x1_0000_0000),
        ScalarConvertible::<u64>::as_spec(v) == wrap_unsigned(v as int, 0x1_0000_0000_0000_0000),
        ScalarConvertible::<i64>::as_spec(v) == wrap_signed(v as int, 0x1_0000_0000_0000_0000),
{
    lemma_bits_u32_unsigned(v);
    lemma_bits_u32_signed(v);
}

/// How the bits of an `i32` read without a sign.
proof fn lemma_bits_i32_own(v: i32)
    by (bit_vector)
    ensures
        v >= 0 ==> (v as u32) == v,
        v < 0 ==> (v as u32) == v + 0x1_0000_0000,
{
}

/// What an `i32` becomes in the unsigned kinds.
proof fn lemma_bits_i32_unsigned(v: i32)
    by (bit_vector)
    ensures
        (v as u8) == (v as u32) % 0x100,
        (v as u16) == (v as u32) % 0x1_0000,
        v >= 0 ==> (v as u64) == v,
        v < 0 ==> (v as u64) == v + 0x1_0000_0000_0000_0000,
{
}

/// How the signed kinds read the bits that the unsigned kinds keep of an
/// `i32`.
proof fn lemma_bits_i32_signed(v: i32)
    by (bit_vector)
    ensures
        (v as u8) < 0x80 ==> (v as i8) == (v as u8),
        (v as u8) >= 0x80 ==> (v as i8) == (v as u8) - 0x100,
        (v as u16) < 0x8000 ==> (v as i16) == (v as u16),
        (v as u16) >= 0x8000 ==> (v as i16) == (v as u16) - 0x1_0000,
{
}

/// What a conversion from `i32` gives, for every target kind of a fixed
/// width: the low bits of the value, as many as the target has, read in the
/// target's signedness.
pub proof fn lemma_from_i32(v: i32)
    ensures
        ScalarConvertible::<u8>::as_spec(v) == wrap_unsigned(v as int, 0x100),
        ScalarConvertible::<i8>::as_spec(v) == wrap_signed(v as int, 0x100),
        ScalarConvertible::<u16>::as_spec(v) == wrap_unsigned(v as int, 0x1_0000),
        ScalarConvertible::<i16>::as_spec(v) == wrap_signed(v as int, 0x1_0000),
        ScalarConvertible::<u32>::as_spec(v) == wrap_unsigned(v as int, 0x1_0000_0000),
        ScalarConvertible::<i32>::as_spec(v) == wrap_signed(v as int, 0x1_0000_0000),
        ScalarConvertible::<u64>::as_spec(v) == wrap_unsigned(v as int, 0x1_0000_0000_0000_0000),
        ScalarConvertible::<i64>::as_spec(v) == wrap_signed(v as int, 0x1_0000_0000_0000_0000),
{
    lemma_bits_i32_own(v);
    lemma_bits_i32_unsigned(v);
    lemma_bits_i32_signed(v);
    lemma_mod_multiples_vanish(0x100_0000, v as int, 0x100);
    lemma_mod_multiples_vanish(0x1_0000, v as int, 0x1_0000);
}

/// What an `u64` becomes in the unsigned kinds.
proof fn lemma_bits_u64_unsigned(v: u64)
    by (bit_vector)
    ensures
        (v as u8) == v % 0x100,
        (v as u16) == v % 0x1_0000,
        (v as u32) == v % 0x1_0000_0000,
{
}

/// How the signed kinds read the bits that the unsigned kinds keep of an
/// `u64`.
proof fn lemma_bits_u64_signed(v: u64)
    by (bit_vector)
    ensures
        (v as u8) < 0x80 ==> (v as i8) == (v as u8),
        (v as u8) >= 0x80 ==> (v as i8) == (v as u8) - 0x100,
        (v as u16) < 0x8000 ==> (v as i16) == (v as u16),
        (v as u16) >= 0x8000 ==> (v as i16) == (v as u16) - 0x1_0000,
        (v as u32) < 0x8000_0000 ==> (v as i32) == (v as u32),
        (v as u32) >= 0x8000_0000 ==> (v as i32) == (v as u32) - 0x1_0000_0000,
        (v as u64) < 0x8000_0000_0000_0000 ==> (v as i64) == (v as u64),
        (v as u64) >= 0x8000_0000_0000_0000 ==> (v as i64) == (v as u64) - 0x1_0000_0000_0000_0000,
{
}

/// What a conversion from `u64` gives, for every target kind of a fixed
/// width: the low bits of the value, as many as the target has, read in the
/// target's signedness.
pub proof fn lemma_from_u64(v: u64)
    ensures
        ScalarConvertible::<u8>::as_spec(v) == wrap_unsigned(v as int, 0x100),
        ScalarConvertible::<i8>::as_spec(v) == wrap_signed(v as int, 0x100),
        ScalarConvertible::<u16>::as_spec(v) == wrap_unsigned(v as int, 0x1_0000),
        ScalarConvertible::<i16>::as_spec(v) == wrap_signed(v as int, 0x1_0000),
        ScalarConvertible::<u32>::as_spec(v) == wrap_unsigned(v as int, 0x1_0000_0000),
        ScalarConvertible::<i32>::as_spec(v) == wrap_signed(v as int, 0x1_0000_0000),
        ScalarConvertible::<u64>::as_spec(v) == wrap_unsigned(v as int, 0x1_0000_0000_0000_0000),
        ScalarConvertible::<i64>::as_spec(v) == wrap_signed(v as int, 0x1_0000_0000_0000_0000),
{
    lemma_bits_u64_unsigned(v);
    lemma_bits_u64_signed(v);
}

/// How the bits of an `i64` read without a sign.
proof fn lemma_bits_i64_own(v: i64)
    by (bit_vector)
    ensures
        v >= 0 ==> (v as u64) == v,
        v < 0 ==> (v as u64) == v + 0x1_0000_0000_0000_0000,
{
}

/// What an `i64` becomes in the unsigned kinds.
proof fn lemma_bits_i64_unsigned(v: i64)
    by (bit_vector)
    ensures
        (v as u8) == (v as u64) % 0x100,
        (v as u16) == (v as u64) % 0x1_0000,
        (v as u32) == (v as u64) % 0x1_0000_0000,
{
}

/// How the signed kinds read the bits that the unsigned kinds keep of an
/// `i64`.
proof fn lemma_bits_i64_signed(v: i64)
    by (bit_vector)
    ensures
        (v as u8) < 0x80 ==> (v as i8) == (v as u8),
        (v as u8) >= 0x80 ==> (v as i8) == (v as u8) - 0x100,
        (v as u16) < 0x8000 ==> (v as i16) == (v as u16),
        (v as u16) >= 0x8000 ==> (v as i16) == (v as u16) - 0x1_0000,
        (v as u32) < 0x8000_0000 ==> (v as i32) == (v as u32),
        (v as u32) >= 0x8000_0000 ==> (v as i32) == (v as u32) - 0x1_0000_0000,
{
}

/// What a conversion from `i64` gives, for every target kind of a fixed
/// width: the low bits of the value, as many as the target has, read in the
/// target's signedness.
pub proof fn lemma_from_i64(v: i64)
    ensures
        ScalarConvertible::<u8>::as_spec(v) == wrap_unsigned(v as int, 0x100),
        ScalarConvertible::<i8>::as_spec(v) == wrap_signed(v as int, 0x100),
        ScalarConvertible::<u16>::as_spec(v) == wrap_unsigned(v as int, 0x1_0000),
        ScalarConvertible::<i16>::as_spec(v) == wrap_signed(v as int, 0x1_0000),
        ScalarConvertible::<u32>::as_spec(v) == wrap_unsigned(v as int, 0x1_0000_0000),
        ScalarConvertible::<i32>::as_spec(v) == wrap_signed(v as int, 0x1_0000_0000),
        ScalarConvertible::<u64>::as_spec(v) == wrap_unsigned(v as int, 0x1_0000_0000_0000_0000),
        ScalarConvertible::<i64>::as_spec(v) == wrap_signed(v as int, 0x1_0000_0000_0000_0000),
{
    lemma_bits_i64_own(v);
    lemma_bits_i64_unsigned(v);
    lemma_bits_i64_signed(v);
    lemma_mod_multiples_vanish(0x100_0000_0000_0000, v as int, 0x100);
    lemma_mod_multiples_vanish(0x1_0000_0000_0000, v as int, 0x1_0000);
    lemma_mod_multiples_vanish(0x1_0000_0000, v as int, 0x1_0000_0000);
}

/// A conversion from `u8` keeps every value that the target kind can hold.
pub proof fn lemma_kept_from_u8(v: u8)
    ensures
        u8::MIN <= v <= u8::MAX ==> ScalarConvertible::<u8>::as_spec(v) == v,
        i8::MIN <= v <= i8::MAX ==> ScalarConvertible::<i8>::as_spec(v) == v,
        u16::MIN <= v <= u16::MAX ==> ScalarConvertible::<u16>::as_spec(v) == v,
        i16::MIN <= v <= i16::MAX ==> ScalarConvertible::<i16>::as_spec(v) == v,
        u32::MIN <= v <= u32::MAX ==> ScalarConvertible::<u32>::as_spec(v) == v,
        i32::MIN <= v <= i32::MAX ==> ScalarConvertible::<i32>::as_spec(v) == v,
        u64::MIN <= v <= u64::MAX ==> ScalarConvertible::<u64>::as_spec(v) == v,
        i64::MIN <= v <= i64::MAX ==> ScalarConvertible::<i64>::as_spec(v) == v,
        usize::MIN <= v <= usize::MAX ==> ScalarConvertible::<usize>::as_spec(v) == v,
        isize::MIN <= v <= isize::MAX ==> ScalarConvertible::<isize>::as_spec(v) == v,
{
}

/// A conversion from `i8` keeps every value that the target kind can hold.
pub proof fn lemma_kept_from_i8(v: i8)
    ensures
        u8::MIN <= v <= u8::MAX ==> ScalarConvertible::<u8>::as_spec(v) == v,
        i8::MIN <= v <= i8::MAX ==> ScalarConvertible::<i8>::as_spec(v) == v,
        u16::MIN <= v <= u16::MAX ==> ScalarConvertible::<u16>::as_spec(v) == v,
        i16::MIN <= v <= i16::MAX ==> ScalarConvertible::<i16>::as_spec(v) == v,
        u32::MIN <= v <= u32::MAX ==> ScalarConvertible::<u32>::as_spec(v) == v,
        i32::MIN <= v <= i32::MAX ==> ScalarConvertible::<i32>::as_spec(v) == v,
        u64::MIN <= v <= u64::MAX ==> ScalarConvertible::<u64>::as_spec(v) == v,
        i64::MIN <= v <= i64::MAX ==> ScalarConvertible::<i64>::as_spec(v) == v,
        usize::MIN <= v <= usize::MAX ==> ScalarConvertible::<usize>::as_spec(v) == v,
        isize::MIN <= v <= isize::MAX ==> ScalarConvertible::<isize>::as_spec(v) == v,
{
}

/// A conversion from `u16` keeps every value that the target kind can hold.
pub proof fn lemma_kept_from_u16(v: u16)
    ensures
        u8::MIN <= v <= u8::MAX ==> ScalarConvertible::<u8>::as_spec(v) == v,
        i8::MIN <= v <= i8::MAX ==> ScalarConvertible::<i8>::as_spec(v) == v,
        u16::MIN <= v <= u16::MAX ==> ScalarConvertible::<u16>::as_spec(v) == v,
        i16::MIN <= v <= i16::MAX ==> ScalarConvertible::<i16>::as_spec(v) == v,
        u32::MIN <= v <= u32::MAX ==> ScalarConvertible::<u32>::as_spec(v) == v,
        i32::MIN <= v <= i32::MAX ==> ScalarConvertible::<i32>::as_spec(v) == v,
        u64::MIN <= v <= u64::MAX ==> ScalarConvertible::<u64>::as_spec(v) == v,
        i64::MIN <= v <= i64::MAX ==> ScalarConvertible::<i64>::as_spec(v) == v,
        usize::MIN <= v <= usize::MAX ==> ScalarConvertible::<usize>::as_spec(v) == v,
        isize::MIN <= v <= isize::MAX ==> ScalarConvertible::<isize>::as_spec(v) == v,
{
}

/// A conversion from `i16` keeps every value that the target kind can hold.
pub proof fn lemma_kept_from_i16(v: i16)
    ensures
        u8::MIN <= v <= u8::MAX ==> ScalarConvertible::<u8>::as_spec(v) == v,
        i8::MIN <= v <= i8::MAX ==> ScalarConvertible::<i8>::as_spec(v) == v,
        u16::MIN <= v <= u16::MAX ==> ScalarConvertible::<u16>::as_spec(v) == v,
        i16::MIN <= v <= i16::MAX ==> ScalarConvertible::<i16>::as_spec(v) == v,
        u32::MIN <= v <= u32::MAX ==> ScalarConvertible::<u32>::as_spec(v) == v,
        i32::MIN <= v <= i32::MAX ==> ScalarConvertible::<i32>::as_spec(v) == v,
        u64::MIN <= v <= u64::MAX ==> ScalarConvertible::<u64>::as_spec(v) == v,
        i64::MIN <= v <= i64::MAX ==> ScalarConvertible::<i64>::as_spec(v) == v,
        usize::MIN <= v <= usize::MAX ==> ScalarConvertible::<usize>::as_spec(v) == v,
        isize::MIN <= v <= isize::MAX ==> ScalarConvertible::<isize>::as_spec(v) == v,
{
}

/// A conversion from `u32` keeps every value that the target kind can hold.
pub proof fn lemma_kept_from_u32(v: u32)
    ensures
        u8::MIN <= v <= u8::MAX ==> ScalarConvertible::<u8>::as_spec(v) == v,
        i8::MIN <= v <= i8::MAX ==> ScalarConvertible::<i8>::as_spec(v) == v,
        u16::MIN <= v <= u16::MAX ==> ScalarConvertible::<u16>::as_spec(v) == v,
        i16::MIN <= v <= i16::MAX ==> ScalarConvertible::<i16>::as_spec(v) == v,
        u32::MIN <= v <= u32::MAX ==> ScalarConvertible::<u32>::as_spec(v) == v,
        i32::MIN <= v <= i32::MAX ==> ScalarConvertible::<i32>::as_spec(v) == v,
        u64::MIN <= v <= u64::MAX ==> ScalarConvertible::<u64>::as_spec(v) == v,
        i64::MIN <= v <= i64::MAX ==> ScalarConvertible::<i64>::as_spec(v) == v,
        usize::MIN <= v <= usize::MAX ==> ScalarConvertible::<usize>::as_spec(v) == v,
        isize::MIN <= v <= isize::MAX ==> ScalarConvertible::<isize>::as_spec(v) == v,
{
}

/// A conversion from `i32` keeps every value that the target kind can hold.
pub proof fn lemma_kept_from_i32(v: i32)
    ensures
        u8::MIN <= v <= u8::MAX ==> ScalarConvertible::<u8>::as_spec(v) == v,
        i8::MIN <= v <= i8::MAX ==> ScalarConvertible::<i8>::as_spec(v) == v,
        u16::MIN <= v <= u16::MAX ==> ScalarConvertible::<u16>::as_spec(v) == v,
        i16::MIN <= v <= i16::MAX ==> ScalarConvertible::<i16>::as_spec(v) == v,
        u32::MIN <= v <= u32::MAX ==> ScalarConvertible::<u32>::as_spec(v) == v,
        i32::MIN <= v <= i32::MAX ==> ScalarConvertible::<i32>::as_spec(v) == v,
        u64::MIN <= v <= u64::MAX ==> ScalarConvertible::<u64>::as_spec(v) == v,
        i64::MIN <= v <= i64::MAX ==> ScalarConvertible::<i64>::as_spec(v) == v,
        usize::MIN <= v <= usize::MAX ==> ScalarConvertible::<usize>::as_spec(v) == v,
        isize::MIN <= v <= isize::MAX ==> ScalarConvertible::<isize>::as_spec(v) == v,
{
}

/// A conversion from `u64` keeps every value that the target kind can hold.
pub proof fn lemma_kept_from_u64(v: u64)
    ensures
        u8::MIN <= v <= u8::MAX ==> ScalarConvertible::<u8>::as_spec(v) == v,
        i8::MIN <= v <= i8::MAX ==> ScalarConvertible::<i8>::as_spec(v) == v,
        u16::MIN <= v <= u16::MAX ==> ScalarConvertible::<u16>::as_spec(v) == v,
        i16::MIN <= v <= i16::MAX ==> ScalarConvertible::<i16>::as_spec(v) == v,
        u32::MIN <= v <= u32::MAX ==> ScalarConvertible::<u32>::as_spec(v) == v,
        i32::MIN <= v <= i32::MAX ==> ScalarConvertible::<i32>::as_spec(v) == v,
        u64::MIN <= v <= u64::MAX ==> ScalarConvertible::<u64>::as_spec(v) == v,
        i64::MIN <= v <= i64::MAX ==> ScalarConvertible::<i64>::as_spec(v) == v,
        usize::MIN <= v <= usize::MAX ==> ScalarConvertible::<usize>::as_spec(v) == v,
        isize::MIN <= v <= isize::MAX ==> ScalarConvertible::<isize>::as_spec(v) == v,
{
}

/// A conversion from `i64` keeps every value that the target kind can hold.
pub proof fn lemma_kept_from_i64(v: i64)
    ensures
        u8::MIN <= v <= u8::MAX ==> ScalarConvertible::<u8>::as_spec(v) == v,
        i8::MIN <= v <= i8::MAX ==> ScalarConvertible::<i8>::as_spec(v) == v,
        u16::MIN <= v <= u16::MAX ==> ScalarConvertible::<u16>::as_spec(v) == v,
        i16::MIN <= v <= i16::MAX ==> ScalarConvertible::<i16>::as_spec(v) == v,
        u32::MIN <= v <= u32::MAX ==> ScalarConvertible::<u32>::as_spec(v) == v,
        i32::MIN <= v <= i32::MAX ==> ScalarConvertible::<i32>::as_spec(v) == v,
        u64::MIN <= v <= u64::MAX ==> ScalarConvertible::<u64>::as_spec(v) == v,
        i64::MIN <= v <= i64::MAX ==> ScalarConvertible::<i64>::as_spec(v) == v,
        usize::MIN <= v <= usize::MAX ==> ScalarConvertible::<usize>::as_spec(v) == v,
        isize::MIN <= v <= isize::MAX ==> ScalarConvertible::<isize>::as_spec(v) == v,
{
}

/// A conversion from `usize` keeps every value that the target kind can hold.
pub proof fn lemma_kept_from_usize(v: usize)
    ensures
        u8::MIN <= v <= u8::MAX ==> ScalarConvertible::<u8>::as_spec(v) == v,
        i8::MIN <= v <= i8::MAX ==> ScalarConvertible::<i8>::as_spec(v) == v,
        u16::MIN <= v <= u16::MAX ==> ScalarConvertible::<u16>::as_spec(v) == v,
        i16::MIN <= v <= i16::MAX ==> ScalarConvertible::<i16>::as_spec(v) == v,
        u32::MIN <= v <= u32::MAX ==> ScalarConvertible::<u32>::as_spec(v) == v,
        i32::MIN <= v <= i32::MAX ==> ScalarConvertible::<i32>::as_spec(v) == v,
        u64::MIN <= v <= u64::MAX ==> ScalarConvertible::<u64>::as_spec(v) == v,
        i64::MIN <= v <= i64::MAX ==> ScalarConvertible::<i64>::as_spec(v) == v,
        usize::MIN <= v <= usize::MAX ==> ScalarConvertible::<usize>::as_spec(v) == v,
        isize::MIN <= v <= isize::MAX ==> ScalarConvertible::<isize>::as_spec(v) == v,
{
}

/// A conversion from `isize` keeps every value that the target kind can hold.
pub proof fn lemma_kept_from_isize(v: isize)
    ensures
        u8::MIN <= v <= u8::MAX ==> ScalarConvertible::<u8>::as_spec(v) == v,
        i8::MIN <= v <= i8::MAX ==> ScalarConvertible::<i8>::as_spec(v) == v,
        u16::MIN <= v <= u16::MAX ==> ScalarConvertible::<u16>::as_spec(v) == v,
        i16::MIN <= v <= i16::MAX ==> ScalarConvertible::<i16>::as_spec(v) == v,
        u32::MIN <= v <= u32::MAX ==> ScalarConvertible::<u32>::as_spec(v) == v,
        i32::MIN <= v <= i32::MAX ==> ScalarConvertible::<i32>::as_spec(v) == v,
        u64::MIN <= v <= u64::MAX ==> ScalarConvertible::<u64>::as_spec(v) == v,
        i64::MIN <= v <= i64::MAX ==> ScalarConvertible::<i64>::as_spec(v) == v,
        usize::MIN <= v <= usize::MAX ==> ScalarConvertible::<usize>::as_spec(v) == v,
        isize::MIN <= v <= isize::MAX ==> ScalarConvertible::<isize>::as_spec(v) == v,
{
}

/// The bit-level facts behind `lemma_into_word_from_u8`.
proof fn lemma_bits_u8_word(v: u8)
    by (bit_vector)
    ensures
        usize::BITS == 64 ==> (v as usize) == (v as u64),
        usize::BITS == 32 ==> (v as usize) == (v as u32),
        usize::BITS == 64 ==> (v as isize) == (v as i64),
        usize::BITS == 32 ==> (v as isize) == (v as i32),
{
}

/// A conversion from `u8` into a word-sized kind is the conversion into the
/// kind of 64 bits where words have 64 bits, and into the kind of 32 bits
/// where they have 32.
pub proof fn lemma_into_word_from_u8(v: u8)
    ensures
        usize::BITS == 64 ==> ScalarConvertible::<usize>::as_spec(v) == ScalarConvertible::<
            u64,
        >::as_spec(v),
        usize::BITS == 32 ==> ScalarConvertible::<usize>::as_spec(v) == ScalarConvertible::<
            u32,
        >::as_spec(v),
        usize::BITS == 64 ==> ScalarConvertible::<isize>::as_spec(v) == ScalarConvertible::<
            i64,
        >::as_spec(v),
        usize::BITS == 32 ==> ScalarConvertible::<isize>::as_spec(v) == ScalarConvertible::<
            i32,
        >::as_spec(v),
{
    lemma_bits_u8_word(v);
}

/// The bit-level facts behind `lemma_into_word_from_i8`.
proof fn lemma_bits_i8_word(v: i8)
    by (bit_vector)
    ensures
        usize::BITS == 64 ==> (v as usize) == (v as u64),
        usize::BITS == 32 ==> (v as usize) == (v as u32),
        usize::BITS == 64 ==> (v as isize) == (v as i64),
        usize::BITS == 32 ==> (v as isize) == (v as i32),
{
}

/// A conversion from `i8` into a word-sized kind is the conversion into the
/// kind of 64 bits where words have 64 bits, and into the kind of 32 bits
/// where they have 32.
pub proof fn lemma_into_word_from_i8(v: i8)
    ensures
        usize::BITS == 64 ==> ScalarConvertible::<usize>::as_spec(v) == ScalarConvertible::<
            u64,
        >::as_spec(v),
        usize::BITS == 32 ==> ScalarConvertible::<usize>::as_spec(v) == ScalarConvertible::<
            u32,
        >::as_spec(v),
        usize::BITS == 64 ==> ScalarConvertible::<isize>::as_spec(v) == ScalarConvertible::<
            i64,
        >::as_spec(v),
        usize::BITS == 32 ==> ScalarConvertible::<isize>::as_spec(v) == ScalarConvertible::<
            i32,
        >::as_spec(v),
{
    lemma_bits_i8_word(v);
}

/// The bit-level facts behind `lemma_into_word_from_u16`.
proof fn lemma_bits_u16_word(v: u16)
    by (bit_vector)
    ensures
        usize::BITS == 64 ==> (v as usize) == (v as u64),
        usize::BITS == 32 ==> (v as usize) == (v as u32),
        usize::BITS == 64 ==> (v as isize) == (v as i64),
        usize::BITS == 32 ==> (v as isize) == (v as i32),
{
}

/// A conversion from `u16` into a word-sized kind is the conversion into the
/// kind of 64 bits where words have 64 bits, and into the kind of 32 bits
/// where they have 32.
pub proof fn lemma_into_word_from_u16(v: u16)
    ensures
        usize::BITS == 64 ==> ScalarConvertible::<usize>::as_spec(v) == ScalarConvertible::<
            u64,
        >::as_spec(v),
        usize::BITS == 32 ==> ScalarConvertible::<usize>::as_spec(v) == ScalarConvertible::<
            u32,
        >::as_spec(v),
        usize::BITS == 64 ==> ScalarConvertible::<isize>::as_spec(v) == ScalarConvertible::<
            i64,
        >::as_spec(v),
        usize::BITS == 32 ==> ScalarConvertible::<isize>::as_spec(v) == ScalarConvertible::<
            i32,
        >::as_spec(v),
{
    lemma_bits_u16_word(v);
}

/// The bit-level facts behind `lemma_into_word_from_i16`.
proof fn lemma_bits_i16_word(v: i16)
    by (bit_vector)
    ensures
        usize::BITS == 64 ==> (v as usize) == (v as u64),
        usize::BITS == 32 ==> (v as usize) == (v as u32),
        usize::BITS == 64 ==> (v as isize) == (v as i64),
        usize::BITS == 32 ==> (v as isize) == (v as i32),
{
}

/// A conversion from `i16` into a word-sized kind is the conversion into the
/// kind of 64 bits where words have 64 bits, and into the kind of 32 bits
/// where they have 32.
pub proof fn lemma_into_word_from_i16(v: i16)
    ensures
        usize::BITS == 64 ==> ScalarConvertible::<usize>::as_spec(v) == ScalarConvertible::<
            u64,
        >::as_spec(v),
        usize::BITS == 32 ==> ScalarConvertible::<usize>::as_spec(v) == ScalarConvertible::<
            u32,
        >::as_spec(v),
        usize::BITS == 64 ==> ScalarConvertible::<isize>::as_spec(v) == ScalarConvertible::<
            i64,
        >::as_spec(v),
        usize::BITS == 32 ==> ScalarConvertible::<isize>::as_spec(v) == ScalarConvertible::<
            i32,
        >::as_spec(v),
{
    lemma_bits_i16_word(v);
}

/// The bit-level facts behind `lemma_into_word_from_u32`.
proof fn lemma_bits_u32_word(v: u32)
    by (bit_vector)
    ensures
        usize::BITS == 64 ==> (v as usize) == (v as u64),
        usize::BITS == 32 ==> (v as usize) == (v as u32),
        usize::BITS == 64 ==> (v as isize) == (v as i64),
        usize::BITS == 32 ==> (v as isize) == (v as i32),
{
}

/// A conversion from `u32` into a word-sized kind is the conversion into the
/// kind of 64 bits where words have 64 bits, and into the kind of 32 bits
/// where they have 32.
pub proof fn lemma_into_word_from_u32(v: u32)
    ensures
        usize::BITS == 64 ==> ScalarConvertible::<usize>::as_spec(v) == ScalarConvertible::<
            u64,
        >::as_spec(v),
        usize::BITS == 32 ==> ScalarConvertible::<usize>::as_spec(v) == ScalarConvertible::<
            u32,
        >::as_spec(v),
        usize::BITS == 64 ==> ScalarConvertible::<isize>::as_spec(v) == ScalarConvertible::<
            i64,
        >::as_spec(v),
        usize::BITS == 32 ==> ScalarConvertible::<isize>::as_spec(v) == ScalarConvertible::<
            i32,
        >::as_spec(v),
{
    lemma_bits_u32_word(v);
}

/// The bit-level facts behind `lemma_into_word_from_i32`.
proof fn lemma_bits_i32_word(v: i32)
    by (bit_vector)
    ensures
        usize::BITS == 64 ==> (v as usize) == (v as u64),
        usize::BITS == 32 ==> (v as usize) == (v as u32),
        usize::BITS == 64 ==> (v as isize) == (v as i64),
        usize::BITS == 32 ==> (v as isize) == (v as i32),
{
}

/// A conversion from `i32` into a word-sized kind is the conversion into the
/// kind of 64 bits where words have 64 bits, and into the kind of 32 bits
/// where they have 32.
pub proof fn lemma_into_word_from_i32(v: i32)
    ensures
        usize::BITS == 64 ==> ScalarConvertible::<usize>::as_spec(v) == ScalarConvertible::<
            u64,
        >::as_spec(v),
        usize::BITS == 32 ==> ScalarConvertible::<usize>::as_spec(v) == ScalarConvertible::<
            u32,
        >::as_spec(v),
        usize::BITS == 64 ==> ScalarConvertible::<isize>::as_spec(v) == ScalarConvertible::<
            i64,
        >::as_spec(v),
        usize::BITS == 32 ==> ScalarConvertible::<isize>::as_spec(v) == ScalarConvertible::<
            i32,
        >::as_spec(v),
{
    lemma_bits_i32_word(v);
}

/// The bit-level facts behind `lemma_into_word_from_u64`.
proof fn lemma_bits_u64_word(v: u64)
    by (bit_vector)
    ensures
        usize::BITS == 64 ==> (v as usize) == (v as u64),
        usize::BITS == 32 ==> (v as usize) == (v as u32),
        usize::BITS == 64 ==> (v as isize) == (v as i64),
        usize::BITS == 32 ==> (v as isize) == (v as i32),
{
}

/// A conversion from `u64` into a word-sized kind is the conversion into the
/// kind of 64 bits where words have 64 bits, and into the kind of 32 bits
/// where they have 32.
pub proof fn lemma_into_word_from_u64(v: u64)
    ensures
        usize::BITS == 64 ==> ScalarConvertible::<usize>::as_spec(v) == ScalarConvertible::<
            u64,
        >::as_spec(v),
        usize::BITS == 32 ==> ScalarConvertible::<usize>::as_spec(v) == ScalarConvertible::<
            u32,
        >::as_spec(v),
        usize::BITS == 64 ==> ScalarConvertible::<isize>::as_spec(v) == ScalarConvertible::<
            i64,
        >::as_spec(v),
        usize::BITS == 32 ==> ScalarConvertible::<isize>::as_spec(v) == ScalarConvertible::<
            i32,
        >::as_spec(v),
{
    lemma_bits_u64_word(v);
}

/// The bit-level facts behind `lemma_into_word_from_i64`.
proof fn lemma_bits_i64_word(v: i64)
    by (bit_vector)
    ensures
        usize::BITS == 64 ==> (v as usize) == (v as u64),
        usize::BITS == 32 ==> (v as usize) == (v as u32),
        usize::BITS == 64 ==> (v as isize) == (v as i64),
        usize::BITS == 32 ==> (v as isize) == (v as i32),
{
}

/// A conversion from `i64` into a word-sized kind is the conversion into the
/// kind of 64 bits where words have 64 bits, and into the kind of 32 bits
/// where they have 32.
pub proof fn lemma_into_word_from_i64(v: i64)
    ensures
        usize::BITS == 64 ==> ScalarConvertible::<usize>::as_spec(v) == ScalarConvertible::<
            u64,
        >::as_spec(v),
        usize::BITS == 32 ==> ScalarConvertible::<usize>::as_spec(v) == ScalarConvertible::<
            u32,
        >::as_spec(v),
        usize::BITS == 64 ==> ScalarConvertible::<isize>::as_spec(v) == ScalarConvertible::<
            i64,
        >::as_spec(v),
        usize::BITS == 32 ==> ScalarConvertible::<isize>::as_spec(v) == ScalarConvertible::<
            i32,
        >::as_spec(v),
{
    lemma_bits_i64_word(v);
}

/// The bit-level facts behind `lemma_from_usize`.
proof fn lemma_bits_usize(v: usize)
    by (bit_vector)
    ensures
        usize::BITS == 64 ==> (v as u8) == ((v as u64) as u8),
        usize::BITS == 32 ==> (v as u8) == ((v as u32) as u8),
        usize::BITS == 64 ==> (v as i8) == ((v as u64) as i8),
        usize::BITS == 32 ==> (v as i8) == ((v as u32) as i8),
        usize::BITS == 64 ==> (v as u16) == ((v as u64) as u16),
        usize::BITS == 32 ==> (v as u16) == ((v as u32) as u16),
        usize::BITS == 64 ==> (v as i16) == ((v as u64) as i16),
        usize::BITS == 32 ==> (v as i16) == ((v as u32) as i16),
        usize::BITS == 64 ==> (v as u32) == ((v as u64) as u32),
        usize::BITS == 32 ==> (v as u32) == ((v as u32) as u32),
        usize::BITS == 64 ==> (v as i32) == ((v as u64) as i32),
        usize::BITS == 32 ==> (v as i32) == ((v as u32) as i32),
        usize::BITS == 64 ==> (v as u64) == ((v as u64) as u64),
        usize::BITS == 32 ==> (v as u64) == ((v as u32) as u64),
        usize::BITS == 64 ==> (v as i64) == ((v as u64) as i64),
        usize::BITS == 32 ==> (v as i64) == ((v as u32) as i64),
        usize::BITS == 64 ==> (v as isize) == ((v as u64) as isize),
        usize::BITS == 32 ==> (v as isize) == ((v as u32) as isize),
{
}

/// A conversion from `usize` gives what the conversion of the same number
/// from `u64` gives where words have 64 bits, and what the one from `u32`
/// gives where they have 32.
pub proof fn lemma_from_usize(v: usize)
    ensures
        usize::BITS == 64 ==> v as u64 == v,
        usize::BITS == 32 ==> v as u32 == v,
        usize::BITS == 64 ==> ScalarConvertible::<u8>::as_spec(v) == ScalarConvertible::<
            u8,
        >::as_spec(v as u64),
        usize::BITS == 32 ==> ScalarConvertible::<u8>::as_spec(v) == ScalarConvertible::<
            u8,
        >::as_spec(v as u32),
        usize::BITS == 64 ==> ScalarConvertible::<i8>::as_spec(v) == ScalarConvertible::<
            i8,
        >::as_spec(v as u64),
        usize::BITS == 32 ==> ScalarConvertible::<i8>::as_spec(v) == ScalarConvertible::<
            i8,
        >::as_spec(v as u32),
        usize::BITS == 64 ==> ScalarConvertible::<u16>::as_spec(v) == ScalarConvertible::<
            u16,
        >::as_spec(v as u64),
        usize::BITS == 32 ==> ScalarConvertible::<u16>::as_spec(v) == ScalarConvertible::<
            u16,
        >::as_spec(v as u32),
        usize::BITS == 64 ==> ScalarConvertible::<i16>::as_spec(v) == ScalarConvertible::<
            i16,
        >::as_spec(v as u64),
        usize::BITS == 32 ==> ScalarConvertible::<i16>::as_spec(v) == ScalarConvertible::<
            i16,
        >::as_spec(v as u32),
        usize::BITS == 64 ==> ScalarConvertible::<u32>::as_spec(v) == ScalarConvertible::<
            u32,
        >::as_spec(v as u64),
        usize::BITS == 32 ==> ScalarConvertible::<u32>::as_spec(v) == ScalarConvertible::<
            u32,
        >::as_spec(v as u32),
        usize::BITS == 64 ==> ScalarConvertible::<i32>::as_spec(v) == ScalarConvertible::<
            i32,
        >::as_spec(v as u64),
        usize::BITS == 32 ==> ScalarConvertible::<i32>::as_spec(v) == ScalarConvertible::<
            i32,
        >::as_spec(v as u32),
        usize::BITS == 64 ==> ScalarConvertible::<u64>::as_spec(v) == ScalarConvertible::<
            u64,
        >::as_spec(v as u64),
        usize::BITS == 32 ==> ScalarConvertible::<u64>::as_spec(v) == ScalarConvertible::<
            u64,
        >::as_spec(v as u32),
        usize::BITS == 64 ==> ScalarConvertible::<i64>::as_spec(v) == ScalarConvertible::<
            i64,
        >::as_spec(v as u64),
        usize::BITS == 32 ==> ScalarConvertible::<i64>::as_spec(v) == ScalarConvertible::<
            i64,
        >::as_spec(v as u32),
        usize::BITS == 64 ==> ScalarConvertible::<isize>::as_spec(v) == ScalarConvertible::<
            isize,
        >::as_spec(v as u64),
        usize::BITS == 32 ==> ScalarConvertible::<isize>::as_spec(v) == ScalarConvertible::<
            isize,
        >::as_spec(v as u32),
{
    lemma_bits_usize(v);
}

/// The bit-level facts behind `lemma_from_isize`.
proof fn lemma_bits_isize(v: isize)
    by (bit_vector)
    ensures
        usize::BITS == 64 ==> (v as u8) == ((v as i64) as u8),
        usize::BITS == 32 ==> (v as u8) == ((v as i32) as u8),
        usize::BITS == 64 ==> (v as i8) == ((v as i64) as i8),
        usize::BITS == 32 ==> (v as i8) == ((v as i32) as i8),
        usize::BITS == 64 ==> (v as u16) == ((v as i64) as u16),
        usize::BITS == 32 ==> (v as u16) == ((v as i32) as u16),
        usize::BITS == 64 ==> (v as i16) == ((v as i64) as i16),
        usize::BITS == 32 ==> (v as i16) == ((v as i32) as i16),
        usize::BITS == 64 ==> (v as u32) == ((v as i64) as u32),
        usize::BITS == 32 ==> (v as u32) == ((v as i32) as u32),
        usize::BITS == 64 ==> (v as i32) == ((v as i64) as i32),
        usize::BITS == 32 ==> (v as i32) == ((v as i32) as i32),
        usize::BITS == 64 ==> (v as u64) == ((v as i64) as u64),
        usize::BITS == 32 ==> (v as u64) == ((v as i32) as u64),
        usize::BITS == 64 ==> (v as i64) == ((v as i64) as i64),
        usize::BITS == 32 ==> (v as i64) == ((v as i32) as i64),
        usize::BITS == 64 ==> (v as usize) == ((v as i64) as usize),
        usize::BITS == 32 ==> (v as usize) == ((v as i32) as usize),
{
}

/// A conversion from `isize` gives what the conversion of the same number
/// from `i64` gives where words have 64 bits, and what the one from `i32`
/// gives where they have 32.
pub proof fn lemma_from_isize(v: isize)
    ensures
        usize::BITS == 64 ==> v as i64 == v,
        usize::BITS == 32 ==> v as i32 == v,
        usize::BITS == 64 ==> ScalarConvertible::<u8>::as_spec(v) == ScalarConvertible::<
            u8,
        >::as_spec(v as i64),
        usize::BITS == 32 ==> ScalarConvertible::<u8>::as_spec(v) == ScalarConvertible::<
            u8,
        >::as_spec(v as i32),
        usize::BITS == 64 ==> ScalarConvertible::<i8>::as_spec(v) == ScalarConvertible::<
            i8,
        >::as_spec(v as i64),
        usize::BITS == 32 ==> ScalarConvertible::<i8>::as_spec(v) == ScalarConvertible::<
            i8,
        >::as_spec(v as i32),
        usize::BITS == 64 ==> ScalarConvertible::<u16>::as_spec(v) == ScalarConvertible::<
            u16,
        >::as_spec(v as i64),
        usize::BITS == 32 ==> ScalarConvertible::<u16>::as_spec(v) == ScalarConvertible::<
            u16,
        >::as_spec(v as i32),
        usize::BITS == 64 ==> ScalarConvertible::<i16>::as_spec(v) == ScalarConvertible::<
            i16,
        >::as_spec(v as i64),
        usize::BITS == 32 ==> ScalarConvertible::<i16>::as_spec(v) == ScalarConvertible::<
            i16,
        >::as_spec(v as i32),
        usize::BITS == 64 ==> ScalarConvertible::<u32>::as_spec(v) == ScalarConvertible::<
            u32,
        >::as_spec(v as i64),
        usize::BITS == 32 ==> ScalarConvertible::<u32>::as_spec(v) == ScalarConvertible::<
            u32,
        >::as_spec(v as i32),
        usize::BITS == 64 ==> ScalarConvertible::<i32>::as_spec(v) == ScalarConvertible::<
            i32,
        >::as_spec(v as i64),
        usize::BITS == 32 ==> ScalarConvertible::<i32>::as_spec(v) == ScalarConvertible::<
            i32,
        >::as_spec(v as i32),
        usize::BITS == 64 ==> ScalarConvertible::<u64>::as_spec(v) == ScalarConvertible::<
            u64,
        >::as_spec(v as i64),
        usize::BITS == 32 ==> ScalarConvertible::<u64>::as_spec(v) == ScalarConvertible::<
            u64,
        >::as_spec(v as i32),
        usize::BITS == 64 ==> ScalarConvertible::<i64>::as_spec(v) == ScalarConvertible::<
            i64,
        >::as_spec(v as i64),
        usize::BITS == 32 ==> ScalarConvertible::<i64>::as_spec(v) == ScalarConvertible::<
            i64,
        >::as_spec(v as i32),
        usize::BITS == 64 ==> ScalarConvertible::<usize>::as_spec(v) == ScalarConvertible::<
            usize,
        >::as_spec(v as i64),
        usize::BITS == 32 ==> ScalarConvertible::<usize>::as_spec(v) == ScalarConvertible::<
            usize,
        >::as_spec(v as i32),
{
    lemma_bits_isize(v);
}

} // verus!
