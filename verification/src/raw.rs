//! Signed 24-bit integers as three little-endian bytes.

use vstd::prelude::*;
use crate::wrap::wrap24;
use vstd::arithmetic::power2::pow2;
use vstd::arithmetic::div_mod::lemma_fundamental_div_mod_converse;
use crate::kernel24::asm_divsat24;
use crate::kernel24::asm_ge24;
use crate::kernel24::asm_mulsat24;
use crate::kernel24::asm_negsat24;
use crate::kernel24::asm_shl24;
use crate::kernel24::asm_shr24;
use crate::wrap::lemma_wrap24_congruent;
use crate::wrap::lemma_wrap24_shift;

verus! {

/// A signed 24-bit two's complement integer: low, middle and high byte.
pub type Int24Raw = (u8, u8, u8);

/// Largest value of a signed 24-bit integer.
pub const I24_MAX: i32 = 0x7F_FFFF;

/// Smallest value of a signed 24-bit integer.
pub const I24_MIN: i32 = -0x80_0000;

/// The integer that the three bytes stand for.
pub open spec fn raw_value(a: Int24Raw) -> int {
    let u = a.0 as int + 0x100 * (a.1 as int) + 0x1_0000 * (a.2 as int);
    if a.2 >= 0x80 {
        u - 0x100_0000
    } else {
        u
    }
}

/// `v` clamped into the signed 24-bit range.
pub open spec fn saturate24(v: int) -> int {
    if v > 0x7F_FFFF {
        0x7F_FFFF
    } else if v < -0x80_0000 {
        -0x80_0000
    } else {
        v
    }
}

/// `v` clamped into the signed 16-bit range.
pub open spec fn saturate16(v: int) -> int {
    if v > 0x7FFF {
        0x7FFF
    } else if v < -0x8000 {
        -0x8000
    } else {
        v
    }
}

/// The byte triple of the integer `v`, taken modulo 2^24.
pub open spec fn raw_of(v: int) -> Int24Raw {
    let u = v % 0x100_0000;
    ((u % 0x100) as u8, ((u / 0x100) % 0x100) as u8, (u / 0x1_0000) as u8)
}

/// `raw_of` is the inverse of `raw_value` on the 24-bit range.
pub proof fn lemma_raw_of_value(v: int)
    requires
        -0x80_0000 <= v <= 0x7F_FFFF,
    ensures
        raw_value(raw_of(v)) == v,
{
    if v < 0 {
        assert(v % 0x100_0000 == v + 0x100_0000);
    } else {
        assert(v % 0x100_0000 == v);
    }
}

/// Quotient rounded toward zero.
pub open spec fn trunc_div(a: int, b: int) -> int
    recommends
        b != 0,
{
    if a >= 0 {
        a / b
    } else {
        -((-a) / b)
    }
}

/// Saturating 24-bit division: a zero divisor yields the extreme with the
/// sign of the dividend.
pub open spec fn div24_value(a: int, b: int) -> int {
    if b == 0 {
        if a >= 0 {
            0x7F_FFFF
        } else {
            -0x80_0000
        }
    } else {
        saturate24(trunc_div(a, b))
    }
}

/// Two byte triples that stand for the same integer are the same triple.
pub proof fn lemma_raw_value_injective(a: Int24Raw, b: Int24Raw)
    requires
        raw_value(a) == raw_value(b),
    ensures
        a == b,
{
}

/// Every byte triple stands for an integer of the signed 24-bit range.
pub proof fn lemma_raw_value_range(a: Int24Raw)
    ensures
        -0x80_0000 <= raw_value(a) <= 0x7F_FFFF,
{
}

pub fn raw_zero() -> (r: Int24Raw)
    ensures
        raw_value(r) == 0,
        r == (0u8, 0u8, 0u8),
{
    (0x00, 0x00, 0x00)
}

pub fn raw_min() -> (r: Int24Raw)
    ensures
        raw_value(r) == -0x80_0000,
        r == (0u8, 0u8, 0x80u8),
{
    (0x00, 0x00, 0x80)
}

pub fn raw_max() -> (r: Int24Raw)
    ensures
        raw_value(r) == 0x7F_FFFF,
        r == (0xFFu8, 0xFFu8, 0x7Fu8),
{
    (0xFF, 0xFF, 0x7F)
}

pub fn is_neg24(a: Int24Raw) -> (r: bool)
    ensures
        r == (raw_value(a) < 0),
{
    a.2 >= 0x80
}

/// Sign-extends the triple to 32 bits.
pub fn i24raw_to_i32(v: Int24Raw) -> (r: i32)
    ensures
        r == raw_value(v),
{
    let u: i32 = v.0 as i32 + 0x100 * (v.1 as i32) + 0x1_0000 * (v.2 as i32);
    if is_neg24(v) {
        u - 0x100_0000
    } else {
        u
    }
}

/// The triple of an integer that is known to lie in the 24-bit range.
pub fn i24raw_from_i32_exact(v: i32) -> (r: Int24Raw)
    requires
        -0x80_0000 <= v <= 0x7F_FFFF,
    ensures
        raw_value(r) == v,
{
    let u: u32 = if v < 0 {
        (v + 0x100_0000) as u32
    } else {
        v as u32
    };
    ((u % 0x100) as u8, ((u / 0x100) % 0x100) as u8, (u / 0x1_0000) as u8)
}

/// Converts to 16 bits, saturating at the ends of the 16-bit range.
pub fn i24raw_to_i16_sat(v: Int24Raw) -> (r: i16)
    ensures
        r == saturate16(raw_value(v)),
{
    let x: i32 = i24raw_to_i32(v);
    if x > 0x7FFF {
        i16::MAX
    } else if x < -0x8000 {
        i16::MIN
    } else {
        x as i16
    }
}

/// Converts from 32 bits, saturating at the ends of the 24-bit range.
pub fn i32_to_i24raw_sat(v: i32) -> (r: Int24Raw)
    ensures
        raw_value(r) == saturate24(v as int),
{
    if v > I24_MAX {
        raw_max()
    } else if v < I24_MIN {
        raw_min()
    } else {
        i24raw_from_i32_exact(v)
    }
}

/// Sign-extends 16 bits to a triple.
pub fn i16_to_i24raw(v: i16) -> (r: Int24Raw)
    ensures
        raw_value(r) == v,
{
    i24raw_from_i32_exact(v as i32)
}

/// Saturating product.
pub fn mul24(a: Int24Raw, b: Int24Raw) -> (r: Int24Raw)
    ensures
        raw_value(r) == saturate24(raw_value(a) * raw_value(b)),
{
    asm_mulsat24(a, b)
}

/// Saturating quotient, rounded toward zero.
pub fn div24(a: Int24Raw, b: Int24Raw) -> (r: Int24Raw)
    ensures
        raw_value(r) == div24_value(raw_value(a), raw_value(b)),
{
    asm_divsat24(a, b)
}

/// Saturating sum.
pub fn add24(a: Int24Raw, b: Int24Raw) -> (r: Int24Raw)
    ensures
        raw_value(r) == saturate24(raw_value(a) + raw_value(b)),
{
    i32_to_i24raw_sat(i24raw_to_i32(a) + i24raw_to_i32(b))
}

/// Saturating difference.
pub fn sub24(a: Int24Raw, b: Int24Raw) -> (r: Int24Raw)
    ensures
        raw_value(r) == saturate24(raw_value(a) - raw_value(b)),
{
    i32_to_i24raw_sat(i24raw_to_i32(a) - i24raw_to_i32(b))
}

/// Saturating negation.
pub fn neg24(a: Int24Raw) -> (r: Int24Raw)
    ensures
        raw_value(r) == saturate24(-raw_value(a)),
{
    let a_neg = is_neg24(a);
    let b = asm_negsat24(a);
    if a_neg && is_neg24(b) {
        raw_max()
    } else {
        b
    }
}

/// Saturating absolute value.
pub fn abs24(a: Int24Raw) -> (r: Int24Raw)
    ensures
        raw_value(r) == saturate24(if raw_value(a) < 0 {
            -raw_value(a)
        } else {
            raw_value(a)
        }),
{
    if is_neg24(a) {
        let b = asm_negsat24(a);
        if is_neg24(b) {
            raw_max()
        } else {
            b
        }
    } else {
        a
    }
}

/// Left shift by one byte; the high byte is lost.
pub fn shl24_by8(a: Int24Raw) -> (r: Int24Raw)
    ensures
        r == (0u8, a.0, a.1),
        raw_value(r) == wrap24(raw_value(a) * 0x100),
{
    let r: Int24Raw = (0x00, a.0, a.1);
    proof {
        let k: int = a.2 as int - (if a.2 >= 0x80 { 0x100int } else { 0 }) + (if a.1 >= 0x80 {
            1int
        } else {
            0
        });
        assert(raw_value(a) * 0x100 == raw_value(r) + k * 0x100_0000);
        lemma_wrap24_shift(raw_value(r), k);
        lemma_wrap24_congruent(raw_value(r));
    }
    r
}

/// Left shift; bits that leave the 24-bit word are lost.
pub fn shl24(a: Int24Raw, count: u8) -> (r: Int24Raw)
    ensures
        raw_value(r) == wrap24(raw_value(a) * pow2(count as nat)),
{
    asm_shl24(a, count)
}

/// Arithmetic right shift by one byte.
pub fn shr24_by8(a: Int24Raw) -> (r: Int24Raw)
    ensures
        raw_value(r) == raw_value(a) / 0x100,
{
    let r: Int24Raw = if is_neg24(a) {
        (a.1, a.2, 0xFF)
    } else {
        (a.1, a.2, 0x00)
    };
    proof {
        assert(raw_value(a) == raw_value(r) * 0x100 + a.0 as int);
        lemma_fundamental_div_mod_converse(raw_value(a), 0x100, raw_value(r), a.0 as int);
    }
    r
}

/// Arithmetic right shift: the quotient by a power of two, rounded down.
pub fn shr24(a: Int24Raw, count: u8) -> (r: Int24Raw)
    ensures
        raw_value(r) == raw_value(a) / (pow2(count as nat) as int),
{
    asm_shr24(a, count)
}

pub fn eq24(a: Int24Raw, b: Int24Raw) -> (r: bool)
    ensures
        r == (raw_value(a) == raw_value(b)),
        r == (a == b),
{
    a.0 == b.0 && a.1 == b.1 && a.2 == b.2
}

pub fn ge24(a: Int24Raw, b: Int24Raw) -> (r: bool)
    ensures
        r == (raw_value(a) >= raw_value(b)),
{
    asm_ge24(a, b)
}

} // verus!
