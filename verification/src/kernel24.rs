//! Portable 24-bit arithmetic kernels.
//!
//! Each kernel computes on byte triples and is stated over the integers the
//! triples stand for.

use vstd::prelude::*;
use crate::wrap::lemma_wrap24_congruent;
use crate::wrap::lemma_wrap24_shift;
use crate::wrap::lemma_wrap_congruent;
use crate::wrap::lemma_wrap_shift;
use crate::wrap::lemma_shl_step;
use vstd::arithmetic::power2::pow2;
use vstd::arithmetic::power2::lemma_pow2_pos;
use vstd::arithmetic::power2::lemma_pow2_unfold;
use vstd::arithmetic::power2::lemma2_to64;
use vstd::arithmetic::div_mod::lemma_fundamental_div_mod_converse;
use vstd::arithmetic::div_mod::lemma_mod_bound;
use vstd::arithmetic::div_mod::lemma_fundamental_div_mod;
use crate::raw::Int24Raw;
use crate::raw::raw_value;
use crate::raw::saturate24;
use crate::wrap::wrap24;
use crate::raw::div24_value;
use crate::raw::trunc_div;
use crate::raw::i24raw_to_i32;
use crate::raw::i24raw_from_i32_exact;
use crate::raw::raw_max;
use crate::raw::raw_min;

verus! {

fn to_i32(a: Int24Raw) -> (r: i32)
    ensures
        r == raw_value(a),
{
    i24raw_to_i32(a)
}

/// Keeps the low 24 bits of `a`.
fn from_i32(a: i32) -> (r: Int24Raw)
    ensures
        raw_value(r) == wrap24(a as int),
{
    let m: i32 = a % 0x100_0000;
    let w: i32 = if m >= 0x80_0000 {
        m - 0x100_0000
    } else if m < -0x80_0000 {
        m + 0x100_0000
    } else {
        m
    };
    proof {
        lemma_fundamental_div_mod(a as int, 0x100_0000);
        // `m` is the remainder of the division that rounds toward zero.
        if a >= 0 {
            assert(m == (a as int) % 0x100_0000);
        } else {
            lemma_fundamental_div_mod(-(a as int), 0x100_0000);
            assert(m == -((-(a as int)) % 0x100_0000));
            let q = (-(a as int)) / 0x100_0000;
            assert(a as int == m + (-q) * 0x100_0000);
            lemma_wrap24_shift(m as int, -q);
        }
        lemma_wrap24_congruent(w as int);
        if m >= 0x80_0000 {
            lemma_wrap24_shift(m as int, -1);
            assert(m as int + (-1) * 0x100_0000 == w);
        } else if m < -0x80_0000 {
            lemma_wrap24_shift(m as int, 1);
            assert(m as int + 1 * 0x100_0000 == w);
        }
    }
    i24raw_from_i32_exact(w)
}

/// Saturating product.
pub fn asm_mulsat24(a: Int24Raw, b: Int24Raw) -> (r: Int24Raw)
    ensures
        raw_value(r) == saturate24(raw_value(a) * raw_value(b)),
{
    let x: i64 = to_i32(a) as i64;
    let y: i64 = to_i32(b) as i64;
    assert(-0x4000_0000_0000 <= x * y <= 0x4000_0000_0000) by (nonlinear_arith)
        requires
            -0x80_0000 <= x <= 0x7F_FFFF,
            -0x80_0000 <= y <= 0x7F_FFFF,
    ;
    let c: i64 = x * y;
    if c > 0x7F_FFFF {
        raw_max()
    } else if c < -0x80_0000 {
        raw_min()
    } else {
        i24raw_from_i32_exact(c as i32)
    }
}

/// Saturating quotient, rounded toward zero.
pub fn asm_divsat24(a: Int24Raw, b: Int24Raw) -> (r: Int24Raw)
    ensures
        raw_value(r) == div24_value(raw_value(a), raw_value(b)),
{
    let x: i32 = to_i32(a);
    let y: i32 = to_i32(b);
    if y == 0 {
        if x >= 0 {
            raw_max()
        } else {
            raw_min()
        }
    } else {
        proof {
            lemma_trunc_div_bound(x as int, y as int);
        }
        if x == -0x80_0000 && y == -1 {
            raw_max()
        } else {
            i24raw_from_i32_exact(x / y)
        }
    }
}

/// A quotient rounded toward zero is no larger in magnitude than the dividend.
pub proof fn lemma_trunc_div_bound(a: int, b: int)
    requires
        b != 0,
    ensures
        a >= 0 ==> -a <= trunc_div(a, b) <= a,
        a < 0 ==> a <= trunc_div(a, b) <= -a,
        (b > 0 && a >= 0) ==> trunc_div(a, b) >= 0,
        (b == -1) ==> trunc_div(a, b) == -a,
        (b == 1) ==> trunc_div(a, b) == a,
        (a < 0 && b != -1) ==> trunc_div(a, b) < -a,
{
    let n = if a >= 0 { a } else { -a };
    assert(-n <= n / b <= n && (b > 0 ==> n / b >= 0) && (b == 1 ==> n / b == n) && (b == -1
        ==> n / b == -n) && ((n > 0 && b != -1) ==> -(n / b) < n)) by (nonlinear_arith)
        requires
            n >= 0,
            b != 0,
    ;
}

/// A product divided by one of its factors gives the other factor.
pub proof fn lemma_trunc_div_exact(q: int, b: int)
    requires
        b > 0,
    ensures
        trunc_div(q * b, b) == q,
{
    if q >= 0 {
        assert(q * b >= 0) by (nonlinear_arith)
            requires
                q >= 0,
                b > 0,
        ;
        lemma_fundamental_div_mod_converse(q * b, b, q, 0);
    } else {
        assert(q * b < 0 && -(q * b) == (-q) * b) by (nonlinear_arith)
            requires
                q < 0,
                b > 0,
        ;
        lemma_fundamental_div_mod_converse((-q) * b, b, -q, 0);
    }
}

/// Saturating negation.
pub fn asm_negsat24(a: Int24Raw) -> (r: Int24Raw)
    ensures
        raw_value(r) == saturate24(-raw_value(a)),
{
    let x: i32 = to_i32(a);
    if x == -0x80_0000 {
        raw_max()
    } else {
        i24raw_from_i32_exact(-x)
    }
}

/// Left shift; bits that leave the 24-bit word are lost.
pub fn asm_shl24(a: Int24Raw, count: u8) -> (r: Int24Raw)
    ensures
        raw_value(r) == wrap24(raw_value(a) * pow2(count as nat)),
{
    let mut x: i32 = to_i32(a);
    let mut i: u8 = 0;
    proof {
        lemma2_to64();
        lemma_wrap24_congruent(x as int);
    }
    while i < count
        invariant
            i <= count,
            -0x80_0000 <= x <= 0x7F_FFFF,
            x == wrap24(raw_value(a) * pow2(i as nat)),
        decreases count - i,
    {
        let d: i32 = 2 * x;
        proof {
            lemma_shl_step(raw_value(a), i as nat, 0x100_0000);
            lemma_wrap_congruent(d as int, 0x100_0000);
            lemma_wrap_shift(d as int, -1, 0x100_0000);
            lemma_wrap_shift(d as int, 1, 0x100_0000);
            lemma_wrap_congruent(d as int + (-1) * 0x100_0000, 0x100_0000);
            lemma_wrap_congruent(d as int + 1 * 0x100_0000, 0x100_0000);
        }
        x = if d > 0x7F_FFFF {
            d - 0x100_0000
        } else if d < -0x80_0000 {
            d + 0x100_0000
        } else {
            d
        };
        i = i + 1;
    }
    i24raw_from_i32_exact(x)
}

/// Halving a quotient rounded down divides by twice the divisor.
pub proof fn lemma_halve_quotient(x: int, c: int)
    requires
        0 < c,
    ensures
        (x / c) / 2 == x / (2 * c),
{
    lemma_fundamental_div_mod(x, c);
    lemma_mod_bound(x, c);
    let q1 = x / c;
    let r1 = x % c;
    lemma_fundamental_div_mod(q1, 2);
    let q2 = q1 / 2;
    let r2 = q1 % 2;
    assert(x == q2 * (2 * c) + (c * r2 + r1) && 0 <= c * r2 + r1 < 2 * c) by (nonlinear_arith)
        requires
            x == c * q1 + r1,
            q1 == 2 * q2 + r2,
            0 <= r1 < c,
            0 <= r2 < 2,
    ;
    lemma_fundamental_div_mod_converse(x, 2 * c, q2, c * r2 + r1);
}

/// Arithmetic right shift: the quotient by a power of two, rounded down.
pub fn asm_shr24(a: Int24Raw, count: u8) -> (r: Int24Raw)
    ensures
        raw_value(r) == raw_value(a) / (pow2(count as nat) as int),
{
    let mut x: i32 = to_i32(a);
    let mut i: u8 = 0;
    proof {
        lemma2_to64();
    }
    while i < count
        invariant
            i <= count,
            -0x80_0000 <= x <= 0x7F_FFFF,
            x == raw_value(a) / (pow2(i as nat) as int),
        decreases count - i,
    {
        proof {
            lemma_pow2_pos(i as nat);
            lemma_pow2_unfold((i + 1) as nat);
            lemma_halve_quotient(raw_value(a), pow2(i as nat) as int);
        }
        x = if x >= 0 {
            x / 2
        } else {
            -((1 - x) / 2)
        };
        i = i + 1;
    }
    i24raw_from_i32_exact(x)
}

/// Signed comparison.
pub fn asm_ge24(a: Int24Raw, b: Int24Raw) -> (r: bool)
    ensures
        r == (raw_value(a) >= raw_value(b)),
{
    to_i32(a) >= to_i32(b)
}

} // verus!
