//! Reduction of integers into the signed range of a word or a counter.

use vstd::prelude::*;
use vstd::arithmetic::div_mod::lemma_fundamental_div_mod;
use vstd::arithmetic::div_mod::lemma_mod_bound;
use vstd::arithmetic::div_mod::lemma_fundamental_div_mod_converse;
use vstd::arithmetic::div_mod::lemma_mod_multiples_vanish;
use vstd::arithmetic::power2::lemma_pow2_unfold;
use vstd::arithmetic::power2::pow2;

verus! {

/// `v` reduced modulo `m` into the signed range `-m/2 .. m/2`.
pub open spec fn wrap_signed(v: int, m: int) -> int
    recommends
        m > 0,
{
    let r = v % m;
    if 2 * r >= m {
        r - m
    } else {
        r
    }
}

/// `v` reduced modulo 2^24 into the signed 24-bit range.
pub open spec fn wrap24(v: int) -> int {
    wrap_signed(v, 0x100_0000)
}

/// `v` reduced modulo 2^32 into the signed 32-bit range.
pub open spec fn wrap32(v: int) -> int {
    wrap_signed(v, 0x1_0000_0000)
}

/// Reduction into the signed range does not see multiples of the modulus.
pub proof fn lemma_wrap_shift(v: int, k: int, m: int)
    requires
        m > 0,
    ensures
        wrap_signed(v + k * m, m) == wrap_signed(v, m),
{
    assert(v + k * m == m * k + v) by (nonlinear_arith);
    lemma_mod_multiples_vanish(k, v, m);
}

/// The reduced value lies in the signed range, differs from the argument by
/// a multiple of the modulus, and equals the argument where that lies in
/// the range.
pub proof fn lemma_wrap_congruent(v: int, m: int)
    requires
        m > 0,
        m % 2 == 0,
    ensures
        -m <= 2 * wrap_signed(v, m) < m,
        exists|k: int| wrap_signed(v, m) == v + #[trigger] (k * m),
        -m <= 2 * v < m ==> wrap_signed(v, m) == v,
{
    lemma_fundamental_div_mod(v, m);
    lemma_mod_bound(v, m);
    let q = v / m;
    let r = v % m;
    assert(m * q == q * m) by (nonlinear_arith);
    if 2 * r >= m {
        assert((-q - 1) * m == -(q * m) - m) by (nonlinear_arith);
        assert(wrap_signed(v, m) == v + (-q - 1) * m);
    } else {
        assert((-q) * m == -(q * m)) by (nonlinear_arith);
        assert(wrap_signed(v, m) == v + (-q) * m);
    }
    if -m <= 2 * v < m {
        if v < 0 {
            lemma_fundamental_div_mod_converse(v, m, -1, v + m);
        } else {
            lemma_fundamental_div_mod_converse(v, m, 0, v);
        }
    }
}

/// `wrap24` does not see multiples of 2^24.
pub proof fn lemma_wrap24_shift(v: int, k: int)
    ensures
        wrap24(v + k * 0x100_0000) == wrap24(v),
{
    lemma_wrap_shift(v, k, 0x100_0000);
}

/// `wrap24` differs from its argument by a multiple of 2^24 and is the
/// identity on the 24-bit range.
pub proof fn lemma_wrap24_congruent(v: int)
    ensures
        -0x80_0000 <= wrap24(v) <= 0x7F_FFFF,
        exists|k: int| wrap24(v) == v + #[trigger] (k * 0x100_0000),
        -0x80_0000 <= v <= 0x7F_FFFF ==> wrap24(v) == v,
{
    lemma_wrap_congruent(v, 0x100_0000);
}

/// Doubling before or after the reduction gives the same reduced value.
pub proof fn lemma_wrap_double(p: int, m: int)
    requires
        m > 0,
        m % 2 == 0,
    ensures
        wrap_signed(2 * wrap_signed(p, m), m) == wrap_signed(2 * p, m),
{
    lemma_wrap_congruent(p, m);
    let k = choose|k: int| wrap_signed(p, m) == p + #[trigger] (k * m);
    assert(2 * (p + k * m) == 2 * p + (2 * k) * m) by (nonlinear_arith);
    lemma_wrap_shift(2 * p, 2 * k, m);
}

/// One doubling step of a left shift, reduced into the signed range.
pub proof fn lemma_shl_step(v: int, i: nat, m: int)
    requires
        m > 0,
        m % 2 == 0,
    ensures
        wrap_signed(2 * wrap_signed(v * pow2(i), m), m) == wrap_signed(v * pow2(i + 1), m),
{
    lemma_pow2_unfold(i + 1);
    assert(v * pow2(i + 1) == 2 * (v * pow2(i))) by (nonlinear_arith)
        requires
            pow2(i + 1) == 2 * pow2((i + 1 - 1) as nat),
    ;
    lemma_wrap_double(v * pow2(i), m);
}

/// The remainder of a division that rounds toward zero has the same
/// reduction into the signed range as the dividend.
pub proof fn lemma_wrap_of_remainder(v: int, m: int)
    requires
        m > 0,
        m % 2 == 0,
    ensures
        v >= 0 ==> wrap_signed(v % m, m) == wrap_signed(v, m),
        v < 0 ==> wrap_signed(-((-v) % m), m) == wrap_signed(v, m),
{
    if v >= 0 {
        lemma_fundamental_div_mod(v, m);
        let q = v / m;
        assert(v == v % m + q * m) by (nonlinear_arith)
            requires
                v == m * q + v % m,
        ;
        lemma_wrap_shift(v % m, q, m);
    } else {
        lemma_fundamental_div_mod(-v, m);
        let q = (-v) / m;
        let r = (-v) % m;
        assert(v == -r + (-q) * m) by (nonlinear_arith)
            requires
                -v == m * q + r,
        ;
        lemma_wrap_shift(-r, -q, m);
    }
}

/// Folds a value that is off by at most one modulus into the signed range.
pub proof fn lemma_wrap_fold(v: int, m: int)
    requires
        m > 0,
        m % 2 == 0,
        -2 * m < 2 * v < 2 * m,
    ensures
        wrap_signed(v, m) == if 2 * v >= m {
            v - m
        } else if 2 * v < -m {
            v + m
        } else {
            v
        },
{
    lemma_wrap_shift(v, -1, m);
    lemma_wrap_shift(v, 1, m);
    assert(v + (-1) * m == v - m && v + 1 * m == v + m) by (nonlinear_arith);
    lemma_wrap_congruent(v, m);
    lemma_wrap_congruent(v - m, m);
    lemma_wrap_congruent(v + m, m);
}

/// Reduction of a value that is off by at most one modulus.
pub proof fn lemma_mod_fold(v: int, m: int)
    requires
        m > 0,
        -m <= v < 2 * m,
    ensures
        v % m == if v >= m {
            v - m
        } else if v < 0 {
            v + m
        } else {
            v
        },
{
    if v >= m {
        vstd::arithmetic::div_mod::lemma_fundamental_div_mod_converse(v, m, 1, v - m);
    } else if v < 0 {
        vstd::arithmetic::div_mod::lemma_fundamental_div_mod_converse(v, m, -1, v + m);
    } else {
        vstd::arithmetic::div_mod::lemma_fundamental_div_mod_converse(v, m, 0, v);
    }
}

/// Keeps the low 8 bits of `v` as a signed number.
pub fn wrap_to_i8(v: i32) -> (r: i8)
    ensures
        r == wrap_signed(v as int, 0x100),
{
    let m: i32 = v % 0x100;
    proof {
        lemma_wrap_of_remainder(v as int, 0x100);
        lemma_mod_bound(if v >= 0 { v as int } else { -(v as int) }, 0x100);
        lemma_wrap_fold(m as int, 0x100);
    }
    if m >= 0x80 {
        (m - 0x100) as i8
    } else if m < -0x80 {
        (m + 0x100) as i8
    } else {
        m as i8
    }
}

/// Keeps the low 16 bits of `v` as a signed number.
pub fn wrap_to_i16(v: i32) -> (r: i16)
    ensures
        r == wrap_signed(v as int, 0x1_0000),
{
    let m: i32 = v % 0x1_0000;
    proof {
        lemma_wrap_of_remainder(v as int, 0x1_0000);
        lemma_mod_bound(if v >= 0 { v as int } else { -(v as int) }, 0x1_0000);
        lemma_wrap_fold(m as int, 0x1_0000);
    }
    if m >= 0x8000 {
        (m - 0x1_0000) as i16
    } else if m < -0x8000 {
        (m + 0x1_0000) as i16
    } else {
        m as i16
    }
}

/// Keeps the low 8 bits of `v` as an unsigned number.
pub fn wrap_to_u8(v: i32) -> (r: u8)
    requires
        -0x100 <= v < 0x200,
    ensures
        r == (v as int) % 0x100,
{
    proof {
        lemma_mod_fold(v as int, 0x100);
    }
    if v >= 0x100 {
        (v - 0x100) as u8
    } else if v < 0 {
        (v + 0x100) as u8
    } else {
        v as u8
    }
}

/// Keeps the low 16 bits of `v` as an unsigned number.
pub fn wrap_to_u16(v: i32) -> (r: u16)
    requires
        -0x1_0000 <= v < 0x2_0000,
    ensures
        r == (v as int) % 0x1_0000,
{
    proof {
        lemma_mod_fold(v as int, 0x1_0000);
    }
    if v >= 0x1_0000 {
        (v - 0x1_0000) as u16
    } else if v < 0 {
        (v + 0x1_0000) as u16
    } else {
        v as u16
    }
}

} // verus!
