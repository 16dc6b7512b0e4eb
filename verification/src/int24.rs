//! A saturating signed 24-bit integer.

use vstd::prelude::*;
use vstd::arithmetic::power2::pow2;
use std::cmp::Ordering;
use crate::raw::Int24Raw;
use crate::raw::raw_value;
use crate::raw::saturate16;
use crate::raw::saturate24;
use crate::wrap::wrap24;
use crate::raw::div24_value;
use crate::raw::add24;
use crate::raw::div24;
use crate::raw::eq24;
use crate::raw::ge24;
use crate::raw::i16_to_i24raw;
use crate::raw::i24raw_to_i16_sat;
use crate::raw::i24raw_to_i32;
use crate::raw::i32_to_i24raw_sat;
use crate::raw::is_neg24;
use crate::raw::mul24;
use crate::raw::neg24;
use crate::raw::raw_zero;
use crate::raw::shl24;
use crate::raw::shl24_by8;
use crate::raw::shr24;
use crate::raw::shr24_by8;
use crate::raw::sub24;
use crate::wrap::wrap32;
use crate::raw::raw_of;
use crate::raw::lemma_raw_of_value;
use crate::raw::lemma_raw_value_injective;
use crate::kernel24::lemma_trunc_div_bound;
use crate::wrap::lemma_shl_step;
use crate::wrap::lemma_wrap_congruent;
use crate::wrap::lemma_wrap_shift;
use vstd::arithmetic::power2::lemma2_to64;

verus! {

/// A signed 24-bit integer whose arithmetic saturates.
#[derive(Copy, Clone, Debug)]
pub struct Int24(pub Int24Raw);

impl PartialEq for Int24 {
    fn eq(&self, other: &Self) -> (r: bool) {
        self.0.0 == other.0.0 && self.0.1 == other.0.1 && self.0.2 == other.0.2
    }
}

impl vstd::std_specs::cmp::PartialEqSpecImpl for Int24 {
    open spec fn obeys_eq_spec() -> bool {
        true
    }

    open spec fn eq_spec(&self, other: &Self) -> bool {
        self.0.0 == other.0.0 && self.0.1 == other.0.1 && self.0.2 == other.0.2
    }
}

impl Eq for Int24 {

}

impl PartialOrd for Int24 {
    fn partial_cmp(&self, other: &Self) -> (r: Option<Ordering>) {
        if eq24(self.0, other.0) {
            Some(Ordering::Equal)
        } else if ge24(self.0, other.0) {
            Some(Ordering::Greater)
        } else {
            Some(Ordering::Less)
        }
    }
}

impl vstd::std_specs::cmp::PartialOrdSpecImpl for Int24 {
    open spec fn obeys_partial_cmp_spec() -> bool {
        true
    }

    open spec fn partial_cmp_spec(&self, other: &Self) -> Option<Ordering> {
        if self@ == other@ {
            Some(Ordering::Equal)
        } else if self@ > other@ {
            Some(Ordering::Greater)
        } else {
            Some(Ordering::Less)
        }
    }
}

impl View for Int24 {
    type V = int;

    /// The integer that the value stands for.
    open spec fn view(&self) -> int {
        raw_value(self.0)
    }
}

/// The value that stands for `v`, taken modulo 2^24.
pub open spec fn int24_of(v: int) -> Int24 {
    Int24(raw_of(v))
}

/// A value is determined by the integer it stands for.
pub proof fn lemma_int24_by_value(r: Int24, v: int)
    requires
        r@ == v,
    ensures
        r == int24_of(v),
        -0x80_0000 <= v <= 0x7F_FFFF,
{
    lemma_raw_of_value(v);
    lemma_raw_value_injective(r.0, raw_of(v));
}

impl Int24 {
    pub fn zero() -> (r: Self)
        ensures
            r@ == 0,
    {
        Int24(raw_zero())
    }

    pub fn new() -> (r: Self)
        ensures
            r@ == 0,
    {
        Self::zero()
    }

    pub fn from_raw(v: Int24Raw) -> (r: Self)
        ensures
            r.0 == v,
    {
        Int24(v)
    }

    pub fn from_i16(v: i16) -> (r: Self)
        ensures
            r@ == v,
    {
        Self::from_raw(i16_to_i24raw(v))
    }

    /// Converts from 32 bits, saturating at the ends of the 24-bit range.
    pub fn from_i32(v: i32) -> (r: Self)
        ensures
            r@ == saturate24(v as int),
    {
        Int24(i32_to_i24raw_sat(v))
    }

    /// Converts to 16 bits, saturating at the ends of the 16-bit range.
    pub fn to_i16(self) -> (r: i16)
        ensures
            r == saturate16(self@),
    {
        i24raw_to_i16_sat(self.0)
    }

    pub fn to_i32(self) -> (r: i32)
        ensures
            r == self@,
    {
        i24raw_to_i32(self.0)
    }

    pub fn add(self, other: Self) -> (r: Self)
        ensures
            r@ == saturate24(self@ + other@),
    {
        Self::from_raw(add24(self.0, other.0))
    }

    pub fn const_add(self, other: Self) -> (r: Self)
        ensures
            r@ == saturate24(self@ + other@),
    {
        Self::from_i32(self.to_i32() + other.to_i32())
    }

    pub fn sub(self, other: Self) -> (r: Self)
        ensures
            r@ == saturate24(self@ - other@),
    {
        Self::from_raw(sub24(self.0, other.0))
    }

    pub fn const_sub(self, other: Self) -> (r: Self)
        ensures
            r@ == saturate24(self@ - other@),
    {
        Self::from_i32(self.to_i32() - other.to_i32())
    }

    pub fn mul(self, other: Self) -> (r: Self)
        ensures
            r@ == saturate24(self@ * other@),
    {
        Self::from_raw(mul24(self.0, other.0))
    }

    pub fn const_mul(self, other: Self) -> (r: Self)
        ensures
            r@ == saturate24(self@ * other@),
    {
        let x: i64 = self.to_i32() as i64;
        let y: i64 = other.to_i32() as i64;
        assert(-0x4000_0000_0000 <= x * y <= 0x4000_0000_0000) by (nonlinear_arith)
            requires
                -0x80_0000 <= x <= 0x7F_FFFF,
                -0x80_0000 <= y <= 0x7F_FFFF,
        ;
        let c: i64 = x * y;
        if c > 0x7F_FFFF {
            Self::from_i32(0x7F_FFFF)
        } else if c < -0x80_0000 {
            Self::from_i32(-0x80_0000)
        } else {
            Self::from_i32(c as i32)
        }
    }

    /// Saturating quotient, rounded toward zero; a zero divisor yields the
    /// extreme with the sign of the dividend.
    pub fn div(self, other: Self) -> (r: Self)
        ensures
            r@ == div24_value(self@, other@),
    {
        Self::from_raw(div24(self.0, other.0))
    }

    /// Saturating quotient, rounded toward zero; a zero divisor yields the
    /// extreme with the sign of the dividend.
    pub fn const_div(self, other: Self) -> (r: Self)
        ensures
            r@ == div24_value(self@, other@),
    {
        let x: i32 = self.to_i32();
        let y: i32 = other.to_i32();
        if y == 0 {
            if x >= 0 {
                Self::from_i32(0x7F_FFFF)
            } else {
                Self::from_i32(-0x80_0000)
            }
        } else {
            proof {
                lemma_trunc_div_bound(x as int, y as int);
            }
            Self::from_i32(x / y)
        }
    }

    pub fn neg(self) -> (r: Self)
        ensures
            r@ == saturate24(-self@),
    {
        Int24(neg24(self.0))
    }

    pub fn const_neg(self) -> (r: Self)
        ensures
            r@ == saturate24(-self@),
    {
        Self::from_i32(-self.to_i32())
    }

    pub fn abs(self) -> (r: Self)
        ensures
            r@ == saturate24(if self@ < 0 {
                -self@
            } else {
                self@
            }),
    {
        if is_neg24(self.0) {
            self.neg()
        } else {
            self
        }
    }

    pub fn const_abs(self) -> (r: Self)
        ensures
            r@ == saturate24(if self@ < 0 {
                -self@
            } else {
                self@
            }),
    {
        if self.to_i32() < 0 {
            self.const_neg()
        } else {
            self
        }
    }

    /// Left shift by one byte; the high byte is lost.
    pub fn shl8(self) -> (r: Self)
        ensures
            r@ == wrap24(self@ * 0x100),
    {
        Int24(shl24_by8(self.0))
    }

    /// Left shift; bits that leave the 24-bit word are lost.
    pub fn shl(self, count: u8) -> (r: Self)
        ensures
            r@ == wrap24(self@ * pow2(count as nat)),
    {
        Int24(shl24(self.0, count))
    }

    /// Arithmetic right shift by one byte.
    pub fn shr8(self) -> (r: Self)
        ensures
            r@ == self@ / 0x100,
    {
        Int24(shr24_by8(self.0))
    }

    /// Arithmetic right shift: the quotient by a power of two, rounded down.
    pub fn shr(self, count: u8) -> (r: Self)
        ensures
            r@ == self@ / (pow2(count as nat) as int),
    {
        Int24(shr24(self.0, count))
    }

    /// Left shift in 32 bits, then saturation into 24 bits.
    pub fn const_shl(self, count: u8) -> (r: Self)
        ensures
            r@ == saturate24(wrap32(self@ * pow2(count as nat))),
    {
        let mut x: i32 = self.to_i32();
        let mut i: u8 = 0;
        proof {
            lemma2_to64();
            lemma_wrap_congruent(x as int, 0x1_0000_0000);
        }
        while i < count
            invariant
                i <= count,
                x == wrap32(self@ * pow2(i as nat)),
            decreases count - i,
        {
            let d: i64 = 2 * (x as i64);
            proof {
                lemma_shl_step(self@, i as nat, 0x1_0000_0000);
                lemma_wrap_congruent(d as int, 0x1_0000_0000);
                lemma_wrap_shift(d as int, -1, 0x1_0000_0000);
                lemma_wrap_shift(d as int, 1, 0x1_0000_0000);
                lemma_wrap_congruent(d as int + (-1) * 0x1_0000_0000, 0x1_0000_0000);
                lemma_wrap_congruent(d as int + 1 * 0x1_0000_0000, 0x1_0000_0000);
            }
            x = if d > 0x7FFF_FFFF {
                (d - 0x1_0000_0000) as i32
            } else if d < -0x8000_0000 {
                (d + 0x1_0000_0000) as i32
            } else {
                d as i32
            };
            i = i + 1;
        }
        Self::from_i32(x)
    }

    pub fn const_shr(self, count: u8) -> (r: Self)
        ensures
            r@ == self@ / (pow2(count as nat) as int),
    {
        self.shr(count)
    }

    pub fn cmp(self, other: Self) -> (r: Ordering)
        ensures
            match r {
                Ordering::Less => self@ < other@,
                Ordering::Equal => self@ == other@,
                Ordering::Greater => self@ > other@,
            },
    {
        if eq24(self.0, other.0) {
            Ordering::Equal
        } else if ge24(self.0, other.0) {
            Ordering::Greater
        } else {
            Ordering::Less
        }
    }

    pub fn const_cmp(self, other: Self) -> (r: Ordering)
        ensures
            match r {
                Ordering::Less => self@ < other@,
                Ordering::Equal => self@ == other@,
                Ordering::Greater => self@ > other@,
            },
    {
        if self.to_i32() == other.to_i32() {
            Ordering::Equal
        } else if self.to_i32() >= other.to_i32() {
            Ordering::Greater
        } else {
            Ordering::Less
        }
    }
}

impl Default for Int24 {
    fn default() -> (r: Self)
        ensures
            r@ == 0,
    {
        Self::new()
    }
}

impl std::ops::Add for Int24 {
    type Output = Int24;

    fn add(self, rhs: Int24) -> (r: Int24) {
        let r = Int24::from_raw(add24(self.0, rhs.0));
        proof {
            lemma_int24_by_value(r, saturate24(self@ + rhs@));
        }
        r
    }
}

impl vstd::std_specs::ops::AddSpecImpl for Int24 {
    open spec fn obeys_add_spec() -> bool {
        true
    }

    open spec fn add_req(self, rhs: Int24) -> bool {
        true
    }

    open spec fn add_spec(self, rhs: Int24) -> Int24 {
        int24_of(saturate24(self@ + rhs@))
    }
}

impl std::ops::Sub for Int24 {
    type Output = Int24;

    fn sub(self, rhs: Int24) -> (r: Int24) {
        let r = Int24::from_raw(sub24(self.0, rhs.0));
        proof {
            lemma_int24_by_value(r, saturate24(self@ - rhs@));
        }
        r
    }
}

impl vstd::std_specs::ops::SubSpecImpl for Int24 {
    open spec fn obeys_sub_spec() -> bool {
        true
    }

    open spec fn sub_req(self, rhs: Int24) -> bool {
        true
    }

    open spec fn sub_spec(self, rhs: Int24) -> Int24 {
        int24_of(saturate24(self@ - rhs@))
    }
}

impl std::ops::Mul for Int24 {
    type Output = Int24;

    fn mul(self, rhs: Int24) -> (r: Int24) {
        let r = Int24::from_raw(mul24(self.0, rhs.0));
        proof {
            lemma_int24_by_value(r, saturate24(self@ * rhs@));
        }
        r
    }
}

impl vstd::std_specs::ops::MulSpecImpl for Int24 {
    open spec fn obeys_mul_spec() -> bool {
        true
    }

    open spec fn mul_req(self, rhs: Int24) -> bool {
        true
    }

    open spec fn mul_spec(self, rhs: Int24) -> Int24 {
        int24_of(saturate24(self@ * rhs@))
    }
}

impl std::ops::Div for Int24 {
    type Output = Int24;

    fn div(self, rhs: Int24) -> (r: Int24) {
        let r = Int24::from_raw(div24(self.0, rhs.0));
        proof {
            lemma_int24_by_value(r, div24_value(self@, rhs@));
        }
        r
    }
}

impl vstd::std_specs::ops::DivSpecImpl for Int24 {
    open spec fn obeys_div_spec() -> bool {
        true
    }

    open spec fn div_req(self, rhs: Int24) -> bool {
        true
    }

    open spec fn div_spec(self, rhs: Int24) -> Int24 {
        int24_of(div24_value(self@, rhs@))
    }
}

impl std::ops::Neg for Int24 {
    type Output = Int24;

    fn neg(self) -> (r: Int24) {
        let r = Int24(neg24(self.0));
        proof {
            lemma_int24_by_value(r, saturate24(-self@));
        }
        r
    }
}

impl vstd::std_specs::ops::NegSpecImpl for Int24 {
    open spec fn obeys_neg_spec() -> bool {
        true
    }

    open spec fn neg_req(self) -> bool {
        true
    }

    open spec fn neg_spec(self) -> Int24 {
        int24_of(saturate24(-self@))
    }
}

impl std::ops::Shl<u8> for Int24 {
    type Output = Int24;

    fn shl(self, rhs: u8) -> (r: Int24) {
        let r = Int24(shl24(self.0, rhs));
        proof {
            lemma_int24_by_value(r, wrap24(self@ * pow2(rhs as nat)));
        }
        r
    }
}

impl vstd::std_specs::ops::ShlSpecImpl<u8> for Int24 {
    open spec fn obeys_shl_spec() -> bool {
        true
    }

    open spec fn shl_req(self, rhs: u8) -> bool {
        true
    }

    open spec fn shl_spec(self, rhs: u8) -> Int24 {
        int24_of(wrap24(self@ * pow2(rhs as nat)))
    }
}

impl std::ops::Shr<u8> for Int24 {
    type Output = Int24;

    fn shr(self, rhs: u8) -> (r: Int24) {
        let r = Int24(shr24(self.0, rhs));
        proof {
            lemma_int24_by_value(r, self@ / (pow2(rhs as nat) as int));
        }
        r
    }
}

impl vstd::std_specs::ops::ShrSpecImpl<u8> for Int24 {
    open spec fn obeys_shr_spec() -> bool {
        true
    }

    open spec fn shr_req(self, rhs: u8) -> bool {
        true
    }

    open spec fn shr_spec(self, rhs: u8) -> Int24 {
        int24_of(self@ / (pow2(rhs as nat) as int))
    }
}

} // verus!
