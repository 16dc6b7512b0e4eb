//! Saturating fixed-point numbers with eight fractional bits.

use vstd::prelude::*;
use crate::int24::Int24;
use crate::int24::int24_of;
use crate::int24::lemma_int24_by_value;
use crate::raw::div24_value;
use crate::raw::saturate16;
use crate::raw::saturate24;
use crate::wrap::wrap_signed;
use crate::wrap::lemma_wrap24_congruent;
use crate::wrap::lemma_wrap_congruent;
use crate::wrap::lemma_wrap_shift;

verus! {

/// Sum of two raw Q8.8 values.
pub open spec fn q_add(a: int, b: int) -> int {
    saturate16(a + b)
}

/// Difference of two raw Q8.8 values.
pub open spec fn q_sub(a: int, b: int) -> int {
    saturate16(a - b)
}

/// Product of two raw Q8.8 values: the 24-bit saturated raw product, scaled
/// back by the fractional shift and rounded down.
pub open spec fn q_mul(a: int, b: int) -> int {
    saturate24(a * b) / 0x100
}

/// Quotient of two raw Q8.8 values: the dividend is scaled up by the
/// fractional shift, divided toward zero with 24-bit saturation, and
/// saturated to 16 bits.
pub open spec fn q_div(a: int, b: int) -> int {
    saturate16(div24_value(a * 0x100, b))
}

/// Negation of a raw Q8.8 value.
pub open spec fn q_neg(a: int) -> int {
    saturate16(-a)
}

/// Absolute value of a raw Q8.8 value.
pub open spec fn q_abs(a: int) -> int {
    if a < 0 {
        q_neg(a)
    } else {
        a
    }
}

/// Product of two raw Q16.8 values.
pub open spec fn big_mul(a: int, b: int) -> int {
    saturate24((a * b) / 0x100)
}

/// Quotient of two raw Q16.8 values.
pub open spec fn big_div(a: int, b: int) -> int {
    div24_value(a * 0x100, b)
}

/// The saturation law: whatever the operands, every result lies in the
/// range of its type, 16 bits for Q8.8 and 24 bits for Q16.8.
pub proof fn lemma_results_in_range(a: int, b: int)
    ensures
        -0x8000 <= q_add(a, b) <= 0x7FFF,
        -0x8000 <= q_sub(a, b) <= 0x7FFF,
        -0x8000 <= q_mul(a, b) <= 0x7FFF,
        -0x8000 <= q_div(a, b) <= 0x7FFF,
        -0x8000 <= q_neg(a) <= 0x7FFF,
        -0x80_0000 <= big_mul(a, b) <= 0x7F_FFFF,
        -0x80_0000 <= big_div(a, b) <= 0x7F_FFFF,
{
}

/// Where the exact result fits, it is the result: sums, differences and
/// negations of raw values are exact inside the 16-bit range, and a
/// product is the exact product scaled back and rounded down.
pub proof fn lemma_exact_in_range(a: int, b: int)
    ensures
        -0x8000 <= a + b <= 0x7FFF ==> q_add(a, b) == a + b,
        -0x8000 <= a - b <= 0x7FFF ==> q_sub(a, b) == a - b,
        -0x8000 < a <= 0x7FFF ==> q_neg(a) == -a,
        -0x80_0000 <= a * b <= 0x7F_FFFF ==> q_mul(a, b) == (a * b) / 0x100,
{
}

/// Linear interpolation at `x` between the curve points `(lx, ly)` and
/// `(rx, ry)`, in saturating Q8.8 arithmetic on raw values.
pub open spec fn lin_inter_value(x: int, lx: int, ly: int, rx: int, ry: int) -> int {
    let dx = q_sub(rx, lx);
    let dy = q_sub(ry, ly);
    if dx == 0 {
        ly
    } else {
        q_add(q_mul(q_sub(x, lx), q_div(dy, dx)), ly)
    }
}

/// A signed Q8.8 fixed-point number.
#[derive(Copy, Clone, Debug, PartialEq, Eq, Structural, PartialOrd, Ord)]
pub struct Fixpt(pub i16);

impl View for Fixpt {
    type V = int;

    /// The raw Q8.8 value: the number times 256.
    open spec fn view(&self) -> int {
        self.0 as int
    }
}

/// A signed Q16.8 fixed-point number, used for intermediate results.
#[derive(Copy, Clone, Debug, PartialEq, Eq)]
pub struct BigFixpt(pub Int24);

impl View for BigFixpt {
    type V = int;

    /// The raw Q16.8 value: the number times 256.
    open spec fn view(&self) -> int {
        self.0@
    }
}

impl Fixpt {
    /// Widens to Q16.8 without changing the number.
    pub fn upgrade(&self) -> (r: BigFixpt)
        ensures
            r@ == self@,
    {
        BigFixpt(Int24::from_i16(self.to_q()))
    }

    /// The number with the given raw Q8.8 value.
    pub fn from_q(q: i16) -> (r: Self)
        ensures
            r@ == q,
    {
        Fixpt(q)
    }

    /// The whole number `whole`; bits above the seven integer bits are lost.
    pub fn from_int(whole: i16) -> (r: Self)
        ensures
            r@ == wrap_signed(whole * 0x100, 0x1_0000),
            -0x80 <= whole <= 0x7F ==> r@ == whole * 0x100,
    {
        let n: i32 = whole as i32 + 0x8000;
        let lo: i32 = n % 0x100;
        let w: i32 = if lo >= 0x80 {
            lo - 0x100
        } else {
            lo
        };
        proof {
            let k = n as int / 0x100;
            assert(whole * 0x100 == w * 0x100 + (k - 0x80 + (if lo >= 0x80 {
                1int
            } else {
                0
            })) * 0x1_0000);
            lemma_wrap_shift(
                w * 0x100,
                k - 0x80 + (if lo >= 0x80 {
                    1int
                } else {
                    0
                }),
                0x1_0000,
            );
            lemma_wrap_congruent(w * 0x100, 0x1_0000);
            lemma_wrap_congruent(whole * 0x100, 0x1_0000);
        }
        Fixpt((w * 0x100) as i16)
    }

    /// The whole number `whole`; bits above the seven integer bits are lost.
    pub fn new(whole: i16) -> (r: Self)
        ensures
            r@ == wrap_signed(whole * 0x100, 0x1_0000),
            -0x80 <= whole <= 0x7F ==> r@ == whole * 0x100,
    {
        Self::from_int(whole)
    }

    /// The number with integer part `whole` and raw fractional part
    /// `frac`: the bits of `frac` are set in the raw value of the whole
    /// number.
    pub fn from_parts(whole: i16, frac: u16) -> (r: Self)
        ensures
            r.0 == (wrap_signed(whole * 0x100, 0x1_0000) as i16) | (frac as i16),
            frac < 0x100 ==> r@ == wrap_signed(whole * 0x100, 0x1_0000) + frac,
    {
        let base = Self::from_int(whole);
        let bits: i16 = if frac >= 0x8000 {
            (frac as i32 - 0x1_0000) as i16
        } else {
            frac as i16
        };
        proof {
            lemma_from_int_low_byte(whole as int);
            let b = base.0;
            assert(bits == frac as i16) by (bit_vector)
                requires
                    bits == if frac >= 0x8000u16 {
                        (frac as i32 - 0x1_0000i32) as i16
                    } else {
                        frac as i16
                    },
            ;
            assert(b % 0x100 == 0 && frac < 0x100 ==> (b | (frac as i16)) == b + (frac as i16)
                && (frac as i16) == frac) by (bit_vector);
        }
        Fixpt(base.0 | bits)
    }

    /// The quotient `numerator / denominator` of two raw values as a number.
    pub fn const_from_fraction(numerator: i16, denominator: i16) -> (r: Self)
        ensures
            r@ == q_div(numerator as int, denominator as int),
    {
        Fixpt(numerator).const_div(Fixpt(denominator))
    }

    /// The quotient `numerator / denominator` of two raw values as a number.
    pub fn from_fraction(numerator: i16, denominator: i16) -> (r: Self)
        ensures
            r@ == q_div(numerator as int, denominator as int),
    {
        Fixpt(numerator).div(Fixpt(denominator))
    }

    /// The integer part, rounded down.
    pub fn to_int(self) -> (r: i16)
        ensures
            r == self@ / 0x100,
    {
        if self.0 >= 0 {
            self.0 / 0x100
        } else {
            -(((0xFF - self.0 as i32) / 0x100) as i16)
        }
    }

    /// The raw Q8.8 value.
    pub fn to_q(self) -> (r: i16)
        ensures
            r == self@,
    {
        self.0
    }

    pub fn add(self, other: Self) -> (r: Self)
        ensures
            r@ == q_add(self@, other@),
    {
        let s: i32 = self.0 as i32 + other.0 as i32;
        Fixpt(saturate_i16(s))
    }

    pub fn sub(self, other: Self) -> (r: Self)
        ensures
            r@ == q_sub(self@, other@),
    {
        let s: i32 = self.0 as i32 - other.0 as i32;
        Fixpt(saturate_i16(s))
    }

    pub fn mul(self, other: Self) -> (r: Self)
        ensures
            r@ == q_mul(self@, other@),
    {
        let a = Int24::from_i16(self.0);
        let b = Int24::from_i16(other.0);
        let c = a.mul(b).shr8();
        Fixpt(c.to_i16())
    }

    pub fn div(self, other: Self) -> (r: Self)
        ensures
            r@ == q_div(self@, other@),
    {
        let a = Int24::from_i16(self.0);
        let b = Int24::from_i16(other.0);
        proof {
            lemma_wrap24_congruent(self@ * 0x100);
        }
        let c = a.shl8().div(b);
        Fixpt(c.to_i16())
    }

    pub fn const_div(self, other: Self) -> (r: Self)
        ensures
            r@ == q_div(self@, other@),
    {
        self.div(other)
    }

    pub fn neg(self) -> (r: Self)
        ensures
            r@ == q_neg(self@),
    {
        if self.0 == i16::MIN {
            Fixpt(i16::MAX)
        } else {
            Fixpt(-self.0)
        }
    }

    pub fn abs(self) -> (r: Self)
        ensures
            r@ == q_abs(self@),
            r@ >= 0,
    {
        if self.0 < 0 {
            self.neg()
        } else {
            self
        }
    }

    /// Linear interpolation at `self` between the curve points `left` and
    /// `right`, each an abscissa and an ordinate. A segment without width
    /// yields the left ordinate.
    pub fn lin_inter(&self, left: (Fixpt, Fixpt), right: (Fixpt, Fixpt)) -> (r: Fixpt)
        ensures
            r@ == lin_inter_value(self@, left.0@, left.1@, right.0@, right.1@),
    {
        let dx = right.0.sub(left.0);
        let dy = right.1.sub(left.1);
        if dx.0 == 0 {
            left.1
        } else {
            self.sub(left.0).mul(dy.div(dx)).add(left.1)
        }
    }

    /// The smaller of two numbers.
    pub fn min(self, other: Self) -> (r: Self)
        ensures
            r@ == if self@ <= other@ {
                self@
            } else {
                other@
            },
    {
        if self.0 <= other.0 {
            self
        } else {
            other
        }
    }

    /// The larger of two numbers.
    pub fn max(self, other: Self) -> (r: Self)
        ensures
            r@ == if self@ >= other@ {
                self@
            } else {
                other@
            },
    {
        if self.0 >= other.0 {
            self
        } else {
            other
        }
    }
}

/// Clamps into the 16-bit range.
pub fn saturate_i16(v: i32) -> (r: i16)
    ensures
        r == saturate16(v as int),
{
    if v > 0x7FFF {
        i16::MAX
    } else if v < -0x8000 {
        i16::MIN
    } else {
        v as i16
    }
}

/// A whole number's raw value has an empty fractional byte.
pub proof fn lemma_from_int_low_byte(whole: int)
    ensures
        wrap_signed(whole * 0x100, 0x1_0000) % 0x100 == 0,
        -0x8000 <= wrap_signed(whole * 0x100, 0x1_0000) <= 0x7F00,
{
    lemma_wrap_congruent(whole * 0x100, 0x1_0000);
    let w = wrap_signed(whole * 0x100, 0x1_0000);
    let k = choose|k: int| w == whole * 0x100 + #[trigger] (k * 0x1_0000);
    assert(w == (whole + k * 0x100) * 0x100) by (nonlinear_arith)
        requires
            w == whole * 0x100 + k * 0x1_0000,
    ;
    vstd::arithmetic::div_mod::lemma_fundamental_div_mod_converse(
        w,
        0x100,
        whole + k * 0x100,
        0,
    );
}

impl BigFixpt {
    /// Narrows to Q8.8, saturating at the ends of its range.
    pub fn downgrade(&self) -> (r: Fixpt)
        ensures
            r@ == saturate16(self@),
    {
        Fixpt(self.0.to_i16())
    }

    /// The whole number `whole`.
    pub fn from_int(whole: i16) -> (r: Self)
        ensures
            r@ == whole * 0x100,
    {
        proof {
            lemma_wrap24_congruent(whole * 0x100);
        }
        BigFixpt(Int24::from_i16(whole).shl8())
    }

    /// The quotient `numerator / denominator` of two raw values as a number.
    pub fn const_from_fraction(numerator: i16, denominator: i16) -> (r: Self)
        ensures
            r@ == big_div(numerator as int, denominator as int),
    {
        BigFixpt(Int24::from_i16(numerator)).const_div(BigFixpt(Int24::from_i16(denominator)))
    }

    /// The quotient `numerator / denominator` of two raw values as a number.
    pub fn from_fraction(numerator: i16, denominator: i16) -> (r: Self)
        ensures
            r@ == big_div(numerator as int, denominator as int),
    {
        BigFixpt(Int24::from_i16(numerator)).div(BigFixpt(Int24::from_i16(denominator)))
    }

    pub fn add(self, other: Self) -> (r: Self)
        ensures
            r@ == saturate24(self@ + other@),
    {
        BigFixpt(self.0.add(other.0))
    }

    pub fn sub(self, other: Self) -> (r: Self)
        ensures
            r@ == saturate24(self@ - other@),
    {
        BigFixpt(self.0.sub(other.0))
    }

    pub fn mul(self, other: Self) -> (r: Self)
        ensures
            r@ == big_mul(self@, other@),
    {
        let x: i64 = self.0.to_i32() as i64;
        let y: i64 = other.0.to_i32() as i64;
        assert(-0x4000_0000_0000 <= x * y <= 0x4000_0000_0000) by (nonlinear_arith)
            requires
                -0x80_0000 <= x <= 0x7F_FFFF,
                -0x80_0000 <= y <= 0x7F_FFFF,
        ;
        let p: i64 = x * y;
        let c: i64 = if p >= 0 {
            p / 0x100
        } else {
            -((0xFF - p) / 0x100)
        };
        if c > 0x7F_FFFF {
            BigFixpt(Int24::from_i32(0x7F_FFFF))
        } else if c < -0x80_0000 {
            BigFixpt(Int24::from_i32(-0x80_0000))
        } else {
            BigFixpt(Int24::from_i32(c as i32))
        }
    }

    pub fn div(self, other: Self) -> (r: Self)
        ensures
            r@ == big_div(self@, other@),
    {
        self.const_div(other)
    }

    pub fn const_div(self, other: Self) -> (r: Self)
        ensures
            r@ == big_div(self@, other@),
    {
        let a: i32 = self.0.to_i32();
        let b: i32 = other.0.to_i32();
        let c: i32 = if b == 0 {
            if a < 0 {
                i32::MIN
            } else {
                i32::MAX
            }
        } else if a == -0x80_0000 && b == -1 {
            i32::MAX
        } else {
            (a * 0x100) / b
        };
        proof {
            if b != 0 {
                crate::kernel24::lemma_trunc_div_bound(a * 0x100, b as int);
            }
        }
        BigFixpt(Int24::from_i32(c))
    }
}

/// The number with the raw value `q`, taken modulo 2^16.
pub open spec fn fixpt_of(q: int) -> Fixpt {
    Fixpt(q as i16)
}

/// The wide number with the raw value `q`, taken modulo 2^24.
pub open spec fn big_fixpt_of(q: int) -> BigFixpt {
    BigFixpt(int24_of(q))
}

impl std::ops::Add for Fixpt {
    type Output = Fixpt;

    fn add(self, rhs: Fixpt) -> (r: Fixpt) {
        proof {
            lemma_results_in_range(self@, rhs@);
        }
        self.add(rhs)
    }
}

impl vstd::std_specs::ops::AddSpecImpl for Fixpt {
    open spec fn obeys_add_spec() -> bool {
        true
    }

    open spec fn add_req(self, rhs: Fixpt) -> bool {
        true
    }

    open spec fn add_spec(self, rhs: Fixpt) -> Fixpt {
        fixpt_of(q_add(self@, rhs@))
    }
}

impl std::ops::Sub for Fixpt {
    type Output = Fixpt;

    fn sub(self, rhs: Fixpt) -> (r: Fixpt) {
        proof {
            lemma_results_in_range(self@, rhs@);
        }
        self.sub(rhs)
    }
}

impl vstd::std_specs::ops::SubSpecImpl for Fixpt {
    open spec fn obeys_sub_spec() -> bool {
        true
    }

    open spec fn sub_req(self, rhs: Fixpt) -> bool {
        true
    }

    open spec fn sub_spec(self, rhs: Fixpt) -> Fixpt {
        fixpt_of(q_sub(self@, rhs@))
    }
}

impl std::ops::Mul for Fixpt {
    type Output = Fixpt;

    fn mul(self, rhs: Fixpt) -> (r: Fixpt) {
        proof {
            lemma_results_in_range(self@, rhs@);
        }
        self.mul(rhs)
    }
}

impl vstd::std_specs::ops::MulSpecImpl for Fixpt {
    open spec fn obeys_mul_spec() -> bool {
        true
    }

    open spec fn mul_req(self, rhs: Fixpt) -> bool {
        true
    }

    open spec fn mul_spec(self, rhs: Fixpt) -> Fixpt {
        fixpt_of(q_mul(self@, rhs@))
    }
}

impl std::ops::Div for Fixpt {
    type Output = Fixpt;

    fn div(self, rhs: Fixpt) -> (r: Fixpt) {
        proof {
            lemma_results_in_range(self@, rhs@);
        }
        self.div(rhs)
    }
}

impl vstd::std_specs::ops::DivSpecImpl for Fixpt {
    open spec fn obeys_div_spec() -> bool {
        true
    }

    open spec fn div_req(self, rhs: Fixpt) -> bool {
        true
    }

    open spec fn div_spec(self, rhs: Fixpt) -> Fixpt {
        fixpt_of(q_div(self@, rhs@))
    }
}

impl std::ops::Neg for Fixpt {
    type Output = Fixpt;

    fn neg(self) -> (r: Fixpt) {
        self.neg()
    }
}

impl vstd::std_specs::ops::NegSpecImpl for Fixpt {
    open spec fn obeys_neg_spec() -> bool {
        true
    }

    open spec fn neg_req(self) -> bool {
        true
    }

    open spec fn neg_spec(self) -> Fixpt {
        fixpt_of(q_neg(self@))
    }
}

impl From<i16> for Fixpt {
    fn from(value: i16) -> (r: Fixpt) {
        proof {
            lemma_wrap_congruent(value * 0x100, 0x1_0000);
        }
        Fixpt::from_int(value)
    }
}

impl vstd::std_specs::convert::FromSpecImpl<i16> for Fixpt {
    open spec fn obeys_from_spec() -> bool {
        true
    }

    open spec fn from_spec(value: i16) -> Fixpt {
        fixpt_of(wrap_signed(value * 0x100, 0x1_0000))
    }
}

impl From<i8> for Fixpt {
    fn from(value: i8) -> (r: Fixpt) {
        Fixpt::from_int(value as i16)
    }
}

impl vstd::std_specs::convert::FromSpecImpl<i8> for Fixpt {
    open spec fn obeys_from_spec() -> bool {
        true
    }

    open spec fn from_spec(value: i8) -> Fixpt {
        fixpt_of(value * 0x100)
    }
}

impl From<u8> for Fixpt {
    fn from(value: u8) -> (r: Fixpt) {
        proof {
            lemma_wrap_congruent(value * 0x100, 0x1_0000);
        }
        Fixpt::from_int(value as i16)
    }
}

impl vstd::std_specs::convert::FromSpecImpl<u8> for Fixpt {
    open spec fn obeys_from_spec() -> bool {
        true
    }

    open spec fn from_spec(value: u8) -> Fixpt {
        fixpt_of(wrap_signed(value * 0x100, 0x1_0000))
    }
}

impl From<BigFixpt> for Fixpt {
    fn from(v: BigFixpt) -> (r: Fixpt) {
        v.downgrade()
    }
}

impl vstd::std_specs::convert::FromSpecImpl<BigFixpt> for Fixpt {
    open spec fn obeys_from_spec() -> bool {
        true
    }

    open spec fn from_spec(v: BigFixpt) -> Fixpt {
        fixpt_of(saturate16(v@))
    }
}

impl From<Fixpt> for BigFixpt {
    fn from(v: Fixpt) -> (r: BigFixpt) {
        let r = v.upgrade();
        proof {
            lemma_int24_by_value(r.0, v@);
        }
        r
    }
}

impl vstd::std_specs::convert::FromSpecImpl<Fixpt> for BigFixpt {
    open spec fn obeys_from_spec() -> bool {
        true
    }

    open spec fn from_spec(v: Fixpt) -> BigFixpt {
        big_fixpt_of(v@)
    }
}

impl std::ops::Add for BigFixpt {
    type Output = BigFixpt;

    fn add(self, rhs: BigFixpt) -> (r: BigFixpt) {
        let r = self.add(rhs);
        proof {
            lemma_int24_by_value(r.0, saturate24(self@ + rhs@));
        }
        r
    }
}

impl vstd::std_specs::ops::AddSpecImpl for BigFixpt {
    open spec fn obeys_add_spec() -> bool {
        true
    }

    open spec fn add_req(self, rhs: BigFixpt) -> bool {
        true
    }

    open spec fn add_spec(self, rhs: BigFixpt) -> BigFixpt {
        big_fixpt_of(saturate24(self@ + rhs@))
    }
}

impl std::ops::Sub for BigFixpt {
    type Output = BigFixpt;

    fn sub(self, rhs: BigFixpt) -> (r: BigFixpt) {
        let r = self.sub(rhs);
        proof {
            lemma_int24_by_value(r.0, saturate24(self@ - rhs@));
        }
        r
    }
}

impl vstd::std_specs::ops::SubSpecImpl for BigFixpt {
    open spec fn obeys_sub_spec() -> bool {
        true
    }

    open spec fn sub_req(self, rhs: BigFixpt) -> bool {
        true
    }

    open spec fn sub_spec(self, rhs: BigFixpt) -> BigFixpt {
        big_fixpt_of(saturate24(self@ - rhs@))
    }
}

impl std::ops::Mul for BigFixpt {
    type Output = BigFixpt;

    fn mul(self, rhs: BigFixpt) -> (r: BigFixpt) {
        let r = self.mul(rhs);
        proof {
            lemma_int24_by_value(r.0, big_mul(self@, rhs@));
        }
        r
    }
}

impl vstd::std_specs::ops::MulSpecImpl for BigFixpt {
    open spec fn obeys_mul_spec() -> bool {
        true
    }

    open spec fn mul_req(self, rhs: BigFixpt) -> bool {
        true
    }

    open spec fn mul_spec(self, rhs: BigFixpt) -> BigFixpt {
        big_fixpt_of(big_mul(self@, rhs@))
    }
}

impl std::ops::Div for BigFixpt {
    type Output = BigFixpt;

    fn div(self, rhs: BigFixpt) -> (r: BigFixpt) {
        let r = self.div(rhs);
        proof {
            lemma_int24_by_value(r.0, big_div(self@, rhs@));
        }
        r
    }
}

impl vstd::std_specs::ops::DivSpecImpl for BigFixpt {
    open spec fn obeys_div_spec() -> bool {
        true
    }

    open spec fn div_req(self, rhs: BigFixpt) -> bool {
        true
    }

    open spec fn div_spec(self, rhs: BigFixpt) -> BigFixpt {
        big_fixpt_of(big_div(self@, rhs@))
    }
}

} // verus!
