//! The wrapping time base: instants and durations in hardware ticks.
//!
//! Instants wrap with the tick counter. Two instants are ordered by the sign
//! of their wrapped difference, which is the true order as long as they lie
//! less than half the counter's range apart.

use vstd::prelude::*;
use std::cmp::Ordering;
use crate::context::CriticalSection;
use crate::fixpt::Fixpt;
use crate::fixpt::q_mul;
use crate::raw::trunc_div;
use crate::wrap::wrap_signed;
use crate::wrap::wrap_to_i16;
use crate::wrap::wrap_to_i8;
use crate::wrap::wrap_to_u16;
use crate::wrap::wrap_to_u8;
use crate::wrap::lemma_wrap_fold;
use crate::wrap::lemma_wrap_congruent;
use crate::wrap::lemma_wrap_shift;
use crate::kernel24::lemma_trunc_div_bound;

verus! {

/// Microseconds per timer tick.
pub const TIMER_TICK_US: u8 = 16;

/// Whether instant `a` is not before instant `b` on a counter that wraps at
/// `m`: the wrapped difference is not negative.
pub open spec fn stamp_ge(a: int, b: int, m: int) -> bool {
    wrap_signed(a - b, m) >= 0
}

/// Whether instant `a` is after instant `b` on a counter that wraps at `m`.
pub open spec fn stamp_gt(a: int, b: int, m: int) -> bool {
    wrap_signed(a - b, m) > 0
}

/// An instant of the 8-bit tick counter.
#[derive(Copy, Clone, Debug, PartialEq, Eq, Structural)]
pub struct Timestamp(pub u8);

impl View for Timestamp {
    type V = int;

    /// The counter value.
    open spec fn view(&self) -> int {
        self.0 as int
    }
}

impl Timestamp {
    pub fn new() -> (r: Self)
        ensures
            r@ == 0,
    {
        Timestamp(0)
    }

    pub fn from_ticks(ticks: u8) -> (r: Self)
        ensures
            r@ == ticks,
    {
        Timestamp(ticks)
    }

    /// The instant `us` microseconds after the counter's zero, wrapped.
    pub fn from_micros(us: u32) -> (r: Self)
        ensures
            r@ == (us / 16) % 0x100,
    {
        Timestamp(((us / 16) % 0x100) as u8)
    }

    /// The instant `ms` milliseconds after the counter's zero, wrapped.
    pub fn from_millis(ms: u32) -> (r: Self)
        requires
            ms <= 4_294_967,
        ensures
            r@ == ((ms * 1000) / 16) % 0x100,
    {
        Timestamp((((ms * 1000) / 16) % 0x100) as u8)
    }

    /// The instant `other` ticks later, wrapped.
    pub fn add(self, other: RelTimestamp) -> (r: Timestamp)
        ensures
            r@ == (self@ + other@) % 0x100,
    {
        Timestamp(wrap_to_u8(self.0 as i32 + other.0 as i32))
    }

    /// The wrapped signed distance from `other` to `self`.
    pub fn sub(self, other: Timestamp) -> (r: RelTimestamp)
        ensures
            r@ == wrap_signed(self@ - other@, 0x100),
    {
        RelTimestamp(wrap_to_i8(self.0 as i32 - other.0 as i32))
    }

    /// The instant `other` ticks earlier, wrapped.
    pub fn sub_rel(self, other: RelTimestamp) -> (r: Timestamp)
        ensures
            r@ == (self@ - other@) % 0x100,
    {
        Timestamp(wrap_to_u8(self.0 as i32 - other.0 as i32))
    }
}

impl Default for Timestamp {
    fn default() -> (r: Self)
        ensures
            r@ == 0,
    {
        Self::new()
    }
}

impl PartialOrd for Timestamp {
    fn partial_cmp(&self, other: &Self) -> (r: Option<Ordering>) {
        let d = Timestamp::sub(*self, *other);
        if d.0 == 0 {
            proof {
                lemma_wrapped_zero(self@, other@, 0x100);
            }
            Some(Ordering::Equal)
        } else if d.0 > 0 {
            Some(Ordering::Greater)
        } else {
            Some(Ordering::Less)
        }
    }
}

impl vstd::std_specs::cmp::PartialOrdSpecImpl for Timestamp {
    open spec fn obeys_partial_cmp_spec() -> bool {
        true
    }

    /// Order by the sign of the wrapped difference.
    open spec fn partial_cmp_spec(&self, other: &Self) -> Option<Ordering> {
        if wrap_signed(self@ - other@, 0x100) == 0 {
            Some(Ordering::Equal)
        } else if wrap_signed(self@ - other@, 0x100) > 0 {
            Some(Ordering::Greater)
        } else {
            Some(Ordering::Less)
        }
    }
}

impl std::ops::Add<RelTimestamp> for Timestamp {
    type Output = Timestamp;

    fn add(self, rhs: RelTimestamp) -> (r: Timestamp) {
        Timestamp(wrap_to_u8(self.0 as i32 + rhs.0 as i32))
    }
}

impl vstd::std_specs::ops::AddSpecImpl<RelTimestamp> for Timestamp {
    open spec fn obeys_add_spec() -> bool {
        true
    }

    open spec fn add_req(self, rhs: RelTimestamp) -> bool {
        true
    }

    open spec fn add_spec(self, rhs: RelTimestamp) -> Timestamp {
        Timestamp(((self@ + rhs@) % 0x100) as u8)
    }
}

impl std::ops::Sub<Timestamp> for Timestamp {
    type Output = RelTimestamp;

    fn sub(self, rhs: Timestamp) -> (r: RelTimestamp) {
        proof {
            lemma_wrap_congruent(self@ - rhs@, 0x100);
        }
        RelTimestamp(wrap_to_i8(self.0 as i32 - rhs.0 as i32))
    }
}

impl vstd::std_specs::ops::SubSpecImpl<Timestamp> for Timestamp {
    open spec fn obeys_sub_spec() -> bool {
        true
    }

    open spec fn sub_req(self, rhs: Timestamp) -> bool {
        true
    }

    open spec fn sub_spec(self, rhs: Timestamp) -> RelTimestamp {
        RelTimestamp(wrap_signed(self@ - rhs@, 0x100) as i8)
    }
}

impl std::ops::Sub<RelTimestamp> for Timestamp {
    type Output = Timestamp;

    fn sub(self, rhs: RelTimestamp) -> (r: Timestamp) {
        Timestamp(wrap_to_u8(self.0 as i32 - rhs.0 as i32))
    }
}

impl vstd::std_specs::ops::SubSpecImpl<RelTimestamp> for Timestamp {
    open spec fn obeys_sub_spec() -> bool {
        true
    }

    open spec fn sub_req(self, rhs: RelTimestamp) -> bool {
        true
    }

    open spec fn sub_spec(self, rhs: RelTimestamp) -> Timestamp {
        Timestamp(((self@ - rhs@) % 0x100) as u8)
    }
}

impl From<u8> for Timestamp {
    fn from(stamp: u8) -> (r: Timestamp) {
        Timestamp(stamp)
    }
}

impl vstd::std_specs::convert::FromSpecImpl<u8> for Timestamp {
    open spec fn obeys_from_spec() -> bool {
        true
    }

    open spec fn from_spec(stamp: u8) -> Timestamp {
        Timestamp(stamp)
    }
}

/// An instant of the 16-bit tick counter.
#[derive(Copy, Clone, Debug, PartialEq, Eq, Structural)]
pub struct LargeTimestamp(pub u16);

impl View for LargeTimestamp {
    type V = int;

    /// The counter value.
    open spec fn view(&self) -> int {
        self.0 as int
    }
}

impl LargeTimestamp {
    pub fn new() -> (r: Self)
        ensures
            r@ == 0,
    {
        LargeTimestamp(0)
    }

    pub fn from_ticks(ticks: u16) -> (r: Self)
        ensures
            r@ == ticks,
    {
        LargeTimestamp(ticks)
    }

    /// The instant `us` microseconds after the counter's zero, wrapped.
    pub fn from_micros(us: u32) -> (r: Self)
        ensures
            r@ == (us / 16) % 0x1_0000,
    {
        LargeTimestamp(((us / 16) % 0x1_0000) as u16)
    }

    /// The instant `ms` milliseconds after the counter's zero, wrapped.
    pub fn from_millis(ms: u32) -> (r: Self)
        requires
            ms <= 4_294_967,
        ensures
            r@ == ((ms * 1000) / 16) % 0x1_0000,
    {
        LargeTimestamp((((ms * 1000) / 16) % 0x1_0000) as u16)
    }

    /// The instant `other` ticks later, wrapped.
    pub fn add(self, other: RelLargeTimestamp) -> (r: LargeTimestamp)
        ensures
            r@ == (self@ + other@) % 0x1_0000,
    {
        LargeTimestamp(wrap_to_u16(self.0 as i32 + other.0 as i32))
    }

    /// The wrapped signed distance from `other` to `self`.
    pub fn sub(self, other: LargeTimestamp) -> (r: RelLargeTimestamp)
        ensures
            r@ == wrap_signed(self@ - other@, 0x1_0000),
    {
        RelLargeTimestamp(wrap_to_i16(self.0 as i32 - other.0 as i32))
    }

    /// The instant `other` ticks earlier, wrapped.
    pub fn sub_rel(self, other: RelLargeTimestamp) -> (r: LargeTimestamp)
        ensures
            r@ == (self@ - other@) % 0x1_0000,
    {
        LargeTimestamp(wrap_to_u16(self.0 as i32 - other.0 as i32))
    }
}

impl Default for LargeTimestamp {
    fn default() -> (r: Self)
        ensures
            r@ == 0,
    {
        Self::new()
    }
}

impl PartialOrd for LargeTimestamp {
    fn partial_cmp(&self, other: &Self) -> (r: Option<Ordering>) {
        let d = LargeTimestamp::sub(*self, *other);
        if d.0 == 0 {
            proof {
                lemma_wrapped_zero(self@, other@, 0x1_0000);
            }
            Some(Ordering::Equal)
        } else if d.0 > 0 {
            Some(Ordering::Greater)
        } else {
            Some(Ordering::Less)
        }
    }
}

impl vstd::std_specs::cmp::PartialOrdSpecImpl for LargeTimestamp {
    open spec fn obeys_partial_cmp_spec() -> bool {
        true
    }

    /// Order by the sign of the wrapped difference.
    open spec fn partial_cmp_spec(&self, other: &Self) -> Option<Ordering> {
        if wrap_signed(self@ - other@, 0x1_0000) == 0 {
            Some(Ordering::Equal)
        } else if wrap_signed(self@ - other@, 0x1_0000) > 0 {
            Some(Ordering::Greater)
        } else {
            Some(Ordering::Less)
        }
    }
}

impl std::ops::Add<RelLargeTimestamp> for LargeTimestamp {
    type Output = LargeTimestamp;

    fn add(self, rhs: RelLargeTimestamp) -> (r: LargeTimestamp) {
        LargeTimestamp(wrap_to_u16(self.0 as i32 + rhs.0 as i32))
    }
}

impl vstd::std_specs::ops::AddSpecImpl<RelLargeTimestamp> for LargeTimestamp {
    open spec fn obeys_add_spec() -> bool {
        true
    }

    open spec fn add_req(self, rhs: RelLargeTimestamp) -> bool {
        true
    }

    open spec fn add_spec(self, rhs: RelLargeTimestamp) -> LargeTimestamp {
        LargeTimestamp(((self@ + rhs@) % 0x1_0000) as u16)
    }
}

impl std::ops::Sub<LargeTimestamp> for LargeTimestamp {
    type Output = RelLargeTimestamp;

    fn sub(self, rhs: LargeTimestamp) -> (r: RelLargeTimestamp) {
        proof {
            lemma_wrap_congruent(self@ - rhs@, 0x1_0000);
        }
        RelLargeTimestamp(wrap_to_i16(self.0 as i32 - rhs.0 as i32))
    }
}

impl vstd::std_specs::ops::SubSpecImpl<LargeTimestamp> for LargeTimestamp {
    open spec fn obeys_sub_spec() -> bool {
        true
    }

    open spec fn sub_req(self, rhs: LargeTimestamp) -> bool {
        true
    }

    open spec fn sub_spec(self, rhs: LargeTimestamp) -> RelLargeTimestamp {
        RelLargeTimestamp(wrap_signed(self@ - rhs@, 0x1_0000) as i16)
    }
}

impl std::ops::Sub<RelLargeTimestamp> for LargeTimestamp {
    type Output = LargeTimestamp;

    fn sub(self, rhs: RelLargeTimestamp) -> (r: LargeTimestamp) {
        LargeTimestamp(wrap_to_u16(self.0 as i32 - rhs.0 as i32))
    }
}

impl vstd::std_specs::ops::SubSpecImpl<RelLargeTimestamp> for LargeTimestamp {
    open spec fn obeys_sub_spec() -> bool {
        true
    }

    open spec fn sub_req(self, rhs: RelLargeTimestamp) -> bool {
        true
    }

    open spec fn sub_spec(self, rhs: RelLargeTimestamp) -> LargeTimestamp {
        LargeTimestamp(((self@ - rhs@) % 0x1_0000) as u16)
    }
}

impl From<u16> for LargeTimestamp {
    fn from(stamp: u16) -> (r: LargeTimestamp) {
        LargeTimestamp(stamp)
    }
}

impl vstd::std_specs::convert::FromSpecImpl<u16> for LargeTimestamp {
    open spec fn obeys_from_spec() -> bool {
        true
    }

    open spec fn from_spec(stamp: u16) -> LargeTimestamp {
        LargeTimestamp(stamp)
    }
}

/// A signed 8-bit duration in ticks.
#[derive(Copy, Clone, Debug, PartialEq, Eq, Structural, PartialOrd, Ord)]
pub struct RelTimestamp(pub i8);

impl View for RelTimestamp {
    type V = int;

    /// The number of ticks.
    open spec fn view(&self) -> int {
        self.0 as int
    }
}

impl RelTimestamp {
    pub fn new() -> (r: Self)
        ensures
            r@ == 0,
    {
        RelTimestamp(0)
    }

    pub fn from_ticks(ticks: i8) -> (r: Self)
        ensures
            r@ == ticks,
    {
        RelTimestamp(ticks)
    }

    /// The duration of `us` microseconds, rounded toward zero and wrapped.
    pub fn from_micros(us: i32) -> (r: Self)
        ensures
            r@ == wrap_signed(trunc_div(us as int, 16), 0x100),
    {
        RelTimestamp(wrap_to_i8(us / 16))
    }

    /// The duration of `ms` milliseconds, rounded toward zero and wrapped.
    pub fn from_millis(ms: i32) -> (r: Self)
        requires
            -2_147_483 <= ms <= 2_147_483,
        ensures
            r@ == wrap_signed(trunc_div(ms * 1000, 16), 0x100),
    {
        RelTimestamp(wrap_to_i8((ms * 1000) / 16))
    }

    /// The wrapped sum.
    pub fn add(self, other: RelTimestamp) -> (r: RelTimestamp)
        ensures
            r@ == wrap_signed(self@ + other@, 0x100),
    {
        RelTimestamp(wrap_to_i8(self.0 as i32 + other.0 as i32))
    }

    /// The wrapped difference.
    pub fn sub(self, other: RelTimestamp) -> (r: RelTimestamp)
        ensures
            r@ == wrap_signed(self@ - other@, 0x100),
    {
        RelTimestamp(wrap_to_i8(self.0 as i32 - other.0 as i32))
    }

    /// The quotient by `d`, rounded toward zero.
    pub fn div(&self, d: i8) -> (r: RelTimestamp)
        requires
            d != 0,
            !(self@ == -0x80 && d == -1),
        ensures
            r@ == trunc_div(self@, d as int),
    {
        proof {
            lemma_trunc_div_bound(self@, d as int);
        }
        RelTimestamp(self.0 / d)
    }
}

impl Default for RelTimestamp {
    fn default() -> (r: Self)
        ensures
            r@ == 0,
    {
        Self::new()
    }
}

impl std::ops::Add<RelTimestamp> for RelTimestamp {
    type Output = RelTimestamp;

    fn add(self, rhs: RelTimestamp) -> (r: RelTimestamp) {
        proof {
            lemma_wrap_congruent(self@ + rhs@, 0x100);
        }
        RelTimestamp(wrap_to_i8(self.0 as i32 + rhs.0 as i32))
    }
}

impl vstd::std_specs::ops::AddSpecImpl<RelTimestamp> for RelTimestamp {
    open spec fn obeys_add_spec() -> bool {
        true
    }

    open spec fn add_req(self, rhs: RelTimestamp) -> bool {
        true
    }

    open spec fn add_spec(self, rhs: RelTimestamp) -> RelTimestamp {
        RelTimestamp(wrap_signed(self@ + rhs@, 0x100) as i8)
    }
}

impl std::ops::Sub<RelTimestamp> for RelTimestamp {
    type Output = RelTimestamp;

    fn sub(self, rhs: RelTimestamp) -> (r: RelTimestamp) {
        proof {
            lemma_wrap_congruent(self@ - rhs@, 0x100);
        }
        RelTimestamp(wrap_to_i8(self.0 as i32 - rhs.0 as i32))
    }
}

impl vstd::std_specs::ops::SubSpecImpl<RelTimestamp> for RelTimestamp {
    open spec fn obeys_sub_spec() -> bool {
        true
    }

    open spec fn sub_req(self, rhs: RelTimestamp) -> bool {
        true
    }

    open spec fn sub_spec(self, rhs: RelTimestamp) -> RelTimestamp {
        RelTimestamp(wrap_signed(self@ - rhs@, 0x100) as i8)
    }
}

impl From<i8> for RelTimestamp {
    fn from(relstamp: i8) -> (r: RelTimestamp) {
        RelTimestamp(relstamp)
    }
}

impl vstd::std_specs::convert::FromSpecImpl<i8> for RelTimestamp {
    open spec fn obeys_from_spec() -> bool {
        true
    }

    open spec fn from_spec(relstamp: i8) -> RelTimestamp {
        RelTimestamp(relstamp)
    }
}

/// A signed 16-bit duration in ticks.
#[derive(Copy, Clone, Debug, PartialEq, Eq, Structural, PartialOrd, Ord)]
pub struct RelLargeTimestamp(pub i16);

impl View for RelLargeTimestamp {
    type V = int;

    /// The number of ticks.
    open spec fn view(&self) -> int {
        self.0 as int
    }
}

impl RelLargeTimestamp {
    pub fn new() -> (r: Self)
        ensures
            r@ == 0,
    {
        RelLargeTimestamp(0)
    }

    pub fn from_ticks(ticks: i16) -> (r: Self)
        ensures
            r@ == ticks,
    {
        RelLargeTimestamp(ticks)
    }

    /// The duration of `us` microseconds, rounded toward zero and wrapped.
    pub fn from_micros(us: i32) -> (r: Self)
        ensures
            r@ == wrap_signed(trunc_div(us as int, 16), 0x1_0000),
    {
        RelLargeTimestamp(wrap_to_i16(us / 16))
    }

    /// The duration of `ms` milliseconds, rounded toward zero and wrapped.
    pub fn from_millis(ms: i32) -> (r: Self)
        requires
            -2_147_483 <= ms <= 2_147_483,
        ensures
            r@ == wrap_signed(trunc_div(ms * 1000, 16), 0x1_0000),
    {
        RelLargeTimestamp(wrap_to_i16((ms * 1000) / 16))
    }

    /// The wrapped sum.
    pub fn add(self, other: RelLargeTimestamp) -> (r: RelLargeTimestamp)
        ensures
            r@ == wrap_signed(self@ + other@, 0x1_0000),
    {
        RelLargeTimestamp(wrap_to_i16(self.0 as i32 + other.0 as i32))
    }

    /// The wrapped difference.
    pub fn sub(self, other: RelLargeTimestamp) -> (r: RelLargeTimestamp)
        ensures
            r@ == wrap_signed(self@ - other@, 0x1_0000),
    {
        RelLargeTimestamp(wrap_to_i16(self.0 as i32 - other.0 as i32))
    }

    /// The quotient by `d`, rounded toward zero.
    pub fn div(&self, d: i16) -> (r: RelLargeTimestamp)
        requires
            d != 0,
            !(self@ == -0x8000 && d == -1),
        ensures
            r@ == trunc_div(self@, d as int),
    {
        proof {
            lemma_trunc_div_bound(self@, d as int);
        }
        RelLargeTimestamp(self.0 / d)
    }
}

impl Default for RelLargeTimestamp {
    fn default() -> (r: Self)
        ensures
            r@ == 0,
    {
        Self::new()
    }
}

impl std::ops::Add<RelLargeTimestamp> for RelLargeTimestamp {
    type Output = RelLargeTimestamp;

    fn add(self, rhs: RelLargeTimestamp) -> (r: RelLargeTimestamp) {
        proof {
            lemma_wrap_congruent(self@ + rhs@, 0x1_0000);
        }
        RelLargeTimestamp(wrap_to_i16(self.0 as i32 + rhs.0 as i32))
    }
}

impl vstd::std_specs::ops::AddSpecImpl<RelLargeTimestamp> for RelLargeTimestamp {
    open spec fn obeys_add_spec() -> bool {
        true
    }

    open spec fn add_req(self, rhs: RelLargeTimestamp) -> bool {
        true
    }

    open spec fn add_spec(self, rhs: RelLargeTimestamp) -> RelLargeTimestamp {
        RelLargeTimestamp(wrap_signed(self@ + rhs@, 0x1_0000) as i16)
    }
}

impl std::ops::Sub<RelLargeTimestamp> for RelLargeTimestamp {
    type Output = RelLargeTimestamp;

    fn sub(self, rhs: RelLargeTimestamp) -> (r: RelLargeTimestamp) {
        proof {
            lemma_wrap_congruent(self@ - rhs@, 0x1_0000);
        }
        RelLargeTimestamp(wrap_to_i16(self.0 as i32 - rhs.0 as i32))
    }
}

impl vstd::std_specs::ops::SubSpecImpl<RelLargeTimestamp> for RelLargeTimestamp {
    open spec fn obeys_sub_spec() -> bool {
        true
    }

    open spec fn sub_req(self, rhs: RelLargeTimestamp) -> bool {
        true
    }

    open spec fn sub_spec(self, rhs: RelLargeTimestamp) -> RelLargeTimestamp {
        RelLargeTimestamp(wrap_signed(self@ - rhs@, 0x1_0000) as i16)
    }
}

impl From<i16> for RelLargeTimestamp {
    fn from(relstamp: i16) -> (r: RelLargeTimestamp) {
        RelLargeTimestamp(relstamp)
    }
}

impl vstd::std_specs::convert::FromSpecImpl<i16> for RelLargeTimestamp {
    open spec fn obeys_from_spec() -> bool {
        true
    }

    open spec fn from_spec(relstamp: i16) -> RelLargeTimestamp {
        RelLargeTimestamp(relstamp)
    }
}

/// A wrapped difference is zero exactly for equal counter values.
pub proof fn lemma_wrapped_zero(a: int, b: int, m: int)
    requires
        m > 0,
        m % 2 == 0,
        0 <= a < m,
        0 <= b < m,
    ensures
        (wrap_signed(a - b, m) == 0) == (a == b),
{
    lemma_wrap_fold(a - b, m);
}

impl Timestamp {
    /// The low byte of a 16-bit instant.
    pub fn from_large(stamp: LargeTimestamp) -> (r: Timestamp)
        ensures
            r@ == stamp@ % 0x100,
    {
        Timestamp((stamp.0 % 0x100) as u8)
    }

    /// The counter value.
    pub fn ticks(self) -> (r: u8)
        ensures
            r == self@,
    {
        self.0
    }
}

impl LargeTimestamp {
    /// The counter value.
    pub fn ticks(self) -> (r: u16)
        ensures
            r == self@,
    {
        self.0
    }
}

impl RelTimestamp {
    /// The number of ticks.
    pub fn ticks(self) -> (r: i8)
        ensures
            r == self@,
    {
        self.0
    }
}

impl RelLargeTimestamp {
    /// The number of ticks.
    pub fn ticks(self) -> (r: i16)
        ensures
            r == self@,
    {
        self.0
    }

    /// Converts a duration in milliseconds to ticks.
    ///
    /// A millisecond is 62.5 ticks. The factor is applied as 62.5 / 32 in
    /// fixed point, and the remaining factor 32 is folded into the final
    /// shift of the raw value.
    pub fn from_ms_fixpt(ms: Fixpt) -> (r: RelLargeTimestamp)
        ensures
            r@ == q_mul(ms@, 500) / 8,
    {
        let fac = Fixpt::from_q(500);
        let scaled = ms.mul(fac);
        let q: i16 = scaled.to_q();
        let ticks: i16 = if q >= 0 {
            q / 8
        } else {
            -(((7 - q as i32) / 8) as i16)
        };
        RelLargeTimestamp::from_ticks(ticks)
    }
}

/// Reads the short instant from the hardware counter value.
pub fn timer_get(count: u8) -> (r: Timestamp)
    ensures
        r@ == count,
{
    Timestamp::from_ticks(count)
}

/// Extends the 8-bit hardware counter to 16 bits, inside a critical
/// section so that the counter and its overflow are read as one.
///
/// `upper` is the software-maintained high byte and `lower` the counter as
/// read. `overflow` is `None` if the hardware overflow flag was clear, and
/// otherwise holds the counter as read again after the flag was cleared; the
/// high byte is then advanced by one, wrapping.
pub fn timer_get_large_cs(
    cs: &CriticalSection,
    upper: &mut u8,
    lower: u8,
    overflow: Option<u8>,
) -> (r: LargeTimestamp)
    ensures
        *final(upper) == match overflow {
            Some(_) => (*old(upper) + 1) % 0x100,
            None => *old(upper) as int,
        },
        r@ == *final(upper) * 0x100 + match overflow {
            Some(again) => again,
            None => lower,
        },
{
    let mut low: u8 = lower;
    if let Some(again) = overflow {
        low = again;
        *upper = if *upper == 0xFF {
            0
        } else {
            *upper + 1
        };
    }
    LargeTimestamp::from_ticks((*upper as u16) * 0x100 + low as u16)
}

/// Whether the compare register must be pushed forward after arming: the
/// trigger time is not after `now` and the compare flag has not been raised.
pub fn timer_arm_missed(trigger_time: Timestamp, now: Timestamp, compare_flag: bool) -> (r: bool)
    ensures
        r == (!stamp_gt(trigger_time@, now@, 0x100) && !compare_flag),
{
    trigger_time <= now && !compare_flag
}

/// On a counter that wraps at `m`, the order of two instants that are less
/// than half the range apart is the order of the true times they were taken
/// at.
pub proof fn lemma_order_matches_elapsed_time(ta: int, tb: int, m: int)
    requires
        m > 0,
        m % 2 == 0,
        -m <= 2 * (ta - tb) < m,
    ensures
        stamp_ge(ta % m, tb % m, m) == (ta >= tb),
        stamp_gt(ta % m, tb % m, m) == (ta > tb),
        wrap_signed(ta % m - tb % m, m) == ta - tb,
{
    vstd::arithmetic::div_mod::lemma_fundamental_div_mod(ta, m);
    vstd::arithmetic::div_mod::lemma_fundamental_div_mod(tb, m);
    let k = tb / m - ta / m;
    assert(ta % m - tb % m == (ta - tb) + k * m) by (nonlinear_arith)
        requires
            ta == m * (ta / m) + ta % m,
            tb == m * (tb / m) + tb % m,
            k == tb / m - ta / m,
    ;
    lemma_wrap_shift(ta - tb, k, m);
    lemma_wrap_congruent(ta - tb, m);
}

/// The order of two 8-bit instants taken less than 128 ticks apart is the
/// order of the true times.
pub proof fn lemma_timestamp_order(ta: int, tb: int)
    requires
        -0x80 <= ta - tb < 0x80,
    ensures
        stamp_ge(ta % 0x100, tb % 0x100, 0x100) == (ta >= tb),
        stamp_gt(ta % 0x100, tb % 0x100, 0x100) == (ta > tb),
{
    lemma_order_matches_elapsed_time(ta, tb, 0x100);
}

/// The order of two 16-bit instants taken less than 32768 ticks apart is
/// the order of the true times.
pub proof fn lemma_large_timestamp_order(ta: int, tb: int)
    requires
        -0x8000 <= ta - tb < 0x8000,
    ensures
        stamp_ge(ta % 0x1_0000, tb % 0x1_0000, 0x1_0000) == (ta >= tb),
        stamp_gt(ta % 0x1_0000, tb % 0x1_0000, 0x1_0000) == (ta > tb),
{
    lemma_order_matches_elapsed_time(ta, tb, 0x1_0000);
}

} // verus!
