//! Motor speed units.
//!
//! Speeds are held in units of 16 revolutions per second, as Q8.8 numbers.

use vstd::prelude::*;
use crate::fixpt::BigFixpt;
use crate::fixpt::Fixpt;
use crate::fixpt::big_div;
use crate::raw::saturate16;

verus! {

/// The raw speed value of `rpm` revolutions per minute: `rpm / 60 / 16` in
/// Q16.8 arithmetic, narrowed to Q8.8.
pub open spec fn rpm_q(rpm: int) -> int {
    saturate16(big_div(big_div(rpm, 60), 0x1000))
}

/// Converts revolutions per minute to a speed.
pub fn rpm(per_minute: i16) -> (r: Fixpt)
    ensures
        r@ == rpm_q(per_minute as int),
{
    let rps = BigFixpt::const_from_fraction(per_minute, 60);
    let hz16 = rps.const_div(BigFixpt::from_int(16));
    hz16.downgrade()
}

/// Raw speed value of 800 revolutions per minute.
pub const RPM_800_Q: i16 = 213;

/// Raw speed value of 1000 revolutions per minute.
pub const RPM_1000_Q: i16 = 266;

/// Raw speed value of 7500 revolutions per minute.
pub const RPM_7500_Q: i16 = 2000;

/// Raw speed value of 24000 revolutions per minute, the nominal maximum.
pub const RPM_24000_Q: i16 = 6400;

/// Raw speed value of 24500 revolutions per minute.
pub const RPM_24500_Q: i16 = 6533;

/// Raw speed value of 25500 revolutions per minute.
pub const RPM_25500_Q: i16 = 6800;

/// The named speed constants are the conversions of their speeds.
pub proof fn lemma_rpm_constants()
    ensures
        rpm_q(0) == 0,
        rpm_q(800) == RPM_800_Q,
        rpm_q(1000) == RPM_1000_Q,
        rpm_q(7500) == RPM_7500_Q,
        rpm_q(24000) == RPM_24000_Q,
        rpm_q(24500) == RPM_24500_Q,
        rpm_q(25500) == RPM_25500_Q,
{
}

} // verus!
