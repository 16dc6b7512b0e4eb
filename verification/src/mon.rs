//! The safety monitor: a debounced, sticky shutoff decision over several
//! fault conditions.

use vstd::prelude::*;
use crate::context::AvrAtomic;
use crate::debounce::Debounce;
use crate::debounce::debounce_error;
use crate::debounce::debounce_ok;
use crate::fixpt::Fixpt;
use crate::fixpt::q_abs;
use crate::fixpt::q_sub;
use crate::history::History;
use crate::q7p8::q7p8_abs;
use crate::q7p8::q7p8_sub;
use crate::shutoff::Shutoff;
use crate::timer::LargeTimestamp;
use crate::timer::RelLargeTimestamp;
use crate::timer::stamp_ge;
use crate::timer::stamp_gt;
use crate::units::RPM_1000_Q;
use crate::units::RPM_25500_Q;
use crate::units::RPM_7500_Q;

verus! {

/// Distance in ticks between monitoring checks (20 ms).
pub const CHECK_DIST_TICKS: i16 = 1250;

/// Distance in ticks between monitoring checks that is a fault (100 ms).
pub const CHECK_TIMEOUT_TICKS: i16 = 6250;

/// Distance in ticks between mains 90 degree points that is a fault
/// (100 ms).
pub const MAINS_ZERO_CROSSING_TIMEOUT_TICKS: i16 = 6250;

/// Least number of stack bytes that must always be free.
pub const MIN_STACK_SPACE: u16 = 64;

/// Distance in ticks between two setpoint samples of the history (a third
/// of a second).
pub const SP_HIST_DIST_TICKS: i16 = 20833;

/// Number of setpoint samples in the history.
pub const SP_HIST_COUNT: usize = 9;

/// Raw setpoint change over the history above which the speed checks rest.
pub const SP_GRADIENT_THRES_Q: i16 = RPM_1000_Q;

/// Step of the fault counter for one fault.
pub const ERROR_DEBOUNCE_ERRSTEP: u8 = 3;

/// Value of the fault counter at which the machine is shut off.
pub const ERROR_DEBOUNCE_LIMIT: u8 = 120;

/// Raw deviation of the speed from the setpoint above which it is a fault.
pub const SPEEDO_TOLERANCE_Q: i16 = RPM_1000_Q;

/// Raw speed from which on the deviation is checked.
pub const MON_ACTIVE_THRES_Q: i16 = RPM_7500_Q;

/// Raw speed from which on the speed itself is a fault.
pub const MOT_HARD_LIMIT_Q: i16 = RPM_25500_Q;

/// What the monitor remembers.
pub struct MonView {
    /// The instant of the last monitoring check.
    pub prev_check: int,
    /// The instant of the last mains 90 degree point.
    pub prev_mains_90deg: int,
    /// The instant of the last setpoint sample.
    pub prev_sp: int,
    /// The fault counter.
    pub count: int,
    /// The raw setpoint samples, oldest first.
    pub sp_hist: Seq<int>,
}

/// The inputs of one monitoring cycle.
pub struct MonInput {
    /// The current instant.
    pub now: int,
    /// The raw setpoint.
    pub setpoint: int,
    /// The raw filtered speed.
    pub speedo_hz: int,
    /// Whether this cycle is a mains 90 degree point.
    pub mains_90deg: bool,
    /// The number of stack bytes that were never used.
    pub unused_stack_bytes: int,
    /// Whether the analog pipeline has reported a failure.
    pub analog_failure: bool,
}

/// The instant `ticks` after `stamp`, wrapped.
pub open spec fn stamp_plus(stamp: int, ticks: int) -> int {
    (stamp + ticks) % 0x1_0000
}

/// The instant of the last mains 90 degree point as of this cycle.
pub open spec fn mon_mains_ref(v: MonView, i: MonInput) -> int {
    if i.mains_90deg {
        i.now
    } else {
        v.prev_mains_90deg
    }
}

/// Whether the cycle sees a fault that needs no confirmation: too little
/// free stack, a monitoring check that came too late, a failure of the
/// analog pipeline, or a mains 90 degree point that is overdue.
pub open spec fn mon_hard_fault(v: MonView, i: MonInput) -> bool {
    ||| i.unused_stack_bytes < MIN_STACK_SPACE
    ||| stamp_gt(i.now, stamp_plus(v.prev_check, CHECK_TIMEOUT_TICKS as int), 0x1_0000)
    ||| i.analog_failure
    ||| stamp_gt(
        i.now,
        stamp_plus(mon_mains_ref(v, i), MAINS_ZERO_CROSSING_TIMEOUT_TICKS as int),
        0x1_0000,
    )
}

/// Whether a setpoint sample is due in this cycle.
pub open spec fn mon_sample_due(v: MonView, i: MonInput) -> bool {
    stamp_ge(i.now, stamp_plus(v.prev_sp, SP_HIST_DIST_TICKS as int), 0x1_0000)
}

/// Whether a monitoring check is due in this cycle.
pub open spec fn mon_check_due(v: MonView, i: MonInput) -> bool {
    stamp_ge(i.now, stamp_plus(v.prev_check, CHECK_DIST_TICKS as int), 0x1_0000)
}

/// The setpoint history as of this cycle.
pub open spec fn mon_hist(v: MonView, i: MonInput) -> Seq<int> {
    if mon_sample_due(v, i) {
        v.sp_hist.drop_first().push(i.setpoint)
    } else {
        v.sp_hist
    }
}

/// The fault counter after the debounced checks of a due monitoring check.
/// A speed at the hard limit is a fault. Below it, while the setpoint has
/// moved little over the history, a speed from the activation threshold on
/// is a fault if it deviates from the setpoint by more than the tolerance
/// and healthy otherwise, and a speed below the threshold is healthy.
/// While the setpoint moves, the counter rests.
pub open spec fn mon_debounced(count: int, hist: Seq<int>, i: MonInput) -> int {
    if i.speedo_hz >= MOT_HARD_LIMIT_Q {
        debounce_error(count, ERROR_DEBOUNCE_ERRSTEP as int)
    } else if q_abs(q_sub(i.setpoint, hist[0])) <= SP_GRADIENT_THRES_Q {
        if i.speedo_hz >= MON_ACTIVE_THRES_Q && q_abs(q_sub(i.speedo_hz, i.setpoint))
            > SPEEDO_TOLERANCE_Q {
            debounce_error(count, ERROR_DEBOUNCE_ERRSTEP as int)
        } else {
            debounce_ok(count, ERROR_DEBOUNCE_LIMIT as int, true)
        }
    } else {
        count
    }
}

/// The fault counter at the end of the cycle.
pub open spec fn mon_count(v: MonView, i: MonInput) -> int {
    if mon_hard_fault(v, i) {
        ERROR_DEBOUNCE_LIMIT as int
    } else if mon_check_due(v, i) {
        mon_debounced(v.count, mon_hist(v, i), i)
    } else {
        v.count
    }
}

/// The monitor state at the end of the cycle.
pub open spec fn mon_step(v: MonView, i: MonInput) -> MonView {
    MonView {
        prev_check: if mon_check_due(v, i) {
            stamp_plus(v.prev_check, CHECK_DIST_TICKS as int)
        } else {
            v.prev_check
        },
        prev_mains_90deg: mon_mains_ref(v, i),
        prev_sp: if mon_sample_due(v, i) {
            stamp_plus(v.prev_sp, SP_HIST_DIST_TICKS as int)
        } else {
            v.prev_sp
        },
        count: mon_count(v, i),
        sp_hist: mon_hist(v, i),
    }
}

/// The verdict for a fault counter.
pub open spec fn mon_verdict(count: int) -> Shutoff {
    if count < ERROR_DEBOUNCE_LIMIT {
        Shutoff::MachineRunning
    } else {
        Shutoff::MachineShutoff
    }
}

/// Reports a failure of the analog pipeline: the latch is set, and nothing
/// in the monitor ever clears it.
pub fn mon_report_analog_failure(latch: &mut AvrAtomic)
    ensures
        final(latch)@ != 0,
{
    latch.set_bool(true);
}

/// Whether the analog subsystem has reported a failure.
pub fn mon_analog_failure(latch: &AvrAtomic) -> (r: bool)
    ensures
        r == (latch@ != 0),
{
    latch.get_bool()
}

/// The safety monitor.
pub struct Mon {
    prev_check: LargeTimestamp,
    prev_mains_90deg: LargeTimestamp,
    prev_sp: LargeTimestamp,
    error_deb: Debounce<3, 120, true>,
    sp_hist: History<Fixpt, 9>,
}

impl View for Mon {
    type V = MonView;

    closed spec fn view(&self) -> MonView {
        MonView {
            prev_check: self.prev_check@,
            prev_mains_90deg: self.prev_mains_90deg@,
            prev_sp: self.prev_sp@,
            count: self.error_deb@,
            sp_hist: Seq::new(SP_HIST_COUNT as nat, |k: int| self.sp_hist@[k]@),
        }
    }
}

impl Mon {
    /// Whether the state is well formed: the history is complete.
    pub closed spec fn wf(&self) -> bool {
        self.sp_hist@.len() == SP_HIST_COUNT
    }

    pub fn new() -> (r: Self)
        ensures
            r.wf(),
            r@.prev_check == 0,
            r@.prev_mains_90deg == 0,
            r@.prev_sp == 0,
            r@.count == 0,
            r@.sp_hist =~= Seq::new(SP_HIST_COUNT as nat, |k: int| 0int),
    {
        let zero = Fixpt::from_q(0);
        Mon {
            prev_check: LargeTimestamp::new(),
            prev_mains_90deg: LargeTimestamp::new(),
            prev_sp: LargeTimestamp::new(),
            error_deb: Debounce::new(),
            sp_hist: History::new([zero, zero, zero, zero, zero, zero, zero, zero, zero]),
        }
    }

    /// Starts all three time references at `now`.
    pub fn init(&mut self, now: LargeTimestamp)
        requires
            old(self).wf(),
        ensures
            final(self).wf(),
            final(self)@ == (MonView {
                prev_check: now@,
                prev_mains_90deg: now@,
                prev_sp: now@,
                ..old(self)@
            }),
    {
        self.prev_check = now;
        self.prev_mains_90deg = now;
        self.prev_sp = now;
    }

    /// One monitoring cycle at the instant `now`.
    ///
    /// Once the fault counter has reached its limit, the verdict is shutoff
    /// in every later cycle. A fault that needs no confirmation puts the
    /// counter at its limit at once.
    pub fn check(
        &mut self,
        now: LargeTimestamp,
        setpoint: Fixpt,
        speedo_hz: Fixpt,
        mains_90deg: bool,
        unused_stack_bytes: u16,
        analog_failure: bool,
    ) -> (r: Shutoff)
        requires
            old(self).wf(),
        ensures
            final(self).wf(),
            final(self)@ == mon_step(
                old(self)@,
                (MonInput {
                    now: now@,
                    setpoint: setpoint@,
                    speedo_hz: speedo_hz@,
                    mains_90deg: mains_90deg,
                    unused_stack_bytes: unused_stack_bytes as int,
                    analog_failure: analog_failure,
                }),
            ),
            r == mon_verdict(final(self)@.count),
            old(self)@.count >= ERROR_DEBOUNCE_LIMIT ==> final(self)@.count
                >= ERROR_DEBOUNCE_LIMIT && r == Shutoff::MachineShutoff,
            unused_stack_bytes < MIN_STACK_SPACE || analog_failure ==> final(self)@.count
                == ERROR_DEBOUNCE_LIMIT && r == Shutoff::MachineShutoff,
    {
        let ghost v = self@;
        let ghost i = MonInput {
            now: now@,
            setpoint: setpoint@,
            speedo_hz: speedo_hz@,
            mains_90deg: mains_90deg,
            unused_stack_bytes: unused_stack_bytes as int,
            analog_failure: analog_failure,
        };
        if mains_90deg {
            self.prev_mains_90deg = now;
        }
        let mains_limit = self.prev_mains_90deg.add(
            RelLargeTimestamp::from_ticks(MAINS_ZERO_CROSSING_TIMEOUT_TICKS),
        );
        let mains_90deg_dist_failure = now > mains_limit;

        let next_sp = self.prev_sp.add(RelLargeTimestamp::from_ticks(SP_HIST_DIST_TICKS));
        if now >= next_sp {
            self.prev_sp = next_sp;
            self.sp_hist.push_back(setpoint);
        }
        assert(self@.sp_hist =~= mon_hist(v, i));

        let prev_check = self.prev_check;
        let check_limit = prev_check.add(RelLargeTimestamp::from_ticks(CHECK_TIMEOUT_TICKS));
        let mon_check_dist_failure = now > check_limit;

        let next_check = prev_check.add(RelLargeTimestamp::from_ticks(CHECK_DIST_TICKS));
        if now >= next_check {
            self.prev_check = next_check;
            if speedo_hz.to_q() >= MOT_HARD_LIMIT_Q {
                self.error_deb.error();
            } else {
                let sp_grad = q7p8_abs(q7p8_sub(setpoint, self.sp_hist.oldest()));
                if sp_grad.to_q() <= SP_GRADIENT_THRES_Q {
                    if speedo_hz.to_q() >= MON_ACTIVE_THRES_Q {
                        let diff = q7p8_abs(q7p8_sub(speedo_hz, setpoint));
                        if diff.to_q() > SPEEDO_TOLERANCE_Q {
                            self.error_deb.error();
                        } else {
                            self.error_deb.ok();
                        }
                    } else {
                        self.error_deb.ok();
                    }
                }
            }
        }
        let stack_failure = unused_stack_bytes < MIN_STACK_SPACE;
        if stack_failure || mon_check_dist_failure || analog_failure || mains_90deg_dist_failure {
            self.error_deb.error_no_debounce();
        }
        assert(self@.sp_hist =~= mon_hist(v, i));
        if self.error_deb.is_ok() {
            Shutoff::MachineRunning
        } else {
            Shutoff::MachineShutoff
        }
    }

    /// The fault counter.
    pub fn count(&self) -> (r: u8)
        ensures
            r == self@.count,
    {
        self.error_deb.count()
    }
}

/// The monitor is sticky: a fault counter at or above its limit is never
/// brought below it, whatever the inputs of the cycle.
pub proof fn lemma_mon_sticky(v: MonView, i: MonInput)
    requires
        ERROR_DEBOUNCE_LIMIT <= v.count <= 0xFF,
    ensures
        mon_step(v, i).count >= ERROR_DEBOUNCE_LIMIT,
        mon_verdict(mon_step(v, i).count) == Shutoff::MachineShutoff,
{
}

/// A single cycle with a fault that needs no confirmation puts the fault
/// counter at its limit, whatever it was before.
pub proof fn lemma_mon_hard_fault_trips(v: MonView, i: MonInput)
    requires
        mon_hard_fault(v, i),
    ensures
        mon_step(v, i).count == ERROR_DEBOUNCE_LIMIT,
        mon_verdict(mon_step(v, i).count) == Shutoff::MachineShutoff,
{
}

} // verus!
