//! The triac trigger scheduler.
//!
//! The main loop arms a sequence of trigger pulses at an offset from the start
//! of the half-wave. The timer interrupt then walks through the sequence:
//! trigger on, one half pulse later trigger off, one half pulse later the next
//! pulse, until the pulse count is used up.

use vstd::prelude::*;
use crate::context::CriticalSection;
use crate::context::IrqCtx;
use crate::fixpt::Fixpt;
use crate::fixpt::q_mul;
use crate::mains::Phase;
use crate::mains::PhaseUpdate;
use crate::mains::MAINS_HALFWAVE_TICKS;
use crate::mains::mains_halfwave_dur;
use crate::wrap::wrap_signed;
use crate::shutoff::Shutoff;
use crate::timer::LargeTimestamp;
use crate::timer::RelLargeTimestamp;
use crate::timer::RelTimestamp;
use crate::timer::Timestamp;

verus! {

/// Length in ticks of the trigger-on part and of the trigger-off part of a pulse.
pub const HALF_PULSE_TICKS: i8 = 4;

/// The last offset from the start of a half-wave, in ticks, at which a
/// trigger may happen.
pub const MAX_TRIG_OFFS_TICKS: i16 = 616;

/// Distance from an edge of the half-wave, in ticks, below which a trigger
/// is repeated.
pub const RETRIG_THRES_TICKS: i16 = 273;

/// The largest distance, in ticks, of a trigger time from now that the
/// 8-bit timer is armed for.
pub const ARM_WINDOW_TICKS: i16 = 0x3F;

/// What the timer interrupt does next in a pulse sequence.
#[derive(Copy, Clone, Debug, PartialEq, Eq, Structural)]
pub enum TriacTimerState {
    /// Switch the trigger output on.
    TrigSet,
    /// Switch the trigger output off.
    TrigClr,
}

/// The pulse sequence that the timer interrupt works through. The main
/// loop touches it only to arm or cancel a sequence.
#[derive(Copy, Clone, Debug, PartialEq, Eq, Structural)]
pub struct TriacTimer {
    pub state: TriacTimerState,
    /// Pulses that remain, the current one included.
    pub count: u8,
}

/// What the timer interrupt asks of the hardware.
#[derive(Copy, Clone, Debug, PartialEq, Eq, Structural)]
pub struct TriacTimerAction {
    /// The new level of the trigger output: `true` fires the triac.
    pub trigger: Option<bool>,
    /// The instant to arm the timer for.
    pub arm: Option<Timestamp>,
}

/// A pulse sequence to arm: its first instant and its number of pulses.
#[derive(Copy, Clone, Debug, PartialEq, Eq, Structural)]
pub struct TriacArm {
    pub at: Timestamp,
    pub count: u8,
}

/// What the main loop asks for, to be carried out in this order inside one
/// critical section: cancel the pulse sequence and the timer, switch the
/// trigger output off, arm a new pulse sequence.
#[derive(Copy, Clone, Debug, PartialEq, Eq, Structural)]
pub struct TriacAction {
    pub cancel: bool,
    pub trigger_off: bool,
    pub arm: Option<TriacArm>,
}

impl TriacTimer {
    pub fn new() -> (r: Self)
        ensures
            r.state == TriacTimerState::TrigSet,
            r.count == 0,
    {
        TriacTimer { state: TriacTimerState::TrigSet, count: 0 }
    }
}

/// The timer interrupt, raised at the armed instant `now`.
///
/// With pulses left, the trigger output is switched to the state's level. After the
/// trigger-off part the pulse count goes down by one. The timer is armed one
/// half pulse after `now` unless the last pulse has just ended.
pub fn triac_timer_interrupt(c: &IrqCtx, timer: &mut TriacTimer, now: Timestamp) -> (r:
    TriacTimerAction)
    ensures
        old(timer).count == 0 ==> *final(timer) == *old(timer) && r.trigger.is_none()
            && r.arm.is_none(),
        old(timer).count > 0 && old(timer).state == TriacTimerState::TrigSet ==> {
            &&& final(timer).state == TriacTimerState::TrigClr
            &&& final(timer).count == old(timer).count
            &&& r.trigger == Some(true)
            &&& r.arm.is_some()
        },
        old(timer).count > 0 && old(timer).state == TriacTimerState::TrigClr ==> {
            &&& final(timer).state == TriacTimerState::TrigSet
            &&& final(timer).count == old(timer).count - 1
            &&& r.trigger == Some(false)
            &&& r.arm.is_some() == (final(timer).count != 0)
        },
        r.arm.is_some() ==> r.arm.unwrap()@ == (now@ + HALF_PULSE_TICKS) % 0x100,
{
    let mut action = TriacTimerAction { trigger: None, arm: None };
    if timer.count > 0 {
        let arm;
        match timer.state {
            TriacTimerState::TrigSet => {
                action.trigger = Some(true);
                arm = true;
                timer.state = TriacTimerState::TrigClr;
            },
            TriacTimerState::TrigClr => {
                action.trigger = Some(false);
                timer.count = timer.count - 1;
                arm = timer.count != 0;
                timer.state = TriacTimerState::TrigSet;
            },
        }
        if arm {
            action.arm = Some(now.add(RelTimestamp::from_ticks(HALF_PULSE_TICKS)));
        }
    }
    action
}

/// Starts a sequence of `count` pulses at `begin_time`. Returns the instant
/// to arm the timer for.
pub fn triac_timer_arm(
    cs: &CriticalSection,
    timer: &mut TriacTimer,
    begin_time: Timestamp,
    count: u8,
) -> (r: Timestamp)
    ensures
        final(timer).state == TriacTimerState::TrigSet,
        final(timer).count == count,
        r == begin_time,
{
    timer.state = TriacTimerState::TrigSet;
    timer.count = count;
    begin_time
}

/// Drops the pending sequence, so that an interrupt that still comes does
/// nothing.
pub fn triac_timer_cancel(cs: &CriticalSection, timer: &mut TriacTimer)
    ensures
        final(timer).count == 0,
        final(timer).state == old(timer).state,
{
    timer.count = 0;
}

/// The pulse sequence after the main loop's requests have been carried
/// out.
pub open spec fn triac_applied(timer: TriacTimer, action: TriacAction) -> TriacTimer {
    match action.arm {
        Some(arm) => TriacTimer { state: TriacTimerState::TrigSet, count: arm.count },
        None => if action.cancel {
            TriacTimer { count: 0, ..timer }
        } else {
            timer
        },
    }
}

/// Carries out the main loop's requests on the pulse sequence. Returns
/// the instant to arm the timer for, if a sequence is armed. The caller
/// cancels the timer and switches the trigger output off as the requests
/// say, before it arms the timer.
pub fn triac_apply(cs: &CriticalSection, timer: &mut TriacTimer, action: &TriacAction) -> (r:
    Option<Timestamp>)
    ensures
        *final(timer) == triac_applied(*old(timer), *action),
        r == match action.arm {
            Some(arm) => Some(arm.at),
            None => None,
        },
        action.cancel && action.arm.is_none() ==> final(timer).count == 0,
{
    if action.cancel {
        triac_timer_cancel(cs, timer);
    }
    match action.arm {
        Some(arm) => Some(triac_timer_arm(cs, timer, arm.at, arm.count)),
        None => None,
    }
}

/// The distance, in ticks, by which the offset `offs` lies inside the
/// range in which triggers are repeated: zero in the middle of the
/// half-wave, growing toward either edge.
pub open spec fn retrig_dur(offs: int) -> int {
    if offs < RETRIG_THRES_TICKS {
        RETRIG_THRES_TICKS - offs
    } else if offs > MAINS_HALFWAVE_TICKS - RETRIG_THRES_TICKS {
        offs - (MAINS_HALFWAVE_TICKS - RETRIG_THRES_TICKS)
    } else {
        0
    }
}

/// The number of trigger pulses for a trigger at the offset `offs`: one pulse
/// for each full pulse length inside the repeat range, at least one and at
/// most 255.
pub open spec fn trig_count(offs: int) -> int {
    let n = retrig_dur(offs) / (2 * HALF_PULSE_TICKS);
    if n < 1 {
        1
    } else if n > 0xFF {
        0xFF
    } else {
        n
    }
}

/// Calculates the number of trigger pulses for a trigger offset.
pub fn calc_trig_count(trig_offs: RelLargeTimestamp) -> (r: u8)
    ensures
        r == trig_count(trig_offs@),
        r >= 1,
{
    let offs: i32 = trig_offs.ticks() as i32;
    let thres: i32 = RETRIG_THRES_TICKS as i32;
    let halfwave: i32 = MAINS_HALFWAVE_TICKS as i32;
    let dur: i32 = if offs < thres {
        thres - offs
    } else if offs > halfwave - thres {
        offs - (halfwave - thres)
    } else {
        0
    };
    let pulse_len: i32 = HALF_PULSE_TICKS as i32 * 2;
    let n: i32 = dur / pulse_len;
    if n < 1 {
        1
    } else if n > 0xFF {
        0xFF
    } else {
        n as u8
    }
}

/// The pulse count is at least one, and it does not grow as the offset
/// moves from either edge of the half-wave toward its middle.
pub proof fn lemma_trig_count_monotone(a: int, b: int)
    requires
        a <= b,
    ensures
        1 <= trig_count(a) <= 0xFF,
        b <= MAINS_HALFWAVE_TICKS - RETRIG_THRES_TICKS ==> trig_count(a) >= trig_count(b),
        a >= RETRIG_THRES_TICKS ==> trig_count(a) <= trig_count(b),
        RETRIG_THRES_TICKS <= a <= MAINS_HALFWAVE_TICKS - RETRIG_THRES_TICKS ==> trig_count(a)
            == 1,
{
    let da = retrig_dur(a);
    let db = retrig_dur(b);
    assert(2 * HALF_PULSE_TICKS == 8);
    if da <= db {
        vstd::arithmetic::div_mod::lemma_div_is_ordered(da, db, 8);
    } else {
        vstd::arithmetic::div_mod::lemma_div_is_ordered(db, da, 8);
    }
}

/// The main loop's part of the scheduler.
pub struct Triac {
    phi_offs: RelLargeTimestamp,
    trigger_pending: bool,
}

/// Whether a trigger at `trig_time` is close enough to `now` to arm the
/// 8-bit timer for it.
pub open spec fn in_arm_window(trig_time: int, now: int) -> bool {
    wrap_signed(trig_time - now, 0x1_0000) <= ARM_WINDOW_TICKS
}

/// Whether a tick arms the timer: a trigger is pending, its offset is
/// within the allowed maximum, and its time is inside the arm window.
pub open spec fn triac_arms(
    offs: int,
    pending: bool,
    now: int,
    phase_update: PhaseUpdate,
    phaseref: int,
) -> bool {
    &&& phase_update == PhaseUpdate::Changed || pending
    &&& offs <= MAX_TRIG_OFFS_TICKS
    &&& in_arm_window((phaseref + offs) % 0x1_0000, now)
}

/// What a tick of the scheduler asks of the hardware.
pub open spec fn triac_run_action(
    offs: int,
    pending: bool,
    now: int,
    phase_update: PhaseUpdate,
    phase: Phase,
    phaseref: int,
    shutoff: Shutoff,
) -> TriacAction {
    if phase == Phase::Notsync || shutoff == Shutoff::MachineShutoff {
        TriacAction { cancel: true, trigger_off: true, arm: None }
    } else {
        let changed = phase_update == PhaseUpdate::Changed;
        TriacAction {
            cancel: changed,
            trigger_off: changed || (pending && offs > MAX_TRIG_OFFS_TICKS),
            arm: if triac_arms(offs, pending, now, phase_update, phaseref) {
                Some(
                    TriacArm {
                        at: Timestamp((((phaseref + offs) % 0x1_0000) % 0x100) as u8),
                        count: trig_count(offs) as u8,
                    },
                )
            } else {
                None
            },
        }
    }
}

/// Whether a trigger is pending after a tick of the scheduler.
pub open spec fn triac_run_pending(
    offs: int,
    pending: bool,
    now: int,
    phase_update: PhaseUpdate,
    phase: Phase,
    phaseref: int,
    shutoff: Shutoff,
) -> bool {
    &&& phase != Phase::Notsync
    &&& shutoff == Shutoff::MachineRunning
    &&& phase_update == PhaseUpdate::Changed || pending
    &&& offs <= MAX_TRIG_OFFS_TICKS
    &&& !in_arm_window((phaseref + offs) % 0x1_0000, now)
}

impl Triac {
    /// The trigger offset from the start of the half-wave.
    pub closed spec fn phi_offs(&self) -> RelLargeTimestamp {
        self.phi_offs
    }

    /// Whether the trigger of the current half-wave has yet to be armed.
    pub closed spec fn trigger_pending(&self) -> bool {
        self.trigger_pending
    }

    pub fn new() -> (r: Self)
        ensures
            r.phi_offs()@ == 0,
            !r.trigger_pending(),
    {
        Triac { phi_offs: RelLargeTimestamp::new(), trigger_pending: false }
    }

    /// Sets the trigger offset from the zero-crossing, in milliseconds.
    pub fn set_phi_offs_ms(&mut self, ms: Fixpt)
        ensures
            final(self).phi_offs()@ == q_mul(ms@, 500) / 8,
            final(self).trigger_pending() == old(self).trigger_pending(),
    {
        self.phi_offs = RelLargeTimestamp::from_ms_fixpt(ms);
    }

    /// Sets the trigger offset so that the triac never fires. Returns the
    /// request to cancel the pending pulse sequence.
    pub fn set_phi_offs_shutoff(&mut self) -> (r: TriacAction)
        ensures
            final(self).phi_offs()@ == MAINS_HALFWAVE_TICKS,
            final(self).trigger_pending() == old(self).trigger_pending(),
            r == (TriacAction { cancel: true, trigger_off: false, arm: None }),
    {
        self.phi_offs = mains_halfwave_dur();
        TriacAction { cancel: true, trigger_off: false, arm: None }
    }

    /// Runs the arm logic for one tick at the instant `now`.
    ///
    /// Without synchronisation or with a shutoff request everything is
    /// cancelled. Else a new half-wave cancels what is left of the last one
    /// and makes a trigger pending. A pending trigger whose offset is
    /// within the allowed maximum is armed once its time is inside the arm
    /// window; one beyond the maximum is dropped with the trigger output off.
    pub fn run(
        &mut self,
        now: LargeTimestamp,
        phase_update: PhaseUpdate,
        phase: Phase,
        phaseref: LargeTimestamp,
        shutoff: Shutoff,
    ) -> (r: TriacAction)
        ensures
            final(self).phi_offs() == old(self).phi_offs(),
            r == triac_run_action(
                old(self).phi_offs()@,
                old(self).trigger_pending(),
                now@,
                phase_update,
                phase,
                phaseref@,
                shutoff,
            ),
            final(self).trigger_pending() == triac_run_pending(
                old(self).phi_offs()@,
                old(self).trigger_pending(),
                now@,
                phase_update,
                phase,
                phaseref@,
                shutoff,
            ),
            phase == Phase::Notsync || shutoff == Shutoff::MachineShutoff ==> {
                &&& r == (TriacAction { cancel: true, trigger_off: true, arm: None })
                &&& !final(self).trigger_pending()
            },
    {
        let mut action = TriacAction { cancel: false, trigger_off: false, arm: None };
        if phase == Phase::Notsync || shutoff == Shutoff::MachineShutoff {
            action.cancel = true;
            action.trigger_off = true;
            self.trigger_pending = false;
            return action;
        }
        if phase_update == PhaseUpdate::Changed {
            action.cancel = true;
            action.trigger_off = true;
            self.trigger_pending = true;
        }
        if self.trigger_pending {
            let trig_offs = self.phi_offs;
            if trig_offs.ticks() <= MAX_TRIG_OFFS_TICKS {
                let trig_time = phaseref.add(trig_offs);
                if trig_time.sub(now).ticks() <= ARM_WINDOW_TICKS {
                    action.arm = Some(
                        TriacArm {
                            at: Timestamp::from_large(trig_time),
                            count: calc_trig_count(trig_offs),
                        },
                    );
                    self.trigger_pending = false;
                }
            } else {
                action.trigger_off = true;
                self.trigger_pending = false;
            }
        }
        action
    }
}

/// A shutoff request or a loss of synchronisation always wins: whatever
/// was armed or pending, the pulse sequence is dropped, the trigger output
/// is switched off and nothing is armed. Carrying the request out twice
/// changes nothing more.
pub proof fn lemma_triac_shutoff_wins(
    timer: TriacTimer,
    offs: int,
    pending: bool,
    now: int,
    phase_update: PhaseUpdate,
    phase: Phase,
    phaseref: int,
)
    ensures
        ({
            let action = triac_run_action(
                offs,
                pending,
                now,
                phase_update,
                phase,
                phaseref,
                Shutoff::MachineShutoff,
            );
            &&& action == (TriacAction { cancel: true, trigger_off: true, arm: None })
            &&& triac_applied(timer, action).count == 0
            &&& triac_applied(triac_applied(timer, action), action) == triac_applied(timer, action)
            &&& !triac_run_pending(
                offs,
                pending,
                now,
                phase_update,
                phase,
                phaseref,
                Shutoff::MachineShutoff,
            )
        }),
{
}

} // verus!
