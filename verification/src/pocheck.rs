//! The power-on self-test of the two shutoff paths.
//!
//! Before the motor may run, each shutoff path is left as the only one that
//! is switched off, and the motor must stay at rest. Every stage waits a
//! settle time first and then checks the speed for a check time.

use vstd::prelude::*;
use crate::fixpt::Fixpt;
use crate::shutoff::Shutoff;
use crate::speedo::MotorSpeed;
use crate::timer::LargeTimestamp;
use crate::timer::RelLargeTimestamp;
use crate::timer::stamp_ge;

verus! {

/// Length in ticks of the settle part of a stage (50 ms).
pub const DUR_PRE_TICKS: i16 = 3125;

/// Length in ticks of the check part of a stage (400 ms).
pub const DUR_CHECK_TICKS: i16 = 25000;

/// Raw Q8.8 value of the trigger offset, in milliseconds, that is used
/// while the triac path is enabled during the test: a tenth of a half-wave.
pub const TRIAC_TRIG_OFFS_ENABLED_MS_Q: i16 = 256;

/// The stage of the self-test.
#[derive(Copy, Clone, Debug, PartialEq, Eq, Structural)]
pub enum PoState {
    /// Both paths are switched off.
    CheckIdle,
    /// Only the secondary path is switched off.
    CheckSecondaryShutoff,
    /// Only the primary path is switched off.
    CheckPrimaryShutoff,
    /// The motor has moved. Final.
    Error,
    /// All stages have passed. Final.
    DoneOk,
}

/// The part of a stage.
#[derive(Copy, Clone, Debug, PartialEq, Eq, Structural)]
pub enum PoStatePart {
    /// Settle time: nothing is checked.
    Pre,
    /// Check time: the motor must be at rest.
    Check,
}

/// The stage that follows `s`; the two final stages follow themselves.
pub open spec fn po_next(s: PoState) -> PoState {
    match s {
        PoState::CheckIdle => PoState::CheckSecondaryShutoff,
        PoState::CheckSecondaryShutoff => PoState::CheckPrimaryShutoff,
        PoState::CheckPrimaryShutoff => PoState::DoneOk,
        PoState::Error => PoState::Error,
        PoState::DoneOk => PoState::DoneOk,
    }
}

/// Whether the stage is one of the two final ones.
pub open spec fn po_final(s: PoState) -> bool {
    s == PoState::Error || s == PoState::DoneOk
}

/// Whether a speed reading shows the motor moving: every reading other
/// than zero does. No reading counts as rest.
pub open spec fn po_moving(speed: Option<MotorSpeed>) -> bool {
    match speed {
        Some(s) => s@ != 0,
        None => false,
    }
}

impl PoState {
    pub fn next(&self) -> (r: Self)
        ensures
            r == po_next(*self),
    {
        match self {
            PoState::CheckIdle => PoState::CheckSecondaryShutoff,
            PoState::CheckSecondaryShutoff => PoState::CheckPrimaryShutoff,
            PoState::CheckPrimaryShutoff => PoState::DoneOk,
            PoState::Error => PoState::Error,
            PoState::DoneOk => PoState::DoneOk,
        }
    }
}

/// The self-test state machine.
pub struct PoCheck {
    state: PoState,
    next_transition: LargeTimestamp,
    part: PoStatePart,
}

impl PoCheck {
    /// The current stage.
    pub closed spec fn state(&self) -> PoState {
        self.state
    }

    /// The current part of the stage.
    pub closed spec fn part(&self) -> PoStatePart {
        self.part
    }

    /// The instant at which the current part ends.
    pub closed spec fn next_transition(&self) -> LargeTimestamp {
        self.next_transition
    }

    pub fn new() -> (r: Self)
        ensures
            r.state() == PoState::CheckIdle,
            r.part() == PoStatePart::Pre,
            r.next_transition()@ == 0,
    {
        PoCheck {
            state: PoState::CheckIdle,
            next_transition: LargeTimestamp::new(),
            part: PoStatePart::Pre,
        }
    }

    /// Starts the settle time of the first stage at `now`.
    pub fn init(&mut self, now: LargeTimestamp)
        ensures
            final(self).state() == old(self).state(),
            final(self).part() == old(self).part(),
            final(self).next_transition()@ == (now@ + DUR_PRE_TICKS) % 0x1_0000,
    {
        self.next_transition = now.add(RelLargeTimestamp::from_ticks(DUR_PRE_TICKS));
    }

    /// One tick at the instant `now` with the speed reading `speedo_hz`.
    ///
    /// A part ends when `now` has reached its end. The settle part is
    /// followed by the check part of the same stage, the check part by the
    /// settle part of the next stage. During the check part, the tick that
    /// ends it included, a moving motor is an error. The final stages are
    /// never left.
    pub fn run(&mut self, now: LargeTimestamp, speedo_hz: Option<MotorSpeed>) -> (r: PoState)
        ensures
            r == final(self).state(),
            po_ran(*old(self), *final(self), now@, speedo_hz),
            old(self).state() == PoState::Error ==> r == PoState::Error,
            !po_final(old(self).state()) && old(self).part() == PoStatePart::Check && po_moving(
                speedo_hz,
            ) ==> r == PoState::Error,
    {
        let mut state = self.state;
        match state {
            PoState::CheckIdle | PoState::CheckSecondaryShutoff | PoState::CheckPrimaryShutoff => {
                let transition = now >= self.next_transition;
                match self.part {
                    PoStatePart::Pre => {
                        if transition {
                            self.part = PoStatePart::Check;
                            self.next_transition = now.add(
                                RelLargeTimestamp::from_ticks(DUR_CHECK_TICKS),
                            );
                        }
                    },
                    PoStatePart::Check => {
                        if transition {
                            self.part = PoStatePart::Pre;
                            state = state.next();
                            self.next_transition = now.add(
                                RelLargeTimestamp::from_ticks(DUR_PRE_TICKS),
                            );
                        }
                        if Self::is_error_condition(state, speedo_hz) {
                            state = PoState::Error;
                        }
                    },
                }
            },
            PoState::Error | PoState::DoneOk => (),
        }
        self.state = state;
        state
    }

    /// Whether the speed reading is an error: the motor must be at rest
    /// throughout the whole test, whatever the stage.
    fn is_error_condition(state: PoState, speedo_hz: Option<MotorSpeed>) -> (r: bool)
        ensures
            r == po_moving(speedo_hz),
    {
        let rpm_is_zero = match speedo_hz {
            Some(s) => s.as_16hz().to_q() == 0,
            None => true,
        };
        !rpm_is_zero
    }

    /// The trigger offset, in milliseconds, that the stage asks for;
    /// nothing where the triac stays off.
    pub fn get_triac_phi_offs_ms(&self) -> (r: Option<Fixpt>)
        ensures
            r.is_some() == (self.state() == PoState::CheckSecondaryShutoff || self.state()
                == PoState::CheckPrimaryShutoff),
            r.is_some() ==> r.unwrap()@ == TRIAC_TRIG_OFFS_ENABLED_MS_Q,
    {
        match self.state {
            PoState::CheckIdle => None,
            PoState::CheckSecondaryShutoff => Some(Fixpt::from_q(TRIAC_TRIG_OFFS_ENABLED_MS_Q)),
            PoState::CheckPrimaryShutoff => Some(Fixpt::from_q(TRIAC_TRIG_OFFS_ENABLED_MS_Q)),
            PoState::Error => None,
            PoState::DoneOk => None,
        }
    }

    /// The verdict for the primary (triac) path.
    pub fn get_triac_shutoff(&self) -> (r: Shutoff)
        ensures
            r == po_triac_shutoff(self.state()),
    {
        match self.state {
            PoState::CheckIdle => Shutoff::MachineShutoff,
            PoState::CheckSecondaryShutoff => Shutoff::MachineRunning,
            PoState::CheckPrimaryShutoff => Shutoff::MachineShutoff,
            PoState::Error => Shutoff::MachineShutoff,
            PoState::DoneOk => Shutoff::MachineRunning,
        }
    }

    /// The verdict for the secondary (relay) path.
    pub fn get_secondary_shutoff(&self) -> (r: Shutoff)
        ensures
            r == po_secondary_shutoff(self.state()),
    {
        match self.state {
            PoState::CheckIdle => Shutoff::MachineShutoff,
            PoState::CheckSecondaryShutoff => Shutoff::MachineShutoff,
            PoState::CheckPrimaryShutoff => Shutoff::MachineRunning,
            PoState::Error => Shutoff::MachineShutoff,
            PoState::DoneOk => Shutoff::MachineRunning,
        }
    }
}

/// What a tick at `now` with the speed reading `speed` makes of the state
/// `old`.
pub open spec fn po_ran(old: PoCheck, new: PoCheck, now: int, speed: Option<MotorSpeed>) -> bool {
    if po_final(old.state()) {
        &&& new.state() == old.state()
        &&& new.part() == old.part()
        &&& new.next_transition() == old.next_transition()
    } else {
        let transition = stamp_ge(now, old.next_transition()@, 0x1_0000);
        let checking = old.part() == PoStatePart::Check;
        &&& new.part() == if transition {
            if checking {
                PoStatePart::Pre
            } else {
                PoStatePart::Check
            }
        } else {
            old.part()
        }
        &&& new.next_transition()@ == if transition {
            (now + if checking {
                DUR_PRE_TICKS
            } else {
                DUR_CHECK_TICKS
            }) % 0x1_0000
        } else {
            old.next_transition()@
        }
        &&& new.state() == if checking && po_moving(speed) {
            PoState::Error
        } else if checking && transition {
            po_next(old.state())
        } else {
            old.state()
        }
    }
}

/// The verdict for the primary path in each stage: running while only the
/// secondary path is tested and after the test has passed.
pub open spec fn po_triac_shutoff(s: PoState) -> Shutoff {
    if s == PoState::CheckSecondaryShutoff || s == PoState::DoneOk {
        Shutoff::MachineRunning
    } else {
        Shutoff::MachineShutoff
    }
}

/// The verdict for the secondary path in each stage: running while only
/// the primary path is tested and after the test has passed.
pub open spec fn po_secondary_shutoff(s: PoState) -> Shutoff {
    if s == PoState::CheckPrimaryShutoff || s == PoState::DoneOk {
        Shutoff::MachineRunning
    } else {
        Shutoff::MachineShutoff
    }
}

/// Until the test has passed, at least one of the two paths is switched
/// off, and after an error both are.
pub proof fn lemma_po_paths(s: PoState)
    ensures
        s != PoState::DoneOk ==> po_triac_shutoff(s) == Shutoff::MachineShutoff
            || po_secondary_shutoff(s) == Shutoff::MachineShutoff,
        s == PoState::Error ==> po_triac_shutoff(s) == Shutoff::MachineShutoff
            && po_secondary_shutoff(s) == Shutoff::MachineShutoff,
{
}

} // verus!
