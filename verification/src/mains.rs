//! Synchronisation to the mains: zero-crossing detection and the current
//! half-wave with its reference instant.

use vstd::prelude::*;
use crate::context::IrqCtx;
use crate::timer::LargeTimestamp;
use crate::timer::RelLargeTimestamp;
use crate::timer::stamp_ge;
use crate::wrap::wrap_signed;

verus! {

/// Mains period (50 Hz) in ticks.
pub const MAINS_PERIOD_TICKS: i16 = 1250;

/// Length of a mains half-wave in ticks.
pub const MAINS_HALFWAVE_TICKS: i16 = 625;

/// Length of a mains quarter-wave in ticks.
pub const MAINS_QUARTERWAVE_TICKS: i16 = 312;

/// Raw Q8.8 value of the length of a mains half-wave in milliseconds.
pub const MAINS_HALFWAVE_DUR_MS_Q: i16 = 2560;

/// Length of a mains half-wave.
pub fn mains_halfwave_dur() -> (r: RelLargeTimestamp)
    ensures
        r@ == MAINS_HALFWAVE_TICKS,
{
    RelLargeTimestamp::from_ticks(MAINS_HALFWAVE_TICKS)
}

/// Length of a mains quarter-wave.
pub fn mains_quarterwave_dur() -> (r: RelLargeTimestamp)
    ensures
        r@ == MAINS_QUARTERWAVE_TICKS,
{
    RelLargeTimestamp::from_ticks(MAINS_QUARTERWAVE_TICKS)
}

/// The half-wave the mains is in.
#[derive(Copy, Clone, Debug, PartialEq, Eq, Structural)]
pub enum Phase {
    Notsync,
    NegHalfwave,
    PosHalfwave,
}

/// Whether a tick has entered a new half-wave.
#[derive(Copy, Clone, Debug, PartialEq, Eq, Structural)]
pub enum PhaseUpdate {
    NotChanged,
    Changed,
}

/// The debounced level of the mains sense pin and the instant it was taken.
/// The edge interrupt writes it; the main loop reads it.
#[derive(Copy, Clone, Debug, PartialEq, Eq, Structural)]
pub struct VsenseCapture {
    pub vsense: bool,
    pub stamp: LargeTimestamp,
}

impl VsenseCapture {
    pub fn new() -> (r: Self)
        ensures
            !r.vsense,
            r.stamp@ == 0,
    {
        VsenseCapture { vsense: false, stamp: LargeTimestamp::new() }
    }
}

/// The pin change interrupt of the mains sense pin. A new level is taken over, with
/// `now` as its instant, only if it differs from the stored level and the
/// stored instant lies at least a quarter-wave back.
pub fn irq_handler_pcint(
    c: &IrqCtx,
    capture: &mut VsenseCapture,
    now: LargeTimestamp,
    vsense: bool,
)
    ensures
        *final(capture) == if vsense != old(capture).vsense && stamp_ge(
            now@,
            (old(capture).stamp@ + MAINS_QUARTERWAVE_TICKS) % 0x1_0000,
            0x1_0000,
        ) {
            (VsenseCapture { vsense: vsense, stamp: now })
        } else {
            *old(capture)
        },
{
    let prev_vsense = capture.vsense;
    let prev_stamp = capture.stamp;
    let earliest = prev_stamp.add(mains_quarterwave_dur());
    if vsense != prev_vsense && now >= earliest {
        capture.vsense = vsense;
        capture.stamp = now;
    }
}

/// The reference instant advances only at a rise of the debounced sense
/// level or by exactly one half-wave; a tick that does neither leaves it.
pub proof fn lemma_mains_reference(m: Mains, vsense: bool, vsense_stamp: int, now: int)
    ensures
        m.update(vsense, now) == PhaseUpdate::NotChanged ==> m.next_ref(vsense, vsense_stamp, now)
            == m.phaseref()@ && m.next_phase(vsense, now) == m.phase(),
        m.update(vsense, now) == PhaseUpdate::Changed ==> m.next_ref(vsense, vsense_stamp, now)
            == vsense_stamp || m.next_ref(vsense, vsense_stamp, now) == (m.phaseref()@
            + MAINS_HALFWAVE_TICKS) % 0x1_0000,
        m.next_phase(vsense, now) == Phase::Notsync ==> m.phase() == Phase::Notsync,
{
}

/// The mains phase tracker.
pub struct Mains {
    prev_vsense: bool,
    phase: Phase,
    phaseref: LargeTimestamp,
}

/// The instant at which the positive half-wave that began at `phaseref`
/// ends.
pub open spec fn next_phaseref(phaseref: int) -> int {
    (phaseref + MAINS_HALFWAVE_TICKS) % 0x1_0000
}

impl Mains {
    /// The sense level seen by the last tick.
    pub closed spec fn prev_vsense(&self) -> bool {
        self.prev_vsense
    }

    /// The current half-wave.
    pub closed spec fn phase(&self) -> Phase {
        self.phase
    }

    /// The instant of the last zero-crossing.
    pub closed spec fn phaseref(&self) -> LargeTimestamp {
        self.phaseref
    }

    /// Whether a tick with the sense level `vsense` starts a positive
    /// half-wave: outside one, the level has risen since the last tick.
    pub open spec fn rises(&self, vsense: bool) -> bool {
        self.phase() != Phase::PosHalfwave && !self.prev_vsense() && vsense
    }

    /// Whether a tick at `now` ends the positive half-wave: `now` has
    /// reached the reference plus the half-wave length.
    pub open spec fn falls(&self, now: int) -> bool {
        self.phase() == Phase::PosHalfwave && stamp_ge(
            now,
            next_phaseref(self.phaseref()@),
            0x1_0000,
        )
    }

    /// The half-wave after a tick.
    pub open spec fn next_phase(&self, vsense: bool, now: int) -> Phase {
        if self.rises(vsense) {
            Phase::PosHalfwave
        } else if self.falls(now) {
            Phase::NegHalfwave
        } else {
            self.phase()
        }
    }

    /// The reference instant after a tick: the instant of the sense level
    /// at a rise, exactly one half-wave later at the end of a positive
    /// half-wave, and unchanged otherwise.
    pub open spec fn next_ref(&self, vsense: bool, vsense_stamp: int, now: int) -> int {
        if self.rises(vsense) {
            vsense_stamp
        } else if self.falls(now) {
            next_phaseref(self.phaseref()@)
        } else {
            self.phaseref()@
        }
    }

    /// Whether a tick enters a new half-wave.
    pub open spec fn update(&self, vsense: bool, now: int) -> PhaseUpdate {
        if self.rises(vsense) || self.falls(now) {
            PhaseUpdate::Changed
        } else {
            PhaseUpdate::NotChanged
        }
    }

    pub fn new() -> (r: Self)
        ensures
            !r.prev_vsense(),
            r.phase() == Phase::Notsync,
            r.phaseref()@ == 0,
    {
        Mains { prev_vsense: false, phase: Phase::Notsync, phaseref: LargeTimestamp::new() }
    }

    /// Evaluates the debounced sense level `vsense`, taken at
    /// `vsense_stamp`, at the instant `now`.
    ///
    /// Outside a positive half-wave, a rise of the sense level starts one,
    /// with the level's instant as reference. A positive half-wave ends
    /// when `now` has reached its reference plus the half-wave length; the
    /// reference advances by exactly that length.
    pub fn run(&mut self, vsense: bool, vsense_stamp: LargeTimestamp, now: LargeTimestamp) -> (r:
        PhaseUpdate)
        ensures
            final(self).prev_vsense() == vsense,
            final(self).phase() == old(self).next_phase(vsense, now@),
            final(self).phaseref()@ == old(self).next_ref(vsense, vsense_stamp@, now@),
            r == old(self).update(vsense, now@),
    {
        let mut ret = PhaseUpdate::NotChanged;
        match self.phase {
            Phase::Notsync | Phase::NegHalfwave => {
                if !self.prev_vsense && vsense {
                    self.phaseref = vsense_stamp;
                    self.phase = Phase::PosHalfwave;
                    ret = PhaseUpdate::Changed;
                }
            },
            Phase::PosHalfwave => {
                let nextref = self.phaseref.add(mains_halfwave_dur());
                if now >= nextref {
                    self.phaseref = nextref;
                    self.phase = Phase::NegHalfwave;
                    ret = PhaseUpdate::Changed;
                }
            },
        }
        self.prev_vsense = vsense;
        ret
    }

    pub fn get_phase(&self) -> (r: Phase)
        ensures
            r == self.phase(),
    {
        self.phase
    }

    pub fn get_phaseref(&self) -> (r: LargeTimestamp)
        ensures
            r == self.phaseref(),
    {
        self.phaseref
    }

    /// The wrapped time from the last zero-crossing to `now`; nothing while
    /// not synchronised.
    pub fn get_time_since_zerocrossing(&self, now: LargeTimestamp) -> (r: Option<
        RelLargeTimestamp,
    >)
        ensures
            (self.phase() == Phase::Notsync) == r.is_none(),
            r.is_some() ==> r.unwrap()@ == wrap_signed(now@ - self.phaseref()@, 0x1_0000),
    {
        if self.phase == Phase::Notsync {
            None
        } else {
            Some(now.sub(self.phaseref))
        }
    }
}

} // verus!
