//! The analog front end: the round-robin converter and the capture of
//! tachometer edges by the comparator.

use vstd::prelude::*;
use crate::context::CriticalSection;
use crate::context::IrqCtx;
use crate::timer::LargeTimestamp;
use crate::timer::RelLargeTimestamp;
use crate::timer::stamp_ge;

verus! {

/// Number of converter channels.
pub const ADC_CHANNELS: usize = 5;

/// The largest code of the 10-bit converter.
pub const ADC_CODE_MAX: u16 = 0x3FF;

/// Distance in ticks from the last taken edge below which a comparator
/// edge is ignored (100 microseconds).
pub const AC_CAPTURE_MINDIST_TICKS: i16 = 6;

/// A channel of the converter.
#[derive(Copy, Clone, Debug, PartialEq, Eq, Structural)]
pub enum AdcChannel {
    Setpoint,
    ShuntDiff,
    ShuntHi,
    MotTemp,
    UcTemp,
}

/// The position of a channel in the round.
pub open spec fn chan_index(chan: AdcChannel) -> int {
    match chan {
        AdcChannel::Setpoint => 0,
        AdcChannel::ShuntDiff => 1,
        AdcChannel::ShuntHi => 2,
        AdcChannel::MotTemp => 3,
        AdcChannel::UcTemp => 4,
    }
}

/// The bit of a channel in a channel mask.
pub open spec fn chan_mask(chan: AdcChannel) -> u8 {
    match chan {
        AdcChannel::Setpoint => 0x01,
        AdcChannel::ShuntDiff => 0x02,
        AdcChannel::ShuntHi => 0x04,
        AdcChannel::MotTemp => 0x08,
        AdcChannel::UcTemp => 0x10,
    }
}

/// The channel that follows in the round.
pub open spec fn chan_next(chan: AdcChannel) -> AdcChannel {
    match chan {
        AdcChannel::Setpoint => AdcChannel::ShuntDiff,
        AdcChannel::ShuntDiff => AdcChannel::ShuntHi,
        AdcChannel::ShuntHi => AdcChannel::MotTemp,
        AdcChannel::MotTemp => AdcChannel::UcTemp,
        AdcChannel::UcTemp => AdcChannel::Setpoint,
    }
}

/// Whether the mask holds the bit of the channel.
pub open spec fn mask_has(mask: u8, chan: AdcChannel) -> bool {
    mask & chan_mask(chan) != 0
}

impl AdcChannel {
    pub fn mask(&self) -> (r: u8)
        ensures
            r == chan_mask(*self),
    {
        match self {
            AdcChannel::Setpoint => 0x01,
            AdcChannel::ShuntDiff => 0x02,
            AdcChannel::ShuntHi => 0x04,
            AdcChannel::MotTemp => 0x08,
            AdcChannel::UcTemp => 0x10,
        }
    }

    pub fn select_next(&self) -> (r: AdcChannel)
        ensures
            r == chan_next(*self),
    {
        match self {
            AdcChannel::Setpoint => AdcChannel::ShuntDiff,
            AdcChannel::ShuntDiff => AdcChannel::ShuntHi,
            AdcChannel::ShuntHi => AdcChannel::MotTemp,
            AdcChannel::MotTemp => AdcChannel::UcTemp,
            AdcChannel::UcTemp => AdcChannel::Setpoint,
        }
    }

    /// The position of the channel in the round.
    pub fn index(&self) -> (r: usize)
        ensures
            r == chan_index(*self),
            r < ADC_CHANNELS,
    {
        match self {
            AdcChannel::Setpoint => 0,
            AdcChannel::ShuntDiff => 1,
            AdcChannel::ShuntHi => 2,
            AdcChannel::MotTemp => 3,
            AdcChannel::UcTemp => 4,
        }
    }
}

/// What the converter logic asks of the hardware, in this order: switch the
/// input to a channel, start a conversion.
#[derive(Copy, Clone, Debug, PartialEq, Eq, Structural)]
pub struct AdcAction {
    pub update_mux: Option<AdcChannel>,
    pub start_conversion: bool,
}

/// The state of the converter logic.
pub struct AdcView {
    /// The channel in work.
    pub chan: AdcChannel,
    /// Whether the input has settled since it was switched: the first
    /// conversion after a switch is thrown away.
    pub settled: bool,
    /// The mask of the channels that take part in the round.
    pub enabled: u8,
    /// Whether a conversion is under way.
    pub running: bool,
    /// The last result of each channel.
    pub result: Seq<u16>,
    /// The mask of the channels that have a result.
    pub ok: u8,
}

/// The state after the first stage of a cycle: a channel that is not
/// enabled loses its result and is passed over.
pub open spec fn adc_skip(v: AdcView) -> AdcView {
    if !mask_has(v.enabled, v.chan) {
        AdcView { ok: v.ok & !chan_mask(v.chan), chan: chan_next(v.chan), running: false, ..v }
    } else {
        v
    }
}

/// Whether the second stage of a cycle has a finished conversion to deal
/// with.
pub open spec fn adc_finished(v: AdcView, done: bool) -> bool {
    mask_has(v.enabled, v.chan) && v.running && done
}

/// The state after the second stage of a cycle: a finished conversion is
/// stored if the input had settled, and repeated if not.
pub open spec fn adc_store(v: AdcView, done: bool, value: u16) -> AdcView {
    if adc_finished(v, done) {
        if v.settled {
            AdcView {
                result: v.result.update(chan_index(v.chan), value),
                ok: v.ok | chan_mask(v.chan),
                chan: chan_next(v.chan),
                running: false,
                ..v
            }
        } else {
            AdcView { settled: true, ..v }
        }
    } else {
        v
    }
}

/// Whether the third stage of a cycle starts on a channel.
pub open spec fn adc_starts(v: AdcView) -> bool {
    mask_has(v.enabled, v.chan) && !v.running
}

/// The state after the third stage of a cycle: an enabled channel with no
/// conversion under way is switched to and started.
pub open spec fn adc_start(v: AdcView) -> AdcView {
    if adc_starts(v) {
        AdcView { settled: false, running: true, ..v }
    } else {
        v
    }
}

/// The state after a whole cycle.
pub open spec fn adc_cycle(v: AdcView, done: bool, value: u16) -> AdcView {
    adc_start(adc_store(adc_skip(v), done, value))
}

/// The last result of a channel in a state; nothing until the channel's
/// first conversion has been stored.
pub open spec fn adc_result(v: AdcView, chan: AdcChannel) -> Option<u16> {
    if mask_has(v.ok, chan) {
        Some(v.result[chan_index(chan)])
    } else {
        None
    }
}

/// The converter logic.
pub struct Adc {
    chan: AdcChannel,
    settled: bool,
    enabled: u8,
    running: bool,
    result: [u16; 5],
    ok: u8,
}

impl View for Adc {
    type V = AdcView;

    closed spec fn view(&self) -> AdcView {
        AdcView {
            chan: self.chan,
            settled: self.settled,
            enabled: self.enabled,
            running: self.running,
            result: self.result@,
            ok: self.ok,
        }
    }
}

/// Whether the state holds a result of at most ten bits for every channel.
pub open spec fn adc_wf(v: AdcView) -> bool {
    &&& v.result.len() == ADC_CHANNELS
    &&& forall|k: int| 0 <= k < v.result.len() ==> #[trigger] v.result[k] <= ADC_CODE_MAX
}

impl Adc {
    pub fn new() -> (r: Self)
        ensures
            adc_wf(r@),
            r@.chan == AdcChannel::Setpoint,
            !r@.settled,
            r@.enabled == 0,
            !r@.running,
            r@.ok == 0,
            r@.result =~= Seq::new(ADC_CHANNELS as nat, |k: int| 0u16),
    {
        Adc {
            chan: AdcChannel::Setpoint,
            settled: false,
            enabled: 0,
            running: false,
            result: [0, 0, 0, 0, 0],
            ok: 0,
        }
    }

    /// Switches the input to the channel in work.
    fn update_mux(&mut self) -> (r: AdcChannel)
        ensures
            final(self)@ == (AdcView { settled: false, ..old(self)@ }),
            r == old(self)@.chan,
    {
        self.settled = false;
        self.chan
    }

    /// Prepares the first conversion after power-on. The caller switches
    /// the input, starts the conversion and waits for its end.
    pub fn init(&mut self) -> (r: AdcAction)
        ensures
            final(self)@ == (AdcView { settled: false, ..old(self)@ }),
            r == (AdcAction { update_mux: Some(old(self)@.chan), start_conversion: true }),
    {
        let chan = self.update_mux();
        AdcAction { update_mux: Some(chan), start_conversion: true }
    }

    /// One cycle of the round. `conversion_done` says whether the hardware
    /// has finished a conversion, and `value` is its result.
    pub fn run(&mut self, conversion_done: bool, value: u16) -> (r: AdcAction)
        requires
            adc_wf(old(self)@),
            value <= ADC_CODE_MAX,
        ensures
            final(self)@ == adc_cycle(old(self)@, conversion_done, value),
            adc_wf(final(self)@),
            r.update_mux == if adc_starts(adc_store(adc_skip(old(self)@), conversion_done, value)) {
                Some(final(self)@.chan)
            } else {
                None
            },
            r.start_conversion == (r.update_mux.is_some() || (adc_finished(
                adc_skip(old(self)@),
                conversion_done,
            ) && !adc_skip(old(self)@).settled)),
    {
        let mut action = AdcAction { update_mux: None, start_conversion: false };
        let mut chan = self.chan;
        if !self.is_enabled(chan) {
            self.set_ok(chan, false);
            chan = self.select_next_chan();
            self.set_running(false);
        }
        if self.is_enabled(chan) && self.is_running() && conversion_done {
            if self.is_settled() {
                self.result[chan.index()] = value;
                self.set_ok(chan, true);
                chan = self.select_next_chan();
                self.set_running(false);
            } else {
                self.set_settled(true);
                action.start_conversion = true;
            }
        }
        if self.is_enabled(chan) && !self.is_running() {
            let mux = self.update_mux();
            action.update_mux = Some(mux);
            action.start_conversion = true;
            self.set_running(true);
        }
        action
    }

    fn select_next_chan(&mut self) -> (r: AdcChannel)
        ensures
            final(self)@ == (AdcView { chan: chan_next(old(self)@.chan), ..old(self)@ }),
            r == final(self)@.chan,
    {
        let next = self.chan.select_next();
        self.chan = next;
        next
    }

    fn is_running(&self) -> (r: bool)
        ensures
            r == self@.running,
    {
        self.running
    }

    fn set_running(&mut self, running: bool)
        ensures
            final(self)@ == (AdcView { running: running, ..old(self)@ }),
    {
        self.running = running;
    }

    fn is_settled(&self) -> (r: bool)
        ensures
            r == self@.settled,
    {
        self.settled
    }

    fn set_settled(&mut self, settled: bool)
        ensures
            final(self)@ == (AdcView { settled: settled, ..old(self)@ }),
    {
        self.settled = settled;
    }

    fn is_enabled(&self, chan: AdcChannel) -> (r: bool)
        ensures
            r == mask_has(self@.enabled, chan),
    {
        self.enabled & chan.mask() != 0
    }

    /// Sets the mask of the channels that take part in the round.
    pub fn enable(&mut self, chan_mask: u8)
        ensures
            final(self)@ == (AdcView { enabled: chan_mask, ..old(self)@ }),
    {
        self.enabled = chan_mask;
    }

    fn set_ok(&mut self, chan: AdcChannel, ok: bool)
        ensures
            final(self)@ == (AdcView {
                ok: if ok {
                    old(self)@.ok | chan_mask(chan)
                } else {
                    old(self)@.ok & !chan_mask(chan)
                },
                ..old(self)@
            }),
    {
        if ok {
            self.ok = self.ok | chan.mask();
        } else {
            self.ok = self.ok & !chan.mask();
        }
    }

    /// The last result of a channel; nothing until the channel's first
    /// conversion has been stored.
    pub fn get_result(&self, chan: AdcChannel) -> (r: Option<u16>)
        requires
            adc_wf(self@),
        ensures
            r == adc_result(self@, chan),
            r.is_some() ==> r.unwrap() <= ADC_CODE_MAX,
    {
        if self.ok & chan.mask() == 0 {
            None
        } else {
            Some(self.result[chan.index()])
        }
    }
}

/// A channel has no result before one is stored, has one right after it is
/// stored, and keeps or loses it independently of the other channels.
pub proof fn lemma_adc_ok_bits(ok: u8, chan: AdcChannel, other: AdcChannel)
    ensures
        !mask_has(0, chan),
        mask_has(ok | chan_mask(chan), chan),
        !mask_has(ok & !chan_mask(chan), chan),
        other != chan ==> mask_has(ok | chan_mask(chan), other) == mask_has(ok, other),
        other != chan ==> mask_has(ok & !chan_mask(chan), other) == mask_has(ok, other),
{
    let m = chan_mask(chan);
    let o = chan_mask(other);
    assert(0u8 & m == 0) by (bit_vector);
    assert((ok | m) & m == m) by (bit_vector);
    assert((ok & !m) & m == 0) by (bit_vector);
    if other != chan {
        assert(m & o == 0) by (bit_vector)
            requires
                m == 1 || m == 2 || m == 4 || m == 8 || m == 16,
                o == 1 || o == 2 || o == 4 || o == 8 || o == 16,
                m != o,
        ;
        assert((ok | m) & o == ok & o) by (bit_vector)
            requires
                m & o == 0,
        ;
        assert((ok & !m) & o == ok & o) by (bit_vector)
            requires
                m & o == 0,
        ;
    }
}

/// The last tachometer edge that the comparator interrupt has taken, and
/// whether the main loop has yet to fetch it.
#[derive(Copy, Clone, Debug)]
pub struct AcCapture {
    stamp: LargeTimestamp,
    new: bool,
}

impl AcCapture {
    /// Whether the edge has not been fetched.
    pub closed spec fn spec_is_new(&self) -> bool {
        self.new
    }

    /// The instant of the edge.
    pub closed spec fn spec_stamp(&self) -> LargeTimestamp {
        self.stamp
    }

    pub fn new() -> (r: Self)
        ensures
            !r.spec_is_new(),
            r.spec_stamp()@ == 0,
    {
        AcCapture { stamp: LargeTimestamp::new(), new: false }
    }

    pub fn is_new(&self) -> (r: bool)
        ensures
            r == self.spec_is_new(),
    {
        self.new
    }

    pub fn stamp(&self) -> (r: LargeTimestamp)
        ensures
            r == self.spec_stamp(),
    {
        self.stamp
    }

    /// Hands out the capture and marks it as fetched.
    pub fn clone_and_reset(&mut self) -> (r: Self)
        ensures
            r == *old(self),
            !final(self).spec_is_new(),
            final(self).spec_stamp() == old(self).spec_stamp(),
    {
        let ret = *self;
        self.new = false;
        ret
    }
}

/// The comparator interrupt at the instant `now`: the edge is taken unless
/// it comes too close after the last taken one.
pub fn irq_handler_ana_comp(c: &IrqCtx, capture: &mut AcCapture, now: LargeTimestamp)
    ensures
        stamp_ge(
            now@,
            (old(capture).spec_stamp()@ + AC_CAPTURE_MINDIST_TICKS) % 0x1_0000,
            0x1_0000,
        ) ==> final(capture).spec_is_new() && final(capture).spec_stamp() == now,
        !stamp_ge(
            now@,
            (old(capture).spec_stamp()@ + AC_CAPTURE_MINDIST_TICKS) % 0x1_0000,
            0x1_0000,
        ) ==> *final(capture) == *old(capture),
{
    let earliest = capture.stamp.add(RelLargeTimestamp::from_ticks(AC_CAPTURE_MINDIST_TICKS));
    if now >= earliest {
        capture.stamp = now;
        capture.new = true;
    }
}

/// Fetches the capture for the main loop, inside a critical section. The result is the edge's instant
/// if the edge had not been fetched before.
pub fn ac_capture_get(cs: &CriticalSection, capture: &mut AcCapture) -> (r: Option<
    LargeTimestamp,
>)
    ensures
        r == if old(capture).spec_is_new() {
            Some(old(capture).spec_stamp())
        } else {
            None
        },
        !final(capture).spec_is_new(),
        final(capture).spec_stamp() == old(capture).spec_stamp(),
{
    let c = capture.clone_and_reset();
    if c.is_new() {
        Some(c.stamp())
    } else {
        None
    }
}

} // verus!
