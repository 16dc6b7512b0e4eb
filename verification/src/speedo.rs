//! The tachometer: motor speed from the time between captured edges.

use vstd::prelude::*;
use crate::fixpt::Fixpt;
use crate::fixpt::q_div;
use crate::int24::Int24;
use crate::q7p8::q7p8_from_fraction;
use crate::wrap::wrap_signed;
use crate::timer::LargeTimestamp;
use crate::timer::RelLargeTimestamp;
use crate::timer::stamp_ge;

verus! {

/// Number of edge durations that must have been measured in a row before
/// a speed is reported.
pub const OK_THRES: u8 = 4;

/// The longest period, in ticks, that the speed conversion distinguishes.
pub const PERIOD_DUR_MAX: i16 = 1023;

/// Numerator of the speed conversion: a million microseconds over the tick
/// length and over half of the four edges per revolution.
pub const SPEED_NUM: i16 = 31250;

/// A motor speed in units of 16 revolutions per second.
#[derive(Copy, Clone, Debug)]
pub struct MotorSpeed(pub Fixpt);

impl View for MotorSpeed {
    type V = int;

    /// The raw Q8.8 value of the speed in 16 Hz units.
    open spec fn view(&self) -> int {
        self.0@
    }
}

/// The period `dur` limited to the range the conversion works on.
pub open spec fn period_clamped(dur: int) -> int {
    if dur > PERIOD_DUR_MAX {
        PERIOD_DUR_MAX as int
    } else if dur < 1 {
        1
    } else {
        dur
    }
}

/// The raw speed for an edge period of `dur` ticks.
pub open spec fn speed_of_period(dur: int) -> int {
    q_div(SPEED_NUM as int, period_clamped(dur) * 32)
}

impl MotorSpeed {
    pub fn as_16hz(&self) -> (r: Fixpt)
        ensures
            r@ == self@,
    {
        self.0
    }

    pub fn from_16hz(value: Fixpt) -> (r: Self)
        ensures
            r@ == value@,
    {
        MotorSpeed(value)
    }

    /// The speed at which two edges are `dur` ticks apart.
    pub fn from_period_dur(dur: RelLargeTimestamp) -> (r: Self)
        ensures
            r@ == speed_of_period(dur@),
    {
        let d: i16 = dur.ticks();
        let d: i16 = if d > PERIOD_DUR_MAX {
            PERIOD_DUR_MAX
        } else {
            d
        };
        let d: i16 = if d < 1 {
            1
        } else {
            d
        };
        let denom: i16 = d * 32;
        Self::from_16hz(q7p8_from_fraction(SPEED_NUM, denom))
    }
}

/// What the tachometer has seen.
pub struct SpeedoView {
    /// Durations measured in a row, saturating at 255.
    pub ok_count: int,
    /// The instant of the last edge.
    pub prev_stamp: int,
    /// The last four durations in ticks, oldest first.
    pub dur: Seq<int>,
}

/// The state after an edge captured at `ac`. An edge that is not before
/// the last one adds its distance to the window and counts; one that is
/// before it, as after a wrap of the time base, drops the count.
pub open spec fn speedo_edge(v: SpeedoView, ac: int) -> SpeedoView {
    if stamp_ge(ac, v.prev_stamp, 0x1_0000) {
        SpeedoView {
            ok_count: if v.ok_count >= 0xFF {
                0xFF
            } else {
                v.ok_count + 1
            },
            prev_stamp: ac,
            dur: v.dur.drop_first().push(wrap_signed(ac - v.prev_stamp, 0x1_0000)),
        }
    } else {
        SpeedoView { ok_count: 0, prev_stamp: ac, dur: v.dur }
    }
}

/// The state after the first `n` of the edges, fed one by one.
pub open spec fn speedo_feed(v: SpeedoView, edges: Seq<LargeTimestamp>, n: int) -> SpeedoView
    decreases n,
{
    if n <= 0 {
        v
    } else {
        speedo_edge(speedo_feed(v, edges, n - 1), edges[n - 1]@)
    }
}

/// The state at `now` before any edge is fed: the count is dropped if the
/// time base has wrapped past the last edge.
pub open spec fn speedo_stale(v: SpeedoView, now: int) -> SpeedoView {
    if stamp_ge(now, v.prev_stamp, 0x1_0000) {
        v
    } else {
        SpeedoView { ok_count: 0, ..v }
    }
}

/// The mean of the four durations, rounded down.
pub open spec fn speedo_mean(dur: Seq<int>) -> int {
    (dur[0] + dur[1] + dur[2] + dur[3]) / 4
}

/// The speed that a state reports: none below the confidence threshold.
pub open spec fn speedo_speed(v: SpeedoView) -> Option<int> {
    if v.ok_count >= OK_THRES {
        Some(speed_of_period(speedo_mean(v.dur)))
    } else {
        None
    }
}

/// The tachometer state.
pub struct Speedo {
    ok_count: u8,
    prev_stamp: LargeTimestamp,
    dur: [i16; 4],
}

impl View for Speedo {
    type V = SpeedoView;

    closed spec fn view(&self) -> SpeedoView {
        SpeedoView {
            ok_count: self.ok_count as int,
            prev_stamp: self.prev_stamp@,
            dur: Seq::new(4, |i: int| self.dur@[i] as int),
        }
    }
}

impl Speedo {
    pub fn new() -> (r: Self)
        ensures
            r@.ok_count == 0,
            r@.prev_stamp == 0,
            r@.dur =~= seq![0int, 0, 0, 0],
    {
        Speedo { ok_count: 0, prev_stamp: LargeTimestamp::new(), dur: [0, 0, 0, 0] }
    }

    /// The speed of the mean duration, once enough durations are in.
    fn get_speed(&self) -> (r: Option<MotorSpeed>)
        ensures
            r.is_some() == speedo_speed(self@).is_some(),
            r.is_some() ==> r.unwrap()@ == speedo_speed(self@).unwrap(),
    {
        if self.ok_count >= OK_THRES {
            Some(MotorSpeed::from_period_dur(self.get_dur()))
        } else {
            None
        }
    }

    /// The mean of the four durations.
    fn get_dur(&self) -> (r: RelLargeTimestamp)
        ensures
            r@ == speedo_mean(self@.dur),
    {
        let a = Int24::from_i16(self.dur[0]);
        let b = Int24::from_i16(self.dur[1]);
        let c = Int24::from_i16(self.dur[2]);
        let d = Int24::from_i16(self.dur[3]);
        proof {
            vstd::arithmetic::power2::lemma2_to64();
        }
        let mean = a.add(b).add(c).add(d).shr(2).to_i16();
        RelLargeTimestamp::from_ticks(mean)
    }

    /// Takes a duration into the window.
    fn new_duration(&mut self, dur: RelLargeTimestamp)
        ensures
            final(self)@.dur =~= old(self)@.dur.drop_first().push(dur@),
            final(self)@.prev_stamp == old(self)@.prev_stamp,
            final(self)@.ok_count == if old(self)@.ok_count >= 0xFF {
                0xFF
            } else {
                old(self)@.ok_count + 1
            },
    {
        self.dur[0] = self.dur[1];
        self.dur[1] = self.dur[2];
        self.dur[2] = self.dur[3];
        self.dur[3] = dur.ticks();
        self.ok_count = if self.ok_count == 0xFF {
            0xFF
        } else {
            self.ok_count + 1
        };
    }

    /// Takes in one captured edge.
    fn new_edge(&mut self, ac: LargeTimestamp)
        ensures
            final(self)@ == speedo_edge(old(self)@, ac@),
    {
        let prev_stamp = self.prev_stamp;
        if ac >= prev_stamp {
            let dur = ac.sub(prev_stamp);
            self.new_duration(dur);
        } else {
            self.ok_count = 0;
        }
        self.prev_stamp = ac;
        assert(self@.dur =~= speedo_edge(old(self)@, ac@).dur);
    }

    /// One tick at the instant `now`, with the edges captured since the
    /// last tick, oldest first. Returns the speed, if there is confidence
    /// in it.
    pub fn run(&mut self, now: LargeTimestamp, edges: &[LargeTimestamp]) -> (r: Option<MotorSpeed>)
        ensures
            final(self)@ == speedo_feed(
                speedo_stale(old(self)@, now@),
                edges@,
                edges@.len() as int,
            ),
            r.is_some() == speedo_speed(final(self)@).is_some(),
            r.is_some() ==> r.unwrap()@ == speedo_speed(final(self)@).unwrap(),
            r.is_some() == (final(self)@.ok_count >= OK_THRES),
    {
        if now < self.prev_stamp {
            self.ok_count = 0;
        }
        assert(self@.dur =~= old(self)@.dur);
        let ghost start = self@;
        let mut i: usize = 0;
        while i < edges.len()
            invariant
                i <= edges@.len(),
                self@ == speedo_feed(start, edges@, i as int),
            decreases edges@.len() - i,
        {
            self.new_edge(edges[i]);
            i = i + 1;
        }
        self.get_speed()
    }

    /// The confidence counter.
    pub fn ok_count(&self) -> (r: u8)
        ensures
            r == self@.ok_count,
    {
        self.ok_count
    }
}

/// Each edge raises the confidence counter by at most one.
pub proof fn lemma_speedo_feed_count(v: SpeedoView, edges: Seq<LargeTimestamp>, n: int)
    requires
        0 <= n <= edges.len(),
        0 <= v.ok_count,
    ensures
        0 <= speedo_feed(v, edges, n).ok_count <= v.ok_count + n,
    decreases n,
{
    if n > 0 {
        lemma_speedo_feed_count(v, edges, n - 1);
    }
}

/// No speed is reported before four edges have been confirmed: a
/// tachometer without confidence that is fed fewer than four edges reports
/// nothing.
pub proof fn lemma_speedo_needs_four_edges(v: SpeedoView, edges: Seq<LargeTimestamp>, n: int)
    requires
        0 <= n <= edges.len(),
        v.ok_count == 0,
        n < OK_THRES,
    ensures
        speedo_speed(speedo_feed(v, edges, n)).is_none(),
{
    lemma_speedo_feed_count(v, edges, n);
}

} // verus!
