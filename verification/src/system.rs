//! The top-level state machine of the controller.
//!
//! Each tick of the main loop hands the state machine what the hardware
//! has to say, and gets back what the hardware is to do.

use vstd::prelude::*;
use crate::analog::Adc;
use crate::analog::AdcAction;
use crate::analog::AdcChannel;
use crate::analog::AdcView;
use crate::analog::adc_cycle;
use crate::analog::adc_finished;
use crate::analog::adc_result;
use crate::analog::adc_skip;
use crate::analog::adc_starts;
use crate::analog::adc_store;
use crate::analog::adc_wf;
use crate::analog::ADC_CODE_MAX;
use crate::context::MainCtx;
use crate::context::MainInitCtx;
use crate::filter::Filter;
use crate::filter::filter_buf;
use crate::filter::filter_out;
use crate::fixpt::Fixpt;
use crate::fixpt::q_div;
use crate::fixpt::q_mul;
use crate::fixpt::q_sub;
use crate::mains::Mains;
use crate::mains::Phase;
use crate::mains::PhaseUpdate;
use crate::mains::MAINS_HALFWAVE_TICKS;
use crate::mains::MAINS_QUARTERWAVE_TICKS;
use crate::mon::Mon;
use crate::mon::MonInput;
use crate::mon::MonView;
use crate::mon::mon_step;
use crate::mon::mon_verdict;
use crate::pid::Pid;
use crate::pid::PidIlim;
use crate::pid::PidParams;
use crate::pid::pid_integral;
use crate::pid::pid_output;
use crate::pocheck::PoCheck;
use crate::pocheck::PoState;
use crate::pocheck::po_ran;
use crate::pocheck::po_secondary_shutoff;
use crate::pocheck::TRIAC_TRIG_OFFS_ENABLED_MS_Q;
use crate::pocheck::po_triac_shutoff;
use crate::q7p8::curve_increasing;
use crate::q7p8::curve_lin_inter;
use crate::q7p8::curve_steps_divisible;
use crate::q7p8::curve_right;
use crate::q7p8::curve_value;
use crate::wrap::wrap_signed;
use crate::shutoff::Shutoff;
use crate::shutoff::shutoff_or;
use crate::speedo::MotorSpeed;
use crate::speedo::Speedo;
use crate::speedo::speedo_feed;
use crate::speedo::speedo_speed;
use crate::speedo::speedo_stale;
use crate::temp::Temp;
use crate::temp::TempAdc;
use crate::temp::temp_ran;
use crate::timer::LargeTimestamp;
use crate::timer::RelLargeTimestamp;
use crate::timer::stamp_gt;
use crate::triac::Triac;
use crate::triac::TriacAction;
use crate::triac::triac_run_action;
use crate::triac::triac_run_pending;
use crate::units::RPM_1000_Q;
use crate::units::RPM_24000_Q;
use crate::units::RPM_24500_Q;
use crate::units::RPM_800_Q;

verus! {

/// Length in ticks of the delay after power-on (300 ms).
pub const STARTUP_DELAY_TICKS: i16 = 18750;

/// Nominal maximum motor speed in whole 16 Hz units.
pub const MAX_16HZ: i16 = 25;

/// Raw speed above which the triac is kept off.
pub const MOT_SOFT_LIMIT_Q: i16 = RPM_24500_Q;

/// Raw filtered setpoint up to which the controller runs without feedback.
pub const RPM_SYNC_THRES_Q: i16 = RPM_1000_Q;

/// Raw divisor of the speed filter (2).
pub const SPEED_FILTER_DIV_Q: i16 = 512;

/// Raw divisor of the setpoint filter (5).
pub const SETPOINT_FILTER_DIV_Q: i16 = 1280;

/// Raw divisor that scales an eighth of the setpoint code to a speed
/// (128 / 25).
pub const SETPOINT_SCALE_Q: i16 = 1310;

/// The controller gains while the loop is closed: kp 5, ki 1/4, kd 0.
pub fn rpmpi_params() -> (r: PidParams)
    ensures
        r.kp@ == 1280,
        r.ki@ == 64,
        r.kd@ == 0,
{
    PidParams { kp: Fixpt::from_q(1280), ki: Fixpt::from_q(64), kd: Fixpt::from_q(0) }
}

/// The controller gains while the speed is substituted: kp 5, ki 0, kd 0.
pub fn rpmpi_params_syncing() -> (r: PidParams)
    ensures
        r.kp@ == 1280,
        r.ki@ == 0,
        r.kd@ == 0,
{
    PidParams { kp: Fixpt::from_q(1280), ki: Fixpt::from_q(0), kd: Fixpt::from_q(0) }
}

/// Raw speed at which the integral term gets its band: one raw unit above
/// 1000 revolutions per minute, which is about 1004 revolutions per
/// minute. The abscissas of a curve must strictly increase, and 1001
/// revolutions per minute converts to the same raw value as 1000.
pub const ILIM_KNEE_Q: i16 = 267;

/// The negative limit of the integral term over the speed, with knots at
/// the raw speeds 0, 266, 267 and 6400: none up to 1000 revolutions per
/// minute, -2 one raw unit above, and from there down to -6 at the nominal
/// maximum.
pub open spec fn ilim_neg_points() -> Seq<(Fixpt, Fixpt)> {
    seq![
        (Fixpt(0), Fixpt(0)),
        (Fixpt(RPM_1000_Q), Fixpt(0)),
        (Fixpt(ILIM_KNEE_Q), Fixpt(-512i16)),
        (Fixpt(RPM_24000_Q), Fixpt(-1536i16)),
    ]
}

/// The positive limit of the integral term over the speed, with knots at
/// the raw speeds 0, 266, 267 and 6400: none up to 1000 revolutions per
/// minute, 12 one raw unit above, and from there up to 24 at the nominal
/// maximum.
pub open spec fn ilim_pos_points() -> Seq<(Fixpt, Fixpt)> {
    seq![
        (Fixpt(0), Fixpt(0)),
        (Fixpt(RPM_1000_Q), Fixpt(0)),
        (Fixpt(ILIM_KNEE_Q), Fixpt(3072)),
        (Fixpt(RPM_24000_Q), Fixpt(6144)),
    ]
}

/// The speed that stands in for the measured one while the loop is open,
/// over the setpoint: 800 revolutions per minute at a setpoint of 1000.
pub open spec fn sync_substitute_points() -> Seq<(Fixpt, Fixpt)> {
    seq![(Fixpt(0), Fixpt(0)), (Fixpt(RPM_1000_Q), Fixpt(RPM_800_Q))]
}

/// The curve of the negative limit of the integral term.
pub fn ilim_neg_curve() -> (r: [(Fixpt, Fixpt); 4])
    ensures
        r@ =~= ilim_neg_points(),
        curve_increasing(r@),
        curve_steps_divisible(r@),
{
    [
        (Fixpt::from_q(0), Fixpt::from_q(0)),
        (Fixpt::from_q(RPM_1000_Q), Fixpt::from_q(0)),
        (Fixpt::from_q(ILIM_KNEE_Q), Fixpt::from_q(-512)),
        (Fixpt::from_q(RPM_24000_Q), Fixpt::from_q(-1536)),
    ]
}

/// The curve of the positive limit of the integral term.
pub fn ilim_pos_curve() -> (r: [(Fixpt, Fixpt); 4])
    ensures
        r@ =~= ilim_pos_points(),
        curve_increasing(r@),
        curve_steps_divisible(r@),
{
    [
        (Fixpt::from_q(0), Fixpt::from_q(0)),
        (Fixpt::from_q(RPM_1000_Q), Fixpt::from_q(0)),
        (Fixpt::from_q(ILIM_KNEE_Q), Fixpt::from_q(3072)),
        (Fixpt::from_q(RPM_24000_Q), Fixpt::from_q(6144)),
    ]
}

/// The curve of the substitute speed.
pub fn sync_substitute_curve() -> (r: [(Fixpt, Fixpt); 2])
    ensures
        r@ =~= sync_substitute_points(),
        curve_increasing(r@),
        curve_steps_divisible(r@),
{
    [(Fixpt::from_q(0), Fixpt::from_q(0)), (Fixpt::from_q(RPM_1000_Q), Fixpt::from_q(RPM_800_Q))]
}

/// The limits of the integral term enclose zero at every speed: the
/// negative limit is never above zero and the positive limit never below.
pub proof fn lemma_ilim_ordered(speed: int)
    requires
        -0x8000 <= speed <= 0x7FFF,
    ensures
        curve_value(ilim_neg_points(), speed) <= 0,
        curve_value(ilim_pos_points(), speed) >= 0,
        curve_value(ilim_neg_points(), speed) <= curve_value(ilim_pos_points(), speed),
{
    reveal_with_fuel(curve_right, 4);
    let neg = ilim_neg_points();
    let pos = ilim_pos_points();
    assert(neg.len() == 4 && pos.len() == 4);
    assert(neg[0].0@ == 0 && neg[1].0@ == 266 && neg[2].0@ == 267 && neg[3].0@ == 6400);
    assert(neg[0].1@ == 0 && neg[1].1@ == 0 && neg[2].1@ == -512 && neg[3].1@ == -1536);
    assert(pos[0].0@ == 0 && pos[1].0@ == 266 && pos[2].0@ == 267 && pos[3].0@ == 6400);
    assert(pos[0].1@ == 0 && pos[1].1@ == 0 && pos[2].1@ == 3072 && pos[3].1@ == 6144);
    assert(neg.last() == neg[3] && pos.last() == pos[3]);
    if 0 < speed < 266 {
        assert(curve_right(neg, speed, 1) == 1);
        assert(curve_right(pos, speed, 1) == 1);
        assert(q_div(0, 266) == 0);
        assert(q_mul(speed, 0) == 0) by (nonlinear_arith);
    } else if speed == 266 {
        assert(curve_right(neg, speed, 1) == 1);
        assert(curve_right(pos, speed, 1) == 1);
    } else if speed == 267 {
        assert(curve_right(neg, speed, 1) == 2);
        assert(curve_right(pos, speed, 1) == 2);
    } else if 267 < speed < 6400 {
        assert(curve_right(neg, speed, 1) == 3);
        assert(curve_right(pos, speed, 1) == 3);
        let d = speed - 267;
        assert(q_div(-1024, 6133) == -42);
        assert(q_div(3072, 6133) == 128);
        assert(-0x80_0000 <= d * -42 <= 0 && 0 <= d * 128 <= 0x7F_FFFF) by (nonlinear_arith)
            requires
                0 < d < 6133,
        ;
        assert(q_mul(d, -42) <= 0);
        assert(0 <= q_mul(d, 128) <= 3067);
    }
}

/// The raw speed setpoint for a converter code: the code's range of
/// 0 to 1023 stands for 0 to 25 units of 16 Hz.
pub open spec fn setpoint_q(adc: int) -> int {
    q_div(q_div(adc, 8), SETPOINT_SCALE_Q as int)
}

/// Converts the setpoint code to a speed.
pub fn setpoint_to_f(adc: u16) -> (r: Fixpt)
    requires
        adc <= ADC_CODE_MAX,
    ensures
        r@ == setpoint_q(adc as int),
{
    Fixpt::from_fraction(adc as i16, 8).div(Fixpt::from_q(SETPOINT_SCALE_Q))
}

/// `f` limited to the range from zero to the nominal maximum speed.
pub open spec fn speed_clamped(f: int) -> int {
    if f < 0 {
        0
    } else if f > RPM_24000_Q {
        RPM_24000_Q as int
    } else {
        f
    }
}

/// The raw trigger offset in milliseconds for a raw controller output:
/// the full half-wave of ten milliseconds at zero, no offset at the
/// nominal maximum.
pub open spec fn trig_offs_q(f: int) -> int {
    q_div(q_mul(q_sub(RPM_24000_Q as int, speed_clamped(f)), 512), 1280)
}

/// Converts the controller output to a trigger offset in milliseconds.
pub fn f_to_trig_offs(f: Fixpt) -> (r: Fixpt)
    ensures
        r@ == trig_offs_q(f@),
{
    let fmin = Fixpt::from_int(0);
    let fmax = Fixpt::from_int(MAX_16HZ);
    let f = f.max(fmin);
    let f = f.min(fmax);
    fmax.sub(f).mul(Fixpt::from_q(512)).div(Fixpt::from_q(1280))
}

/// The state of the whole system.
#[derive(Copy, Clone, Debug, PartialEq, Eq, Structural)]
pub enum SysState {
    /// The delay after power-on.
    Startup,
    /// The power-on self-test.
    PoCheck,
    /// The loop is open: the speed is not known or the setpoint is low.
    Syncing,
    /// The loop is closed.
    Running,
}

/// What the hardware has to say at a tick.
#[derive(Copy, Clone, Debug)]
pub struct SysInput {
    /// The current instant.
    pub now: LargeTimestamp,
    /// The debounced level of the mains sense pin.
    pub vsense: bool,
    /// The instant at which that level was taken.
    pub vsense_stamp: LargeTimestamp,
    /// Whether the converter has finished a conversion.
    pub adc_done: bool,
    /// The result of the finished conversion.
    pub adc_value: u16,
    /// The number of stack bytes that were never used.
    pub unused_stack_bytes: u16,
    /// Whether the analog pipeline has reported a failure.
    pub analog_failure: bool,
}

/// What the hardware is to do after a tick.
#[derive(Copy, Clone, Debug)]
pub struct SysOutput {
    /// The verdict for the secondary shutoff output.
    pub secondary: Option<Shutoff>,
    /// The commands for the triac timer and trigger output.
    pub triac: Option<TriacAction>,
    /// The commands for the converter.
    pub adc: Option<AdcAction>,
    /// The longest time between two ticks so far.
    pub max_rt: RelLargeTimestamp,
}

/// The whole system.
pub struct System {
    startup_delay_timeout: LargeTimestamp,
    state: SysState,
    mon: Mon,
    mon_pocheck: PoCheck,
    adc: Adc,
    setpoint_filter: Filter,
    speedo: Speedo,
    speed_filter: Filter,
    temp: Temp,
    mains: Mains,
    rpm_pid: Pid,
    mains_90deg_done: bool,
    triac: Triac,
    prev_time: LargeTimestamp,
    max_rt: RelLargeTimestamp,
}

/// The raw filtered speed of a cycle of normal operation. A new speed
/// reading is filtered. Without one, the last filtered speed stands while
/// the loop is closed, and zero while it is open.
pub open spec fn normal_speed_filt(
    state: SysState,
    speed_filter: Filter,
    speed: Option<MotorSpeed>,
) -> int {
    match speed {
        Some(s) => filter_out(
            speed_filter.buf(),
            speed_filter.out(),
            s@,
            SPEED_FILTER_DIV_Q as int,
        ),
        None => if state == SysState::Running {
            speed_filter.out()
        } else {
            0
        },
    }
}

/// The accumulator of the speed filter after a cycle of normal operation.
pub open spec fn normal_speed_buf(
    state: SysState,
    speed_filter: Filter,
    speed: Option<MotorSpeed>,
) -> int {
    match speed {
        Some(s) => filter_buf(speed_filter.buf(), speed_filter.out(), s@),
        None => if state == SysState::Running {
            speed_filter.buf()
        } else {
            0
        },
    }
}

/// The raw setpoint of a cycle: zero until the setpoint channel has a
/// result.
pub open spec fn normal_setpoint(adc: AdcView) -> int {
    match adc_result(adc, AdcChannel::Setpoint) {
        Some(code) => setpoint_q(code as int),
        None => 0,
    }
}

/// Whether a cycle is the 90 degree point of its half-wave: the first
/// cycle, other than the one of the zero-crossing itself, that lies a
/// quarter-wave after the zero-crossing.
pub open spec fn normal_trigger(
    done: bool,
    phase_update: PhaseUpdate,
    phase: Phase,
    phaseref: int,
    now: int,
) -> bool {
    &&& phase_update != PhaseUpdate::Changed
    &&& !done
    &&& phase != Phase::Notsync
    &&& wrap_signed(now - phaseref, 0x1_0000) >= MAINS_QUARTERWAVE_TICKS
}

/// The state of the system after a cycle of normal operation. A speed
/// reading closes the loop; at a 90 degree point a filtered setpoint at or
/// below the threshold opens it.
pub open spec fn normal_state(
    state: SysState,
    speed: Option<MotorSpeed>,
    trigger: bool,
    setpoint_filt: int,
) -> SysState {
    if trigger && setpoint_filt <= RPM_SYNC_THRES_Q {
        SysState::Syncing
    } else if speed.is_some() {
        SysState::Running
    } else {
        state
    }
}

/// The safety verdict of a state: a shutoff if the temperature monitor or
/// the safety monitor says so.
pub open spec fn normal_safety(sys: System) -> Shutoff {
    shutoff_or(sys.temp().shutoff(), mon_verdict(sys.mon()@.count))
}

/// The verdict for the triac path: the safety verdict, and a shutoff while
/// the filtered speed lies above the soft limit.
pub open spec fn normal_triac_verdict(speed_filt: int, safety: Shutoff) -> Shutoff {
    if speed_filt > MOT_SOFT_LIMIT_Q {
        Shutoff::MachineShutoff
    } else {
        safety
    }
}

/// The trigger offset in ticks for a raw controller output.
pub open spec fn trig_offs_ticks(y: int) -> int {
    q_mul(trig_offs_q(y), 500) / 8
}

/// What a cycle of normal operation makes of the system.
///
/// `adc` and `mains` are the converter state and the mains tracker as the
/// cycle finds them, `phase_update` says whether the tick has entered a new
/// half-wave, and `speed` is the tachometer's reading.
///
/// The speed is filtered and the safety monitor runs in every cycle. At
/// the 90 degree point of a half-wave the temperatures are evaluated, the
/// setpoint is filtered, and the controller runs: on the filtered speed
/// with its full gains while the loop is closed, and on a substitute speed
/// without integral action while it is open. The limits of the integral
/// term follow the filtered speed. The controller output becomes the
/// trigger offset.
pub open spec fn normal_ran(
    old: System,
    new: System,
    adc: AdcView,
    mains: Mains,
    now: int,
    phase_update: PhaseUpdate,
    speed: Option<MotorSpeed>,
    unused_stack_bytes: int,
    analog_failure: bool,
) -> bool {
    let speed_filt = normal_speed_filt(old.state(), old.speed_filter(), speed);
    let setpoint = normal_setpoint(adc);
    let trigger = normal_trigger(
        old.mains_90deg_done(),
        phase_update,
        mains.phase(),
        mains.phaseref()@,
        now,
    );
    let setpoint_filt = filter_out(
        old.setpoint_filter().buf(),
        old.setpoint_filter().out(),
        setpoint,
        SETPOINT_FILTER_DIV_Q as int,
    );
    let closed = normal_state(old.state(), speed, trigger, setpoint_filt) == SysState::Running;
    let neg = curve_value(ilim_neg_points(), speed_filt);
    let pos = curve_value(ilim_pos_points(), speed_filt);
    let pid_speed = if closed {
        speed_filt
    } else {
        curve_value(sync_substitute_points(), setpoint_filt)
    };
    let ki = if closed {
        64int
    } else {
        0int
    };
    &&& new.state() == normal_state(old.state(), speed, trigger, setpoint_filt)
    &&& new.speed_filter().out() == speed_filt
    &&& new.speed_filter().buf() == normal_speed_buf(old.state(), old.speed_filter(), speed)
    &&& new.mains_90deg_done() == if phase_update == PhaseUpdate::Changed {
        false
    } else {
        old.mains_90deg_done() || trigger
    }
    &&& new.mon()@ == mon_step(
        old.mon()@,
        (MonInput {
            now: now,
            setpoint: setpoint,
            speedo_hz: speed_filt,
            mains_90deg: trigger,
            unused_stack_bytes: unused_stack_bytes,
            analog_failure: analog_failure,
        }),
    )
    &&& if trigger {
        &&& temp_ran(
            old.temp(),
            new.temp(),
            (TempAdc {
                uc: adc_result(adc, AdcChannel::UcTemp),
                mot: adc_result(adc, AdcChannel::MotTemp),
            }),
        )
        &&& new.setpoint_filter().out() == setpoint_filt
        &&& new.setpoint_filter().buf() == filter_buf(
            old.setpoint_filter().buf(),
            old.setpoint_filter().out(),
            setpoint,
        )
        &&& new.rpm_pid().integral() == pid_integral(
            old.rpm_pid().integral(),
            ki,
            q_sub(setpoint_filt, pid_speed),
            !closed,
            neg,
            pos,
        )
        &&& new.rpm_pid().prev_e() == q_sub(setpoint_filt, pid_speed)
        &&& new.triac().phi_offs()@ == trig_offs_ticks(
            pid_output(
                old.rpm_pid().integral(),
                old.rpm_pid().prev_e(),
                1280,
                ki,
                0,
                neg,
                pos,
                setpoint_filt,
                pid_speed,
                !closed,
            ),
        )
    } else {
        &&& new.temp() == old.temp()
        &&& new.setpoint_filter() == old.setpoint_filter()
        &&& new.rpm_pid() == old.rpm_pid()
        &&& new.triac().phi_offs() == old.triac().phi_offs()
    }
}

/// Anti-windup of the whole system: after a control step, the integral
/// term of the speed controller lies between the limits that the curves
/// give for the filtered speed of that step.
pub proof fn lemma_system_integral_bounded(
    old: System,
    new: System,
    adc: AdcView,
    mains: Mains,
    now: int,
    phase_update: PhaseUpdate,
    speed: Option<MotorSpeed>,
    unused_stack_bytes: int,
    analog_failure: bool,
)
    requires
        normal_ran(
            old,
            new,
            adc,
            mains,
            now,
            phase_update,
            speed,
            unused_stack_bytes,
            analog_failure,
        ),
        normal_trigger(
            old.mains_90deg_done(),
            phase_update,
            mains.phase(),
            mains.phaseref()@,
            now,
        ),
    ensures
        ({
            let speed_filt = normal_speed_filt(old.state(), old.speed_filter(), speed);
            curve_value(ilim_neg_points(), speed_filt) <= new.rpm_pid().integral() <= curve_value(
                ilim_pos_points(),
                speed_filt,
            )
        }),
{
    crate::filter::lemma_filter_range(old.speed_filter());
    lemma_ilim_ordered(normal_speed_filt(old.state(), old.speed_filter(), speed));
}

/// What a tick during the delay after power-on makes of the system:
/// nothing is driven, and the self-test begins once `now` lies after the
/// end of the delay.
pub open spec fn startup_ran(old: System, new: System, inp: SysInput, r: SysOutput) -> bool {
    &&& r.secondary.is_none() && r.triac.is_none() && r.adc.is_none()
    &&& new.state() == if stamp_gt(inp.now@, old.startup_delay_timeout()@, 0x1_0000) {
        SysState::PoCheck
    } else {
        SysState::Startup
    }
    &&& new.pocheck() == old.pocheck()
    &&& new.mon() == old.mon()
    &&& new.adc() == old.adc()
    &&& new.setpoint_filter() == old.setpoint_filter()
    &&& new.speedo() == old.speedo()
    &&& new.speed_filter() == old.speed_filter()
    &&& new.temp() == old.temp()
    &&& new.mains() == old.mains()
    &&& new.rpm_pid() == old.rpm_pid()
    &&& new.mains_90deg_done() == old.mains_90deg_done()
    &&& new.triac() == old.triac()
}

/// What a tick after the delay makes of the parts that sense the
/// hardware: the mains tracker, the converter and the tachometer.
pub open spec fn sensed(old: System, new: System, inp: SysInput, edges: Seq<LargeTimestamp>) -> bool {
    &&& new.mains().prev_vsense() == inp.vsense
    &&& new.mains().phase() == old.mains().next_phase(inp.vsense, inp.now@)
    &&& new.mains().phaseref()@ == old.mains().next_ref(
        inp.vsense,
        inp.vsense_stamp@,
        inp.now@,
    )
    &&& new.adc()@ == adc_cycle(old.adc()@, inp.adc_done, inp.adc_value)
    &&& new.speedo()@ == speedo_feed(
        speedo_stale(old.speedo()@, inp.now@),
        edges,
        edges.len() as int,
    )
}

/// The speed reading of a tick: what the tachometer reports after it has
/// taken in the tick's edges.
pub open spec fn tick_speed(new: System) -> Option<MotorSpeed> {
    match speedo_speed(new.speedo()@) {
        Some(v) => Some(MotorSpeed(Fixpt(v as i16))),
        None => None,
    }
}

/// What a cycle of the converter asks of the hardware.
pub open spec fn adc_action(v: AdcView, done: bool, value: u16) -> AdcAction {
    let starts = adc_starts(adc_store(adc_skip(v), done, value));
    AdcAction {
        update_mux: if starts {
            Some(adc_cycle(v, done, value).chan)
        } else {
            None
        },
        start_conversion: starts || (adc_finished(adc_skip(v), done) && !adc_skip(v).settled),
    }
}

/// What the triac scheduler makes of a tick, given the verdict for the
/// triac path. The scheduler runs on the trigger offset and the mains phase
/// that the tick has arrived at. With `cancelled`, an earlier step of the
/// tick has set the triac to never fire, and the request to cancel the
/// pulse sequence is part of the tick's requests.
pub open spec fn triac_ran(
    old: System,
    new: System,
    inp: SysInput,
    action: TriacAction,
    verdict: Shutoff,
    cancelled: bool,
) -> bool {
    let offs = new.triac().phi_offs()@;
    let pending = old.triac().trigger_pending();
    let update = old.mains().update(inp.vsense, inp.now@);
    let phase = new.mains().phase();
    let phaseref = new.mains().phaseref()@;
    let requested = triac_run_action(offs, pending, inp.now@, update, phase, phaseref, verdict);
    &&& action == (TriacAction { cancel: requested.cancel || cancelled, ..requested })
    &&& new.triac().trigger_pending() == triac_run_pending(
        offs,
        pending,
        inp.now@,
        update,
        phase,
        phaseref,
        verdict,
    )
}

/// Whether a stage of the self-test enables the triac path.
pub open spec fn po_triac_enabled(stage: PoState) -> bool {
    stage == PoState::CheckSecondaryShutoff || stage == PoState::CheckPrimaryShutoff
}

/// What a tick of the self-test makes of the system.
///
/// While a stage enables the triac path, the trigger offset is the test's
/// own; in every other stage the triac is set to never fire. When the test
/// has passed, the system goes on to open-loop operation and the time
/// references of the safety monitor start at `now`.
pub open spec fn pocheck_ran(old: System, new: System, now: int, speed: Option<MotorSpeed>) -> bool {
    let stage = new.pocheck().state();
    &&& po_ran(old.pocheck(), new.pocheck(), now, speed)
    &&& new.state() == if stage == PoState::DoneOk {
        SysState::Syncing
    } else {
        old.state()
    }
    &&& new.mon()@ == if stage == PoState::DoneOk {
        MonView { prev_check: now, prev_mains_90deg: now, prev_sp: now, ..old.mon()@ }
    } else {
        old.mon()@
    }
    &&& new.triac().phi_offs()@ == if po_triac_enabled(stage) {
        trig_offs_ms_ticks(TRIAC_TRIG_OFFS_ENABLED_MS_Q as int)
    } else {
        MAINS_HALFWAVE_TICKS as int
    }
    &&& new.speed_filter() == old.speed_filter()
    &&& new.setpoint_filter() == old.setpoint_filter()
    &&& new.temp() == old.temp()
    &&& new.rpm_pid() == old.rpm_pid()
    &&& new.mains_90deg_done() == old.mains_90deg_done()
}

/// The number of ticks of a raw duration in milliseconds.
pub open spec fn trig_offs_ms_ticks(ms: int) -> int {
    q_mul(ms, 500) / 8
}

impl System {
    /// Whether the parts of the system are well formed.
    pub closed spec fn wf(&self) -> bool {
        self.mon.wf() && adc_wf(self.adc@)
    }

    /// The state of the system.
    pub closed spec fn state(&self) -> SysState {
        self.state
    }

    /// The instant at which the delay after power-on ends.
    pub closed spec fn startup_delay_timeout(&self) -> LargeTimestamp {
        self.startup_delay_timeout
    }

    /// The safety monitor.
    pub closed spec fn mon(&self) -> Mon {
        self.mon
    }

    /// The power-on self-test.
    pub closed spec fn pocheck(&self) -> PoCheck {
        self.mon_pocheck
    }

    /// The converter logic.
    pub closed spec fn adc(&self) -> Adc {
        self.adc
    }

    /// The setpoint filter.
    pub closed spec fn setpoint_filter(&self) -> Filter {
        self.setpoint_filter
    }

    /// The tachometer.
    pub closed spec fn speedo(&self) -> Speedo {
        self.speedo
    }

    /// The speed filter.
    pub closed spec fn speed_filter(&self) -> Filter {
        self.speed_filter
    }

    /// The temperature monitor.
    pub closed spec fn temp(&self) -> Temp {
        self.temp
    }

    /// The mains phase tracker.
    pub closed spec fn mains(&self) -> Mains {
        self.mains
    }

    /// The speed controller.
    pub closed spec fn rpm_pid(&self) -> Pid {
        self.rpm_pid
    }

    /// Whether the 90 degree point of the current half-wave has passed.
    pub closed spec fn mains_90deg_done(&self) -> bool {
        self.mains_90deg_done
    }

    /// The triac scheduler.
    pub closed spec fn triac(&self) -> Triac {
        self.triac
    }

    /// The instant of the last tick.
    pub closed spec fn prev_time(&self) -> LargeTimestamp {
        self.prev_time
    }

    /// The longest time between two ticks so far.
    pub closed spec fn max_rt(&self) -> RelLargeTimestamp {
        self.max_rt
    }

    /// The system at power-on: in the delay after power-on, not
    /// synchronised, with both monitors and the self-test at their start,
    /// every filter and the controller at zero, no converter channel
    /// enabled and none with a result, and every instant at zero.
    pub fn new() -> (r: Self)
        ensures
            r.wf(),
            r.state() == SysState::Startup,
            r.startup_delay_timeout()@ == 0,
            r.prev_time()@ == 0,
            r.max_rt()@ == 0,
            !r.mains_90deg_done(),
            r.mon()@.prev_check == 0,
            r.mon()@.prev_mains_90deg == 0,
            r.mon()@.prev_sp == 0,
            r.mon()@.count == 0,
            r.mon()@.sp_hist =~= Seq::new(crate::mon::SP_HIST_COUNT as nat, |k: int| 0int),
            r.pocheck().state() == PoState::CheckIdle,
            r.pocheck().part() == crate::pocheck::PoStatePart::Pre,
            r.pocheck().next_transition()@ == 0,
            r.adc()@.chan == AdcChannel::Setpoint,
            !r.adc()@.settled,
            r.adc()@.enabled == 0,
            !r.adc()@.running,
            r.adc()@.ok == 0,
            r.adc()@.result =~= Seq::new(crate::analog::ADC_CHANNELS as nat, |k: int| 0u16),
            r.setpoint_filter().buf() == 0 && r.setpoint_filter().out() == 0,
            r.speed_filter().buf() == 0 && r.speed_filter().out() == 0,
            r.speedo()@.ok_count == 0,
            r.speedo()@.prev_stamp == 0,
            r.speedo()@.dur =~= seq![0int, 0, 0, 0],
            r.temp().shutoff() == Shutoff::MachineShutoff,
            r.temp().filter_uc().buf() == 0 && r.temp().filter_uc().out() == 0,
            r.temp().filter_mot().buf() == 0 && r.temp().filter_mot().out() == 0,
            !r.mains().prev_vsense(),
            r.mains().phase() == Phase::Notsync,
            r.mains().phaseref()@ == 0,
            r.rpm_pid().integral() == 0,
            r.rpm_pid().prev_e() == 0,
            r.triac().phi_offs()@ == 0,
            !r.triac().trigger_pending(),
    {
        System {
            startup_delay_timeout: LargeTimestamp::new(),
            state: SysState::Startup,
            mon: Mon::new(),
            mon_pocheck: PoCheck::new(),
            adc: Adc::new(),
            setpoint_filter: Filter::new(),
            speedo: Speedo::new(),
            speed_filter: Filter::new(),
            temp: Temp::new(),
            mains: Mains::new(),
            rpm_pid: Pid::new(),
            mains_90deg_done: false,
            triac: Triac::new(),
            prev_time: LargeTimestamp::new(),
            max_rt: RelLargeTimestamp::new(),
        }
    }

    /// Initialises the system at the instant `now`, before interrupts are
    /// enabled: both shutoff paths are
    /// switched off, all converter channels are enabled and the first
    /// conversion is started, and the delay after power-on, the settle
    /// time of the self-test and the time references of the safety monitor
    /// begin.
    pub fn init(&mut self, c: &MainInitCtx, now: LargeTimestamp) -> (r: SysOutput)
        requires
            old(self).wf(),
        ensures
            final(self).wf(),
            r.secondary == Some(Shutoff::MachineShutoff),
            r.triac == Some(TriacAction { cancel: true, trigger_off: true, arm: None }),
            r.adc == Some(
                AdcAction { update_mux: Some(old(self).adc()@.chan), start_conversion: true },
            ),
            r.max_rt == old(self).max_rt(),
            final(self).state() == old(self).state(),
            final(self).startup_delay_timeout()@ == (now@ + STARTUP_DELAY_TICKS) % 0x1_0000,
            final(self).prev_time() == now,
            final(self).max_rt() == old(self).max_rt(),
            final(self).triac().phi_offs()@ == MAINS_HALFWAVE_TICKS,
            final(self).triac().trigger_pending() == old(self).triac().trigger_pending(),
            final(self).pocheck().state() == old(self).pocheck().state(),
            final(self).pocheck().part() == old(self).pocheck().part(),
            final(self).pocheck().next_transition()@ == (now@ + crate::pocheck::DUR_PRE_TICKS)
                % 0x1_0000,
            final(self).mon()@ == (MonView {
                prev_check: now@,
                prev_mains_90deg: now@,
                prev_sp: now@,
                ..old(self).mon()@
            }),
            final(self).adc()@ == (AdcView { enabled: 0x1F, settled: false, ..old(self).adc()@ }),
            final(self).setpoint_filter() == old(self).setpoint_filter(),
            final(self).speedo() == old(self).speedo(),
            final(self).speed_filter() == old(self).speed_filter(),
            final(self).temp() == old(self).temp(),
            final(self).mains() == old(self).mains(),
            final(self).rpm_pid() == old(self).rpm_pid(),
            final(self).mains_90deg_done() == old(self).mains_90deg_done(),
    {
        self.triac.set_phi_offs_shutoff();
        self.mon_pocheck.init(now);
        self.mon.init(now);
        self.adc.enable(0x1F);
        let adc_action = self.adc.init();
        self.prev_time = now;
        self.startup_delay_timeout = now.add(RelLargeTimestamp::from_ticks(STARTUP_DELAY_TICKS));
        SysOutput {
            secondary: Some(Shutoff::MachineShutoff),
            triac: Some(TriacAction { cancel: true, trigger_off: true, arm: None }),
            adc: Some(adc_action),
            max_rt: self.max_rt,
        }
    }

    /// Measures the time since the last tick and keeps the longest.
    pub fn meas_runtime(&mut self, now: LargeTimestamp) -> (r: RelLargeTimestamp)
        ensures
            final(self).prev_time() == now,
            r == final(self).max_rt(),
            r@ == if wrap_signed(now@ - old(self).prev_time()@, 0x1_0000) > old(self).max_rt()@ {
                wrap_signed(now@ - old(self).prev_time()@, 0x1_0000)
            } else {
                old(self).max_rt()@
            },
            final(self).wf() == old(self).wf(),
            final(self).state() == old(self).state(),
            final(self).startup_delay_timeout() == old(self).startup_delay_timeout(),
            final(self).mon() == old(self).mon(),
            final(self).pocheck() == old(self).pocheck(),
            final(self).adc() == old(self).adc(),
            final(self).setpoint_filter() == old(self).setpoint_filter(),
            final(self).speedo() == old(self).speedo(),
            final(self).speed_filter() == old(self).speed_filter(),
            final(self).temp() == old(self).temp(),
            final(self).mains() == old(self).mains(),
            final(self).rpm_pid() == old(self).rpm_pid(),
            final(self).mains_90deg_done() == old(self).mains_90deg_done(),
            final(self).triac() == old(self).triac(),
    {
        let runtime = now.sub(self.prev_time);
        self.prev_time = now;
        if runtime.ticks() > self.max_rt.ticks() {
            self.max_rt = runtime;
        }
        self.max_rt
    }

    /// Waits out the delay after power-on: the self-test begins once `now`
    /// lies after the end of the delay.
    pub fn run_startup(&mut self, now: LargeTimestamp)
        ensures
            final(self).state() == if stamp_gt(
                now@,
                old(self).startup_delay_timeout()@,
                0x1_0000,
            ) {
                SysState::PoCheck
            } else {
                old(self).state()
            },
            final(self).wf() == old(self).wf(),
            final(self).startup_delay_timeout() == old(self).startup_delay_timeout(),
            final(self).mon() == old(self).mon(),
            final(self).pocheck() == old(self).pocheck(),
            final(self).adc() == old(self).adc(),
            final(self).setpoint_filter() == old(self).setpoint_filter(),
            final(self).speedo() == old(self).speedo(),
            final(self).speed_filter() == old(self).speed_filter(),
            final(self).temp() == old(self).temp(),
            final(self).mains() == old(self).mains(),
            final(self).rpm_pid() == old(self).rpm_pid(),
            final(self).mains_90deg_done() == old(self).mains_90deg_done(),
            final(self).triac() == old(self).triac(),
            final(self).prev_time() == old(self).prev_time(),
            final(self).max_rt() == old(self).max_rt(),
    {
        if now > self.startup_delay_timeout {
            self.state = SysState::PoCheck;
        }
    }

    /// Runs the power-on self-test for one tick. Returns the verdicts for
    /// the triac path and for the secondary path, both as the stage of the
    /// test asks for them, and whether the pulse sequence is to be
    /// cancelled because the stage keeps the triac from firing.
    pub fn run_pocheck(&mut self, now: LargeTimestamp, speed: Option<MotorSpeed>) -> (r: (
        Shutoff,
        Shutoff,
        bool,
    ))
        requires
            old(self).wf(),
        ensures
            final(self).wf(),
            pocheck_ran(*old(self), *final(self), now@, speed),
            r.0 == po_triac_shutoff(final(self).pocheck().state()),
            r.1 == po_secondary_shutoff(final(self).pocheck().state()),
            r.2 == !po_triac_enabled(final(self).pocheck().state()),
            final(self).pocheck().state() == PoState::Error ==> r.0 == Shutoff::MachineShutoff
                && r.1 == Shutoff::MachineShutoff,
            old(self).pocheck().state() == PoState::Error ==> final(self).pocheck().state()
                == PoState::Error,
            final(self).triac().trigger_pending() == old(self).triac().trigger_pending(),
            final(self).startup_delay_timeout() == old(self).startup_delay_timeout(),
            final(self).mains() == old(self).mains(),
            final(self).adc() == old(self).adc(),
            final(self).speedo() == old(self).speedo(),
            final(self).max_rt() == old(self).max_rt(),
            final(self).prev_time() == old(self).prev_time(),
    {
        let po_state = self.mon_pocheck.run(now, speed);
        let mut cancel = false;
        match po_state {
            PoState::CheckIdle | PoState::CheckSecondaryShutoff | PoState::CheckPrimaryShutoff => {
                if let Some(phi_offs_ms) = self.mon_pocheck.get_triac_phi_offs_ms() {
                    self.triac.set_phi_offs_ms(phi_offs_ms);
                } else {
                    cancel = self.triac.set_phi_offs_shutoff().cancel;
                }
            },
            PoState::Error => {
                cancel = self.triac.set_phi_offs_shutoff().cancel;
            },
            PoState::DoneOk => {
                self.state = SysState::Syncing;
                self.mon.init(now);
                cancel = self.triac.set_phi_offs_shutoff().cancel;
            },
        }
        (self.mon_pocheck.get_triac_shutoff(), self.mon_pocheck.get_secondary_shutoff(), cancel)
    }

    /// Runs one tick of normal operation, with the loop open or closed.
    /// Returns the verdicts for the triac path and for the secondary path.
    ///
    /// The secondary path follows the safety verdict, which is a shutoff
    /// if the temperature monitor or the safety monitor says so. The triac
    /// path is also shut off while the filtered speed lies above the soft
    /// limit.
    pub fn run_normal(
        &mut self,
        now: LargeTimestamp,
        phase_update: PhaseUpdate,
        speed: Option<MotorSpeed>,
        unused_stack_bytes: u16,
        analog_failure: bool,
    ) -> (r: (Shutoff, Shutoff))
        requires
            old(self).wf(),
        ensures
            final(self).wf(),
            normal_ran(
                *old(self),
                *final(self),
                old(self).adc()@,
                old(self).mains(),
                now@,
                phase_update,
                speed,
                unused_stack_bytes as int,
                analog_failure,
            ),
            r.1 == normal_safety(*final(self)),
            r.0 == normal_triac_verdict(
                normal_speed_filt(old(self).state(), old(self).speed_filter(), speed),
                normal_safety(*final(self)),
            ),
            final(self).triac().trigger_pending() == old(self).triac().trigger_pending(),
            final(self).startup_delay_timeout() == old(self).startup_delay_timeout(),
            final(self).mains() == old(self).mains(),
            final(self).adc() == old(self).adc(),
            final(self).speedo() == old(self).speedo(),
            final(self).pocheck() == old(self).pocheck(),
            final(self).max_rt() == old(self).max_rt(),
            final(self).prev_time() == old(self).prev_time(),
    {
        let mut triac_shutoff = Shutoff::MachineRunning;
        let speed_filt = if let Some(speed) = speed {
            self.state = SysState::Running;
            self.speed_filter.run(speed.as_16hz(), Fixpt::from_q(SPEED_FILTER_DIV_Q))
        } else if self.state == SysState::Running {
            self.speed_filter.get()
        } else {
            self.speed_filter.reset();
            Fixpt::from_q(0)
        };
        if speed_filt.to_q() > MOT_SOFT_LIMIT_Q {
            triac_shutoff = Shutoff::MachineShutoff;
        }
        let setpoint = if let Some(setpoint) = self.adc.get_result(AdcChannel::Setpoint) {
            setpoint_to_f(setpoint)
        } else {
            Fixpt::from_q(0)
        };
        let mut mains_90deg_trigger = false;
        if phase_update == PhaseUpdate::Changed {
            self.mains_90deg_done = false;
        } else if !self.mains_90deg_done {
            if let Some(time_since_zerocrossing) = self.mains.get_time_since_zerocrossing(now) {
                if time_since_zerocrossing.ticks() >= MAINS_QUARTERWAVE_TICKS {
                    self.mains_90deg_done = true;
                    mains_90deg_trigger = true;
                }
            }
        }
        if mains_90deg_trigger {
            self.temp.run(
                TempAdc {
                    uc: self.adc.get_result(AdcChannel::UcTemp),
                    mot: self.adc.get_result(AdcChannel::MotTemp),
                },
            );
            let setpoint_filt = self.setpoint_filter.run(
                setpoint,
                Fixpt::from_q(SETPOINT_FILTER_DIV_Q),
            );
            if setpoint_filt.to_q() <= RPM_SYNC_THRES_Q {
                self.state = SysState::Syncing;
            }
            let rpmpid_speed;
            let rpmpid_params;
            let rpmpid_reset_i;
            match self.state {
                SysState::Startup | SysState::PoCheck | SysState::Syncing => {
                    let substitute = sync_substitute_curve();
                    rpmpid_speed = curve_lin_inter(&substitute, setpoint_filt);
                    rpmpid_params = rpmpi_params_syncing();
                    rpmpid_reset_i = true;
                },
                SysState::Running => {
                    rpmpid_speed = speed_filt;
                    rpmpid_params = rpmpi_params();
                    rpmpid_reset_i = false;
                },
            }
            let pos_curve = ilim_pos_curve();
            let neg_curve = ilim_neg_curve();
            let ilim = PidIlim {
                pos: curve_lin_inter(&pos_curve, speed_filt),
                neg: curve_lin_inter(&neg_curve, speed_filt),
            };
            let y = self.rpm_pid.run(
                &rpmpid_params,
                &ilim,
                setpoint_filt,
                rpmpid_speed,
                rpmpid_reset_i,
            );
            let phi_offs_ms = f_to_trig_offs(y);
            self.triac.set_phi_offs_ms(phi_offs_ms);
        }
        let mut safety_shutoff = self.temp.get_shutoff();
        let mon_shutoff = self.mon.check(
            now,
            setpoint,
            speed_filt,
            mains_90deg_trigger,
            unused_stack_bytes,
            analog_failure,
        );
        safety_shutoff = safety_shutoff.or(mon_shutoff);
        let secondary;
        if safety_shutoff == Shutoff::MachineShutoff {
            triac_shutoff = Shutoff::MachineShutoff;
            secondary = Shutoff::MachineShutoff;
        } else {
            secondary = Shutoff::MachineRunning;
        }
        (triac_shutoff, secondary)
    }

    /// One tick of the main loop, which holds the main loop's token.
    ///
    /// During the delay after power-on nothing is driven. After it, the
    /// mains tracker, the converter and the tachometer run in every tick,
    /// then the self-test or normal operation gives the two verdicts, and
    /// last the triac scheduler runs with the verdict for the triac path.
    /// A shutoff verdict for the triac path asks, in the same tick, to
    /// cancel the pulse sequence and to switch the trigger output off.
    pub fn run(&mut self, m: &MainCtx, inp: SysInput, edges: &[LargeTimestamp]) -> (r:
        SysOutput)
        requires
            old(self).wf(),
            inp.adc_value <= ADC_CODE_MAX,
        ensures
            final(self).wf(),
            final(self).prev_time() == inp.now,
            final(self).startup_delay_timeout() == old(self).startup_delay_timeout(),
            r.max_rt == final(self).max_rt(),
            r.max_rt@ == if wrap_signed(inp.now@ - old(self).prev_time()@, 0x1_0000) > old(
                self,
            ).max_rt()@ {
                wrap_signed(inp.now@ - old(self).prev_time()@, 0x1_0000)
            } else {
                old(self).max_rt()@
            },
            old(self).state() == SysState::Startup ==> startup_ran(
                *old(self),
                *final(self),
                inp,
                r,
            ),
            old(self).state() != SysState::Startup ==> {
                &&& r.secondary.is_some() && r.triac.is_some()
                &&& final(self).state() != SysState::Startup
                &&& sensed(*old(self), *final(self), inp, edges@)
                &&& r.adc == Some(
                    adc_action(old(self).adc()@, inp.adc_done, inp.adc_value),
                )
            },
            old(self).state() == SysState::PoCheck ==> {
                let stage = final(self).pocheck().state();
                &&& pocheck_ran(*old(self), *final(self), inp.now@, tick_speed(*final(self)))
                &&& r.secondary == Some(po_secondary_shutoff(stage))
                &&& triac_ran(
                    *old(self),
                    *final(self),
                    inp,
                    r.triac.unwrap(),
                    po_triac_shutoff(stage),
                    !po_triac_enabled(stage),
                )
                &&& po_triac_shutoff(stage) == Shutoff::MachineShutoff ==> r.triac == Some(
                    TriacAction { cancel: true, trigger_off: true, arm: None },
                )
            },
            old(self).state() == SysState::Syncing || old(self).state() == SysState::Running ==> {
                let safety = normal_safety(*final(self));
                &&& normal_ran(
                    *old(self),
                    *final(self),
                    final(self).adc()@,
                    final(self).mains(),
                    inp.now@,
                    old(self).mains().update(inp.vsense, inp.now@),
                    tick_speed(*final(self)),
                    inp.unused_stack_bytes as int,
                    inp.analog_failure,
                )
                &&& final(self).pocheck() == old(self).pocheck()
                &&& r.secondary == Some(safety)
                &&& triac_ran(
                    *old(self),
                    *final(self),
                    inp,
                    r.triac.unwrap(),
                    normal_triac_verdict(
                        normal_speed_filt(
                            old(self).state(),
                            old(self).speed_filter(),
                            tick_speed(*final(self)),
                        ),
                        safety,
                    ),
                    false,
                )
                &&& safety == Shutoff::MachineShutoff ==> r.triac == Some(
                    TriacAction { cancel: true, trigger_off: true, arm: None },
                )
                &&& old(self).mon()@.count >= crate::mon::ERROR_DEBOUNCE_LIMIT ==> r.secondary
                    == Some(Shutoff::MachineShutoff)
                &&& inp.analog_failure || inp.unused_stack_bytes < crate::mon::MIN_STACK_SPACE
                    ==> r.secondary == Some(Shutoff::MachineShutoff)
            },
    {
        let max_rt = self.meas_runtime(inp.now);
        let state = self.state;
        if state == SysState::Startup {
            self.run_startup(inp.now);
            SysOutput { secondary: None, triac: None, adc: None, max_rt }
        } else {
            let phase_update = self.mains.run(inp.vsense, inp.vsense_stamp, inp.now);
            let adc_action = self.adc.run(inp.adc_done, inp.adc_value);
            let speed = self.speedo.run(inp.now, edges);
            let (triac_shutoff, secondary, cancel) = match state {
                SysState::Startup => (Shutoff::MachineShutoff, Shutoff::MachineShutoff, false),
                SysState::PoCheck => self.run_pocheck(inp.now, speed),
                SysState::Syncing | SysState::Running => {
                    let verdicts = self.run_normal(
                        inp.now,
                        phase_update,
                        speed,
                        inp.unused_stack_bytes,
                        inp.analog_failure,
                    );
                    (verdicts.0, verdicts.1, false)
                },
            };
            let mut triac_action = self.triac.run(
                inp.now,
                phase_update,
                self.mains.get_phase(),
                self.mains.get_phaseref(),
                triac_shutoff,
            );
            if cancel {
                triac_action.cancel = true;
            }
            SysOutput {
                secondary: Some(secondary),
                triac: Some(triac_action),
                adc: Some(adc_action),
                max_rt,
            }
        }
    }

    /// The state of the system.
    pub fn get_state(&self) -> (r: SysState)
        ensures
            r == self.state(),
    {
        self.state
    }
}

} // verus!
