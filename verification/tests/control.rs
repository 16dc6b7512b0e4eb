use motorctl::debounce::Debounce;
use motorctl::filter::Filter;
use motorctl::fixpt::Fixpt;
use motorctl::history::History;
use motorctl::pi::Pi;
use motorctl::pi::PiParams;
use motorctl::pid::Pid;
use motorctl::pid::PidIlim;
use motorctl::pid::PidParams;
use motorctl::shutoff::set_secondary_shutoff;
use motorctl::shutoff::Shutoff;
use motorctl::speedo::MotorSpeed;
use motorctl::speedo::Speedo;
use motorctl::system::f_to_trig_offs;
use motorctl::system::setpoint_to_f;
use motorctl::timer::LargeTimestamp;
use motorctl::timer::RelLargeTimestamp;

fn fx(v: i16) -> Fixpt {
    Fixpt::from_q(v)
}

#[test]
fn shutoff_combination() {
    let s = Shutoff::MachineShutoff;
    let r = Shutoff::MachineRunning;
    assert!((r | r) == r);
    assert!((r | s) == s);
    assert!((s | r) == s);
    assert!((s | s) == s);
    assert!(r.or(s) == s);
    assert!(r.or(r) == r);
}

#[test]
fn secondary_output_is_active_low() {
    assert!(!set_secondary_shutoff(Shutoff::MachineShutoff));
    assert!(set_secondary_shutoff(Shutoff::MachineRunning));
}

#[test]
fn debounce_counts_up_and_down() {
    let mut d: Debounce<3, 10, false> = Debounce::new();
    assert!(d.is_ok());
    assert_eq!(d.count(), 0);
    d.ok();
    assert_eq!(d.count(), 0);
    d.error();
    assert_eq!(d.count(), 3);
    d.ok();
    assert_eq!(d.count(), 2);
    d.error();
    d.error();
    assert_eq!(d.count(), 8);
    assert!(d.is_ok());
    d.error();
    assert_eq!(d.count(), 11);
    assert!(!d.is_ok());
    // Not sticky: the fault heals.
    d.ok();
    d.ok();
    assert_eq!(d.count(), 9);
    assert!(d.is_ok());
}

#[test]
fn debounce_sticky_does_not_heal() {
    let mut d: Debounce<3, 10, true> = Debounce::new();
    d.error();
    d.error();
    d.error();
    assert_eq!(d.count(), 9);
    d.ok();
    assert_eq!(d.count(), 8);
    d.error();
    assert_eq!(d.count(), 11);
    assert!(!d.is_ok());
    for _ in 0..1000 {
        d.ok();
        assert_eq!(d.count(), 11);
        assert!(!d.is_ok());
    }
}

#[test]
fn debounce_saturates_and_trips_at_once() {
    let mut d: Debounce<100, 120, true> = Debounce::new();
    d.error();
    d.error();
    assert_eq!(d.count(), 200);
    d.error();
    assert_eq!(d.count(), 255);
    d.error();
    assert_eq!(d.count(), 255);

    let mut d: Debounce<3, 120, true> = Debounce::new();
    d.error_no_debounce();
    assert_eq!(d.count(), 120);
    assert!(!d.is_ok());
    d.ok();
    assert_eq!(d.count(), 120);
}

#[test]
fn history_shifts() {
    let mut h: History<i16, 3> = History::new([1, 2, 3]);
    assert_eq!(h.oldest(), 1);
    assert_eq!(h.get(2), 3);
    h.push_back(4);
    assert_eq!(h.oldest(), 2);
    assert_eq!(h.get(0), 2);
    assert_eq!(h.get(1), 3);
    assert_eq!(h.get(2), 4);
    h.push_back(5);
    h.push_back(6);
    assert_eq!(h.oldest(), 4);
    let mut one: History<u8, 1> = History::new([9]);
    one.push_back(7);
    assert_eq!(one.oldest(), 7);
}

#[test]
fn filter_step_values() {
    let mut f = Filter::new();
    assert_eq!(f.get().to_q(), 0);
    // Input 10.0 with a divisor of 2.0.
    let expected = [1280, 1920, 2240, 2400, 2480, 2520];
    for e in expected.iter() {
        assert_eq!(f.run(fx(2560), fx(512)).to_q(), *e);
        assert_eq!(f.get().to_q(), *e);
    }
    f.reset();
    assert_eq!(f.get().to_q(), 0);
    assert_eq!(f.run(fx(2560), fx(512)).to_q(), 1280);
}

#[test]
fn filter_converges_and_holds() {
    let mut f = Filter::new();
    let expected = [160, 240, 280, 300, 310, 315, 317, 319, 319, 320, 320, 320];
    for e in expected.iter() {
        assert_eq!(f.run(fx(320), fx(512)).to_q(), *e);
    }
    for _ in 0..100 {
        assert_eq!(f.run(fx(320), fx(512)).to_q(), 320);
    }
}

#[test]
fn filter_takes_zero_divisor_and_saturates() {
    let mut f = Filter::new();
    assert_eq!(f.run(fx(100), fx(0)).to_q(), i16::MAX);
    let mut f = Filter::new();
    assert_eq!(f.run(fx(-100), fx(0)).to_q(), i16::MIN);
    let mut f = Filter::new();
    for _ in 0..2000 {
        f.run(fx(i16::MAX), fx(1));
    }
    assert_eq!(f.get().to_q(), i16::MAX);
}

#[test]
fn pid_step_values() {
    let params = PidParams { kp: fx(1280), ki: fx(64), kd: fx(0) };
    let ilim = PidIlim { neg: fx(-512), pos: fx(3072) };
    let mut pid = Pid::new();
    // Deviation 20: P = 5 * 20 = 100, I grows by 20 / 4 = 5 per step.
    assert_eq!(pid.run(&params, &ilim, fx(320), fx(300), false).to_q(), 105);
    assert_eq!(pid.run(&params, &ilim, fx(320), fx(300), false).to_q(), 110);
    assert_eq!(pid.run(&params, &ilim, fx(320), fx(300), false).to_q(), 115);
    // A reset clears the integral term.
    assert_eq!(pid.run(&params, &ilim, fx(320), fx(300), true).to_q(), 100);
    assert_eq!(pid.run(&params, &ilim, fx(320), fx(300), false).to_q(), 105);
    // Negative deviation.
    assert_eq!(pid.run(&params, &ilim, fx(300), fx(320), false).to_q(), -100);
}

#[test]
fn pid_derivative_term() {
    let params = PidParams { kp: fx(0), ki: fx(0), kd: fx(512) };
    let ilim = PidIlim { neg: fx(0), pos: fx(0) };
    let mut pid = Pid::new();
    // The deviation rises from 0 to 20: D = 2 * 20.
    assert_eq!(pid.run(&params, &ilim, fx(320), fx(300), false).to_q(), 40);
    // The deviation stays: D = 0.
    assert_eq!(pid.run(&params, &ilim, fx(320), fx(300), false).to_q(), 0);
    // The deviation falls from 20 to -20: D = 2 * -40.
    assert_eq!(pid.run(&params, &ilim, fx(300), fx(320), false).to_q(), -80);
}

/// The integral term stays within its limits for any sequence of
/// deviations.
#[test]
fn pid_integral_never_leaves_limits() {
    let params = PidParams { kp: fx(0), ki: fx(64), kd: fx(0) };
    let ilim = PidIlim { neg: fx(-512), pos: fx(3072) };
    let mut pid = Pid::new();
    // With kp and kd at zero the output is the integral term.
    assert_eq!(pid.run(&params, &ilim, fx(i16::MAX), fx(i16::MIN), false).to_q(), 3072);
    for _ in 0..100 {
        assert_eq!(pid.run(&params, &ilim, fx(i16::MAX), fx(i16::MIN), false).to_q(), 3072);
    }
    assert_eq!(pid.run(&params, &ilim, fx(i16::MIN), fx(i16::MAX), false).to_q(), -512);
    for _ in 0..100 {
        assert_eq!(pid.run(&params, &ilim, fx(i16::MIN), fx(i16::MAX), false).to_q(), -512);
    }
    let mut seed: u32 = 12345;
    for _ in 0..10000 {
        seed = seed.wrapping_mul(1664525).wrapping_add(1013904223);
        let sp = (seed >> 16) as u16 as i16;
        seed = seed.wrapping_mul(1664525).wrapping_add(1013904223);
        let r = (seed >> 16) as u16 as i16;
        let i = pid.run(&params, &ilim, fx(sp), fx(r), false).to_q();
        assert!(-512 <= i && i <= 3072);
    }
    // With a reset the term is zero clamped to the limits.
    let shifted = PidIlim { neg: fx(10), pos: fx(20) };
    assert_eq!(pid.run(&params, &shifted, fx(0), fx(0), true).to_q(), 10);
}

#[test]
fn pi_step_values() {
    let params = PiParams { kp: fx(1280), ki: fx(64) };
    let mut pi = Pi::new();
    // Without a limit the integral term stays at zero.
    assert_eq!(pi.run(&params, fx(320), fx(300), false).to_q(), 100);
    pi.set_ilim(fx(8));
    assert_eq!(pi.run(&params, fx(320), fx(300), false).to_q(), 105);
    assert_eq!(pi.run(&params, fx(320), fx(300), false).to_q(), 108);
    assert_eq!(pi.run(&params, fx(320), fx(300), false).to_q(), 108);
    assert_eq!(pi.run(&params, fx(300), fx(320), false).to_q(), -100 + 3);
    assert_eq!(pi.run(&params, fx(300), fx(320), false).to_q(), -100 - 2);
    assert_eq!(pi.run(&params, fx(300), fx(320), false).to_q(), -100 - 7);
    assert_eq!(pi.run(&params, fx(300), fx(320), false).to_q(), -100 - 8);
    assert_eq!(pi.run(&params, fx(300), fx(320), true).to_q(), -100);
}

#[test]
fn motor_speed_from_period() {
    // 781 ticks between edges are 1200 revolutions per minute.
    assert_eq!(MotorSpeed::from_period_dur(RelLargeTimestamp::from_ticks(781)).as_16hz().to_q(), 320);
    assert_eq!(MotorSpeed::from_period_dur(RelLargeTimestamp::from_ticks(100)).as_16hz().to_q(), 2500);
    // Periods are limited to 1 .. 1023 ticks.
    assert_eq!(MotorSpeed::from_period_dur(RelLargeTimestamp::from_ticks(1023)).as_16hz().to_q(), 244);
    assert_eq!(MotorSpeed::from_period_dur(RelLargeTimestamp::from_ticks(2000)).as_16hz().to_q(), 244);
    assert_eq!(MotorSpeed::from_period_dur(RelLargeTimestamp::from_ticks(1)).as_16hz().to_q(), i16::MAX);
    assert_eq!(MotorSpeed::from_period_dur(RelLargeTimestamp::from_ticks(0)).as_16hz().to_q(), i16::MAX);
    assert_eq!(MotorSpeed::from_period_dur(RelLargeTimestamp::from_ticks(-5)).as_16hz().to_q(), i16::MAX);
    assert_eq!(MotorSpeed::from_16hz(fx(77)).as_16hz().to_q(), 77);
}

/// A trace of edges at 1200 revolutions per minute: nothing is reported
/// before the fourth edge, then the exact speed, and the filtered speed
/// gets there by halving its distance with every sample.
#[test]
fn speedo_reports_after_four_edges() {
    let mut speedo = Speedo::new();
    let mut filter = Filter::new();
    let mut now: u16 = 0;
    assert!(speedo.run(LargeTimestamp::from_ticks(now), &[]).is_none());
    for n in 1..=3 {
        now = now.wrapping_add(781);
        let edge = LargeTimestamp::from_ticks(now);
        assert!(speedo.run(edge, &[edge]).is_none());
        assert_eq!(speedo.ok_count(), n);
    }
    let expected = [160, 240, 280, 300, 310, 315, 317, 319, 319, 320];
    for e in expected.iter() {
        now = now.wrapping_add(781);
        let edge = LargeTimestamp::from_ticks(now);
        let speed = speedo.run(edge, &[edge]);
        assert!(speed.is_some());
        let speed = speed.unwrap().as_16hz();
        assert_eq!(speed.to_q(), 320);
        assert_eq!(filter.run(speed, fx(512)).to_q(), *e);
        // A tick without an edge keeps the report.
        let later = LargeTimestamp::from_ticks(now.wrapping_add(100));
        assert_eq!(speedo.run(later, &[]).unwrap().as_16hz().to_q(), 320);
    }
    assert_eq!(speedo.ok_count(), 13);
}

#[test]
fn speedo_takes_several_edges_in_one_tick() {
    let mut speedo = Speedo::new();
    let edges = [
        LargeTimestamp::from_ticks(100),
        LargeTimestamp::from_ticks(300),
        LargeTimestamp::from_ticks(500),
        LargeTimestamp::from_ticks(700),
    ];
    let speed = speedo.run(LargeTimestamp::from_ticks(710), &edges);
    // Durations 100, 200, 200, 200: the mean is 175.
    assert_eq!(
        speed.unwrap().as_16hz().to_q(),
        MotorSpeed::from_period_dur(RelLargeTimestamp::from_ticks(175)).as_16hz().to_q()
    );
    assert_eq!(speedo.ok_count(), 4);
}

#[test]
fn speedo_drops_confidence_on_wrap() {
    let mut speedo = Speedo::new();
    let mut now: u16 = 0;
    for _ in 0..6 {
        now = now.wrapping_add(500);
        let edge = LargeTimestamp::from_ticks(now);
        assert_eq!(speedo.run(edge, &[edge]).is_some(), speedo.ok_count() >= 4);
    }
    assert_eq!(speedo.ok_count(), 6);
    // The time base has run more than half its range past the last edge.
    let late = LargeTimestamp::from_ticks(now.wrapping_add(40000));
    assert!(speedo.run(late, &[]).is_none());
    assert_eq!(speedo.ok_count(), 0);
    // An edge before the last stored one drops the confidence as well.
    let mut speedo = Speedo::new();
    let e1 = LargeTimestamp::from_ticks(1000);
    let e0 = LargeTimestamp::from_ticks(900);
    speedo.run(e1, &[e1]);
    assert_eq!(speedo.ok_count(), 1);
    speedo.run(e1, &[e0]);
    assert_eq!(speedo.ok_count(), 0);
}

#[test]
fn speedo_confidence_saturates() {
    let mut speedo = Speedo::new();
    let mut now: u16 = 0;
    for _ in 0..300 {
        now = now.wrapping_add(500);
        let edge = LargeTimestamp::from_ticks(now);
        speedo.run(edge, &[edge]);
    }
    assert_eq!(speedo.ok_count(), 255);
}

#[test]
fn setpoint_conversion() {
    assert_eq!(setpoint_to_f(0).to_q(), 0);
    assert_eq!(setpoint_to_f(51).to_q(), 318);
    assert_eq!(setpoint_to_f(100).to_q(), 625);
    assert_eq!(setpoint_to_f(511).to_q(), 3195);
    // The full code is just short of 25 units of 16 Hz.
    assert_eq!(setpoint_to_f(1023).to_q(), 6397);
}

#[test]
fn trigger_offset_conversion() {
    // No output: the whole half-wave of 10 ms.
    assert_eq!(f_to_trig_offs(fx(0)).to_q(), 2560);
    assert_eq!(f_to_trig_offs(fx(-5)).to_q(), 2560);
    assert_eq!(f_to_trig_offs(fx(3200)).to_q(), 1280);
    assert_eq!(f_to_trig_offs(fx(6400)).to_q(), 0);
    assert_eq!(f_to_trig_offs(fx(7000)).to_q(), 0);
}
