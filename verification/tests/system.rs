use motorctl::analog::ac_capture_get;
use motorctl::context::CriticalSection;
use motorctl::context::IrqCtx;
use motorctl::context::MainCtx;
use motorctl::context::MainInitCtx;
use motorctl::analog::irq_handler_ana_comp;
use motorctl::analog::AcCapture;
use motorctl::analog::AdcChannel;
use motorctl::mains::irq_handler_pcint;
use motorctl::mains::VsenseCapture;
use motorctl::shutoff::Shutoff;
use motorctl::system::SysInput;
use motorctl::system::SysOutput;
use motorctl::system::SysState;
use motorctl::system::System;
use motorctl::timer::LargeTimestamp;
use motorctl::triac::triac_apply;
use motorctl::triac::triac_timer_interrupt;
use motorctl::triac::TriacAction;
use motorctl::triac::TriacTimer;

/// Ticks between two runs of the main loop.
const STEP: u64 = 10;
/// Ticks of a mains period.
const PERIOD: u64 = 1250;
/// Ticks between two tachometer edges at 1200 revolutions per minute.
const EDGE_DIST: u64 = 781;

/// The controller with a simulated mains, motor and converter around it.
struct Bench {
    system: System,
    timer: TriacTimer,
    vsense: VsenseCapture,
    ac: AcCapture,
    /// The true time in ticks.
    time: u64,
    /// The true time of the next tachometer edge, if the motor turns.
    next_edge: Option<u64>,
    /// The channel the converter's input is switched to.
    mux: AdcChannel,
    /// The code of the setpoint channel.
    setpoint_code: u16,
    /// The code of the motor temperature channel.
    mot_temp_code: u16,
    analog_failure: bool,
    /// The true time of the last rise of the mains sense level.
    last_rise: u64,
    /// The last verdict for the secondary output.
    secondary: Option<Shutoff>,
    /// Offsets of the armed triggers from the last zero-crossing, modulo 256.
    arm_offsets: Vec<u8>,
    /// Number of trigger pulses fired.
    pulses: u32,
}

fn stamp(time: u64) -> LargeTimestamp {
    LargeTimestamp::from_ticks((time % 65536) as u16)
}

impl Bench {
    fn new(setpoint_code: u16) -> Bench {
        let mut bench = Bench {
            system: System::new(),
            timer: TriacTimer::new(),
            vsense: VsenseCapture::new(),
            ac: AcCapture::new(),
            time: 0,
            next_edge: None,
            mux: AdcChannel::Setpoint,
            setpoint_code,
            mot_temp_code: 511,
            analog_failure: false,
            last_rise: 0,
            secondary: None,
            arm_offsets: Vec::new(),
            pulses: 0,
        };
        let out = bench.system.init(&MainInitCtx::new(), stamp(0));
        bench.apply(&out);
        bench
    }

    fn apply(&mut self, out: &SysOutput) {
        if let Some(adc) = out.adc {
            if let Some(chan) = adc.update_mux {
                self.mux = chan;
            }
        }
        if out.secondary.is_some() {
            self.secondary = out.secondary;
        }
        if let Some(triac) = out.triac {
            // The requests are carried out inside one critical section.
            let armed = triac_apply(&CriticalSection::new(), &mut self.timer, &triac);
            // The timer interrupt walks through the armed pulse sequence.
            let mut next = armed;
            while let Some(at) = next {
                let step = triac_timer_interrupt(&IrqCtx::new(), &mut self.timer, at);
                if step.trigger == Some(true) {
                    self.pulses += 1;
                }
                next = step.arm;
            }
            if let Some(at) = armed {
                let zero_crossing = if self.time - self.last_rise >= PERIOD / 2 {
                    self.last_rise + PERIOD / 2
                } else {
                    self.last_rise
                };
                self.arm_offsets.push(at.ticks().wrapping_sub((zero_crossing % 256) as u8));
            }
        }
    }

    fn adc_code(&self) -> u16 {
        match self.mux {
            AdcChannel::Setpoint => self.setpoint_code,
            AdcChannel::MotTemp => self.mot_temp_code,
            AdcChannel::UcTemp => 300,
            AdcChannel::ShuntDiff => 0,
            AdcChannel::ShuntHi => 0,
        }
    }

    /// One run of the main loop, `STEP` ticks after the last one.
    fn step(&mut self) -> SysOutput {
        self.time += STEP;
        // The mains: the sense level is high in the first half of each period.
        let mut t = self.time - STEP + 1;
        while t <= self.time {
            let level = t % PERIOD < PERIOD / 2;
            if t % (PERIOD / 2) == 0 {
                if level {
                    self.last_rise = t;
                }
                irq_handler_pcint(&IrqCtx::new(), &mut self.vsense, stamp(t), level);
            }
            t += 1;
        }
        // The motor.
        if let Some(at) = self.next_edge {
            if at <= self.time {
                irq_handler_ana_comp(&IrqCtx::new(), &mut self.ac, stamp(at));
                self.next_edge = Some(at + EDGE_DIST);
            }
        }
        let edge = ac_capture_get(&CriticalSection::new(), &mut self.ac);
        let edges: Vec<LargeTimestamp> = edge.into_iter().collect();
        let inp = SysInput {
            now: stamp(self.time),
            vsense: self.vsense.vsense,
            vsense_stamp: self.vsense.stamp,
            adc_done: true,
            adc_value: self.adc_code(),
            unused_stack_bytes: 100,
            analog_failure: self.analog_failure,
        };
        let out = self.system.run(&MainCtx::new(), inp, &edges);
        self.apply(&out);
        out
    }

    fn run_for(&mut self, ticks: u64) {
        let end = self.time + ticks;
        while self.time < end {
            self.step();
        }
    }

    /// Runs until the self-test has passed, with the motor at rest.
    fn pass_self_test(&mut self) {
        let mut steps = 0;
        while self.system.get_state() == SysState::Startup
            || self.system.get_state() == SysState::PoCheck
        {
            self.step();
            steps += 1;
            assert!(steps < 100_000);
        }
        assert!(self.system.get_state() == SysState::Syncing);
    }

    fn start_motor(&mut self) {
        self.next_edge = Some(self.time + EDGE_DIST);
    }
}

const OFF: TriacAction = TriacAction { cancel: true, trigger_off: true, arm: None };

#[test]
fn system_starts_with_both_paths_off() {
    let mut system = System::new();
    assert!(system.get_state() == SysState::Startup);
    let out = system.init(&MainInitCtx::new(), stamp(0));
    assert_eq!(out.secondary, Some(Shutoff::MachineShutoff));
    assert_eq!(out.triac, Some(OFF));
    assert!(out.adc.is_some());
    assert!(system.get_state() == SysState::Startup);
}

#[test]
fn system_waits_out_the_startup_delay() {
    let mut bench = Bench::new(52);
    // 300 ms are 18750 ticks: nothing is driven during the delay.
    while bench.time < 18750 {
        let out = bench.step();
        assert!(out.secondary.is_none() && out.triac.is_none() && out.adc.is_none());
        assert!(bench.system.get_state() == SysState::Startup);
    }
    bench.step();
    assert!(bench.system.get_state() == SysState::PoCheck);
    // From now on every tick drives both paths; the first stage keeps both off.
    let out = bench.step();
    assert_eq!(out.secondary, Some(Shutoff::MachineShutoff));
    assert_eq!(out.triac, Some(OFF));
    assert!(out.max_rt.ticks() == STEP as i16);
}

#[test]
fn system_self_test_enables_one_path_at_a_time() {
    let mut bench = Bench::new(52);
    let mut arms_with_secondary_off = 0;
    let mut ticks_with_secondary_on = 0;
    let mut steps = 0;
    while bench.system.get_state() != SysState::Syncing {
        let out = bench.step();
        steps += 1;
        assert!(steps < 100_000);
        if let Some(triac) = out.triac {
            let armed = triac.arm.is_some();
            if out.secondary == Some(Shutoff::MachineRunning) {
                // The secondary path is enabled: the triac must rest.
                assert!(!armed);
                ticks_with_secondary_on += 1;
            } else if armed {
                arms_with_secondary_off += 1;
            }
        }
    }
    // Each path has been the only enabled one for a stage of 450 ms.
    assert!(ticks_with_secondary_on >= 2800 && ticks_with_secondary_on <= 2820);
    assert!(arms_with_secondary_off >= 44 && arms_with_secondary_off <= 46);
    // The settle time of the first stage runs out during the startup delay
    // of 300 ms; then come three check times of 400 ms and two settle
    // times of 50 ms: 100000 ticks and a few main loop runs.
    assert!(bench.time >= 100000 && bench.time < 100000 + 5 * STEP);
    // While the triac path was enabled, the triac fired a tenth into each half-wave.
    for offs in bench.arm_offsets.iter() {
        assert_eq!(*offs, 62);
    }
}

#[test]
fn system_self_test_fails_if_motor_turns() {
    let mut bench = Bench::new(52);
    bench.start_motor();
    bench.run_for(400_000);
    assert!(bench.system.get_state() == SysState::PoCheck);
    assert_eq!(bench.secondary, Some(Shutoff::MachineShutoff));
    assert!(bench.arm_offsets.is_empty());
    for _ in 0..1000 {
        let out = bench.step();
        assert_eq!(out.secondary, Some(Shutoff::MachineShutoff));
        assert_eq!(out.triac, Some(OFF));
    }
}

/// Setpoint just above 1200 revolutions per minute, the motor steady at
/// 1200, mains at 50 Hz: the trigger offset settles, the loop is closed,
/// and both outputs are enabled.
#[test]
fn system_end_to_end_settles() {
    let mut bench = Bench::new(52);
    bench.pass_self_test();
    bench.start_motor();
    // The integral term climbs by one raw unit per half-wave up to its limit.
    bench.run_for(40 * 62500);
    assert!(bench.system.get_state() == SysState::Running);
    bench.arm_offsets.clear();
    for _ in 0..20_000 {
        let out = bench.step();
        assert!(bench.system.get_state() == SysState::Running);
        assert_eq!(out.secondary, Some(Shutoff::MachineRunning));
        let triac = out.triac.unwrap();
        // Only a zero-crossing cancels and switches the trigger output off.
        assert!(triac.cancel == triac.trigger_off);
    }
    // One trigger per half-wave, always at the same offset of 5.1 ms.
    assert!(bench.arm_offsets.len() >= 318 && bench.arm_offsets.len() <= 322);
    for offs in bench.arm_offsets.iter() {
        assert_eq!(*offs, (319 % 256) as u8);
    }
    // In the middle of the half-wave each sequence is a single pulse.
    assert_eq!(bench.timer.count, 0);
    assert!(bench.pulses as usize >= bench.arm_offsets.len());
}

/// Setpoint just below the motor's speed: the controller output stays at
/// zero, the triac rests, and both verdicts still let the machine run.
#[test]
fn system_end_to_end_rests_below_speed() {
    let mut bench = Bench::new(51);
    bench.pass_self_test();
    bench.start_motor();
    bench.run_for(10 * 62500);
    assert!(bench.system.get_state() == SysState::Running);
    bench.arm_offsets.clear();
    for _ in 0..20_000 {
        let out = bench.step();
        assert_eq!(out.secondary, Some(Shutoff::MachineRunning));
        assert!(bench.system.get_state() == SysState::Running);
    }
    assert!(bench.arm_offsets.is_empty());
}

#[test]
fn system_falls_back_to_syncing() {
    let mut bench = Bench::new(52);
    bench.pass_self_test();
    bench.start_motor();
    bench.run_for(4 * 62500);
    assert!(bench.system.get_state() == SysState::Running);
    // The setpoint drops below 1000 revolutions per minute.
    bench.setpoint_code = 10;
    bench.run_for(2 * 62500);
    // Each speed reading closes the loop again, each 90 degree point opens it.
    let mut syncing = 0;
    for _ in 0..2000 {
        bench.step();
        if bench.system.get_state() == SysState::Syncing {
            syncing += 1;
        }
    }
    assert!(syncing > 0);
    assert_eq!(bench.secondary, Some(Shutoff::MachineRunning));
}

#[test]
fn system_shuts_off_on_analog_failure() {
    let mut bench = Bench::new(52);
    bench.pass_self_test();
    bench.start_motor();
    bench.run_for(4 * 62500);
    assert_eq!(bench.secondary, Some(Shutoff::MachineRunning));
    bench.analog_failure = true;
    let out = bench.step();
    assert_eq!(out.secondary, Some(Shutoff::MachineShutoff));
    assert_eq!(out.triac, Some(OFF));
    assert_eq!(bench.timer.count, 0);
    // The fault is sticky.
    bench.analog_failure = false;
    for _ in 0..50_000 {
        let out = bench.step();
        assert_eq!(out.secondary, Some(Shutoff::MachineShutoff));
        assert_eq!(out.triac, Some(OFF));
    }
}

#[test]
fn system_shuts_off_when_motor_is_hot() {
    let mut bench = Bench::new(52);
    bench.pass_self_test();
    bench.start_motor();
    bench.run_for(4 * 62500);
    assert_eq!(bench.secondary, Some(Shutoff::MachineRunning));
    bench.mot_temp_code = 0;
    bench.run_for(62500);
    assert_eq!(bench.secondary, Some(Shutoff::MachineShutoff));
    // Cooling down lifts the temperature shutoff: it is not sticky.
    bench.mot_temp_code = 511;
    bench.run_for(62500);
    assert_eq!(bench.secondary, Some(Shutoff::MachineRunning));
}

#[test]
fn system_shuts_off_without_mains() {
    let mut bench = Bench::new(52);
    bench.pass_self_test();
    // No mains tick for more than 100 ms: the time runs on without edges.
    let mut out = None;
    for _ in 0..1500 {
        bench.time += STEP;
        let inp = SysInput {
            now: stamp(bench.time),
            vsense: bench.vsense.vsense,
            vsense_stamp: bench.vsense.stamp,
            adc_done: true,
            adc_value: bench.adc_code(),
            unused_stack_bytes: 100,
            analog_failure: false,
        };
        let o = bench.system.run(&MainCtx::new(), inp, &[]);
        bench.apply(&o);
        out = Some(o);
    }
    assert_eq!(out.unwrap().secondary, Some(Shutoff::MachineShutoff));
}

#[test]
fn system_first_tick_is_determined() {
    // Without an initialisation every instant of a new system is zero: the
    // delay after power-on has run out at the first tick after instant zero.
    let mut system = System::new();
    let inp = SysInput {
        now: stamp(1),
        vsense: false,
        vsense_stamp: stamp(0),
        adc_done: false,
        adc_value: 0,
        unused_stack_bytes: 100,
        analog_failure: false,
    };
    let out = system.run(&MainCtx::new(), inp, &[]);
    assert!(out.secondary.is_none() && out.triac.is_none() && out.adc.is_none());
    assert_eq!(out.max_rt.ticks(), 1);
    assert!(system.get_state() == SysState::PoCheck);
    // The self-test starts in its first stage with both paths off, and no
    // converter channel is enabled.
    let inp = SysInput { now: stamp(2), ..inp };
    let out = system.run(&MainCtx::new(), inp, &[]);
    assert_eq!(out.secondary, Some(Shutoff::MachineShutoff));
    assert_eq!(out.triac, Some(OFF));
    assert_eq!(out.adc.unwrap().update_mux, None);
    assert!(!out.adc.unwrap().start_conversion);
    assert!(system.get_state() == SysState::PoCheck);
}
