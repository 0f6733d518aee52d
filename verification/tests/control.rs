//! PID behaviour, the mode cascade, alignment and the duty-cycle path on
//! concrete values.

use foc::foc::{Foc, MotionControl, ratchet_target};
use foc::fx::{Fx, PI_BITS, TWO_PI_BITS};
use foc::motor::{normalize_angle, DutyCycle, MotorError, ThreePhasePwm, BLDC};
use foc::pid::{PIDController, VelocityPID};
use foc::sensor::SensorHardware;
use foc::time::{Duration, Instant};
use foc::velocity::Velocity;

/// An angle source that replays a fixed list of readings, then fails.
struct Script {
    readings: Vec<i32>,
    next: usize,
}

impl Script {
    fn new(readings: Vec<i32>) -> Script {
        Script { readings, next: 0 }
    }
}

impl SensorHardware for Script {
    type Error = u8;

    fn read_angle(&mut self) -> Result<Fx, u8> {
        match self.readings.get(self.next) {
            Some(&bits) => {
                self.next += 1;
                Ok(Fx::from_bits(bits))
            }
            None => Err(9),
        }
    }
}

/// A duty-cycle channel that remembers the last committed percentage.
#[derive(Debug, Clone, PartialEq)]
struct DutyLog {
    last: u16,
    fail: bool,
}

impl DutyLog {
    fn new() -> DutyLog {
        // A sentinel no commit can produce.
        DutyLog { last: 777, fail: false }
    }
}

impl DutyCycle for DutyLog {
    type Error = &'static str;

    fn set_duty_cycle(&mut self, percent: u16) -> Result<(), &'static str> {
        if self.fail {
            return Err("channel dead");
        }
        self.last = percent;
        Ok(())
    }
}

fn pwm() -> ThreePhasePwm<DutyLog> {
    ThreePhasePwm { a: DutyLog::new(), b: DutyLog::new(), c: DutyLog::new() }
}

const SEC: Duration = Duration { micros: 1_000_000 };

#[test]
fn pid_proportional_only_steps() {
    // p = 1, i = d = 0: output is exactly the error, twice in a row.
    let mut c = PIDController::new().p(Fx::from_int(1));
    let out = c.compute(Fx::from_int(10), Fx::zero(), SEC);
    assert_eq!(out, Fx::from_int(10));
    let out = c.compute(Fx::from_int(10), Fx::from_int(1), SEC);
    assert_eq!(out, Fx::from_int(9));
}

#[test]
fn pid_zero_gains_zero_error_is_quiescent() {
    let mut c = PIDController::new();
    let before = c;
    let out = c.compute(Fx::from_int(5), Fx::from_int(5), SEC);
    assert_eq!(out, Fx::zero());
    assert_eq!(c, before);
}

#[test]
fn pid_zero_i_gain_keeps_any_integral() {
    // Run an integrating controller, then freeze the integral gain: the
    // stored integral survives further steps untouched.
    let mut c = PIDController::new().i(Fx::from_int(1)).limit(Fx::from_int(10));
    c.compute(Fx::from_int(2), Fx::zero(), SEC);
    let held = c.state.integral;
    assert_eq!(held, Fx::from_int(1));
    let mut frozen = c.i(Fx::zero());
    frozen.compute(Fx::from_int(7), Fx::from_int(-3), SEC);
    assert_eq!(frozen.state.integral, held);
}

#[test]
fn pid_trapezoid_integration() {
    // i = 1 over one second with error 2 then 2: the trapezoid adds
    // 0.5 * (2 + 0) = 1, then 0.5 * (2 + 2) = 2.
    let mut c = PIDController::new().i(Fx::from_int(1)).limit(Fx::from_int(100));
    let out = c.compute(Fx::from_int(2), Fx::zero(), SEC);
    assert_eq!(out, Fx::from_int(1));
    let out = c.compute(Fx::from_int(2), Fx::zero(), SEC);
    assert_eq!(out, Fx::from_int(3));
}

#[test]
fn pid_integral_clamps_at_the_limit() {
    let mut c = PIDController::new().i(Fx::from_int(10)).limit(Fx::from_int(1));
    for _ in 0..5 {
        c.compute(Fx::from_int(4), Fx::zero(), SEC);
    }
    assert_eq!(c.state.integral, Fx::from_int(1));
    assert_eq!(c.state.output, Fx::from_int(1));
}

#[test]
fn pid_derivative_term() {
    // d = 1: first step sees the error jump 0 -> 3 over one second.
    let mut c = PIDController::new().d(Fx::from_int(1));
    let out = c.compute(Fx::from_int(3), Fx::zero(), SEC);
    assert_eq!(out, Fx::from_int(3));
    // Constant error: the derivative term vanishes.
    let out = c.compute(Fx::from_int(3), Fx::zero(), SEC);
    assert_eq!(out, Fx::zero());
}

#[test]
fn pid_ramp_bounds_the_output_slew() {
    // p = 1, ramp = 1 per second: a step of 10 is let through only one
    // unit per second.
    let mut c = PIDController::new().p(Fx::from_int(1)).ramp(Fx::from_int(1));
    let out = c.compute(Fx::from_int(10), Fx::zero(), SEC);
    assert_eq!(out, Fx::from_int(1));
    let out = c.compute(Fx::from_int(10), Fx::zero(), SEC);
    assert_eq!(out, Fx::from_int(2));
    // And back down.
    let out = c.compute(Fx::from_int(-10), Fx::zero(), SEC);
    assert_eq!(out, Fx::from_int(1));
}

#[test]
fn velocity_pid_wraps_the_scalar_controller() {
    let mut v = VelocityPID::new(PIDController::new().p(Fx::from_int(1)));
    let out = v.compute(
        Velocity::per_sec(Fx::from_int(10)),
        Velocity::per_sec(Fx::from_int(4)),
        SEC,
    );
    assert_eq!(out.as_secs(), Fx::from_int(6));
    let retuned = v.update(|p| p.p(Fx::from_int(2)));
    assert_eq!(retuned.0.p, Fx::from_int(2));
}

#[test]
fn volt_to_percent_clamps_exactly() {
    let vmax = Fx::from_int(12);
    assert_eq!(ThreePhasePwm::<DutyLog>::volt_to_percent(Fx::from_int(-3), vmax), 0);
    assert_eq!(ThreePhasePwm::<DutyLog>::volt_to_percent(Fx::zero(), vmax), 0);
    assert_eq!(ThreePhasePwm::<DutyLog>::volt_to_percent(Fx::from_int(12), vmax), 100);
    assert_eq!(ThreePhasePwm::<DutyLog>::volt_to_percent(Fx::from_int(50), vmax), 100);
    assert_eq!(ThreePhasePwm::<DutyLog>::volt_to_percent(Fx::from_int(6), vmax), 50);
    assert_eq!(ThreePhasePwm::<DutyLog>::volt_to_percent(Fx::from_int(4), vmax), 33);
}

#[test]
fn set_duty_commits_in_order_and_keeps_earlier_channels_on_failure() {
    let mut p = pwm();
    p.b.fail = true;
    let r = p.set_duty((10, 20, 30));
    assert_eq!(r, Err("channel dead"));
    // The first channel was committed and is not rolled back; the third
    // was never reached.
    assert_eq!(p.a.last, 10);
    assert_eq!(p.c.last, 777);
}

#[test]
fn normalize_angle_folds_into_one_turn() {
    assert_eq!(normalize_angle(Fx::from_bits(-1)).bits, TWO_PI_BITS - 1);
    assert_eq!(normalize_angle(Fx::from_bits(TWO_PI_BITS + 5)).bits, 5);
    assert_eq!(normalize_angle(Fx::from_bits(7)).bits, 7);
    assert_eq!(normalize_angle(Fx::from_bits(-TWO_PI_BITS)).bits, 0);
}

#[test]
fn electrical_angle_scales_and_offsets() {
    let mut motor = BLDC::new(pwm(), 7).with_sensor(Script::new(vec![1000]));
    motor.sensor_mut().update(Instant::from_micros(1000)).unwrap();
    assert_eq!(motor.electrical_angle().bits, 7000);
    motor.zero_electrical_angle = Some(Fx::from_bits(500));
    assert_eq!(motor.electrical_angle().bits, 6500);
}

#[test]
fn phase_voltage_round_trips_the_rotor_command() {
    // Inverse-rotate (q, d) at many angles across the turn, then undo the
    // expansion and the rotation in floating point: the command comes back
    // within the cordic and truncation tolerance. This fails loudly if the
    // trigonometry were a pass-through of its argument.
    let motor = BLDC::new(pwm(), 7);
    let q = Fx::from_int(2);
    let d = Fx::from_int(1);
    for k in 0..63 {
        let angle_bits = k * 6554; // about 0.1 rad per step
        let (a, b, c) = motor.phase_voltage(q, d, Fx::from_bits(angle_bits));
        let (av, bv, cv) = (
            a.bits as f64 / 65536.0,
            b.bits as f64 / 65536.0,
            c.bits as f64 / 65536.0,
        );
        let alpha = (2.0 * av - bv - cv) / 3.0;
        let beta = (bv - cv) / 3.0_f64.sqrt();
        let angle = angle_bits as f64 / 65536.0;
        let (sin, cos) = (angle.sin(), angle.cos());
        let q_back = cos * beta - sin * alpha;
        let d_back = cos * alpha + sin * beta;
        assert!((q_back - 2.0).abs() < 0.02, "angle {k}: q came back as {q_back}");
        assert!((d_back - 1.0).abs() < 0.02, "angle {k}: d came back as {d_back}");
    }
}

#[test]
fn zero_command_centers_all_duties() {
    // Velocity mode with a zero target from rest commands (0, 0): all
    // three phases sit at half the supply, 50 percent duty.
    let motor = BLDC::new(pwm(), 7).with_sensor(Script::new(vec![0]));
    let mut drive = Foc::new(motor).to_velocity(Velocity::zero());
    drive.tick(Instant::from_micros(1000)).unwrap();
    assert_eq!(drive.motor.pwm.a.last, 50);
    assert_eq!(drive.motor.pwm.b.last, 50);
    assert_eq!(drive.motor.pwm.c.last, 50);
}

#[test]
fn torque_mode_drives_the_q_axis() {
    let motor = BLDC::new(pwm(), 7).with_sensor(Script::new(vec![0]));
    let mut drive = Foc::new(motor).to_torque(Fx::from_int(6));
    drive.tick(Instant::from_micros(1000)).unwrap();
    // At electrical angle zero the command lands mostly on beta: the
    // second phase rises above the third.
    assert!(drive.motor.pwm.a.last <= 100);
    assert!(drive.motor.pwm.b.last > drive.motor.pwm.c.last);
    assert_ne!(drive.motor.pwm.b.last, 777);
}

#[test]
fn angle_mode_dead_band_commits_nothing() {
    // Target pi/2, reading 0.01 rad short of it: inside the 3e-2 dead-band
    // the tick leaves the committed duties and both controllers untouched.
    let target = Fx::from_bits(102944);
    let motor = BLDC::new(pwm(), 7).with_sensor(Script::new(vec![102944 - 655]));
    let mut drive = Foc::new(motor).to_angle(target);
    let vpid_before = drive.velocity_pid;
    let apid_before = drive.angle_pid;
    drive.tick(Instant::from_micros(1000)).unwrap();
    assert_eq!(drive.motor.pwm.a.last, 777);
    assert_eq!(drive.motor.pwm.b.last, 777);
    assert_eq!(drive.motor.pwm.c.last, 777);
    assert_eq!(drive.velocity_pid, vpid_before);
    assert_eq!(drive.angle_pid, apid_before);
}

#[test]
fn angle_mode_acts_outside_the_dead_band() {
    let target = Fx::from_bits(102944);
    let motor = BLDC::new(pwm(), 7).with_sensor(Script::new(vec![102944 - 6554]));
    let mut drive = Foc::new(motor).to_angle(target);
    drive.tick(Instant::from_micros(1000)).unwrap();
    assert_ne!(drive.motor.pwm.a.last, 777);
}

#[test]
fn ratchet_finds_the_nearest_detent() {
    // Four detents, a quarter turn each; at 0.1 rad the nearest is zero.
    assert_eq!(ratchet_target(Fx::from_bits(6554), Fx::from_bits(102943)).bits, 0);
    // Past half a step the next detent wins.
    assert_eq!(
        ratchet_target(Fx::from_bits(60000), Fx::from_bits(102943)).bits,
        102943
    );
    // Rounding is symmetric around zero.
    assert_eq!(
        ratchet_target(Fx::from_bits(-60000), Fx::from_bits(102943)).bits,
        -102943
    );
}

#[test]
fn ratchet_mode_configures_geometry_and_gains() {
    let motor = BLDC::new(pwm(), 7).with_sensor(Script::new(vec![6554]));
    let mut drive = Foc::new(motor).to_ratchet(4);
    match drive.motion_control {
        MotionControl::Ratchet(rs) => {
            assert_eq!(rs.steps, 4);
            assert_eq!(rs.rad_per_step.bits, TWO_PI_BITS / 4);
        }
        _ => panic!("ratchet mode expected"),
    }
    assert_eq!(drive.angle_pid.p, Fx::from_int(240));
    assert_eq!(drive.velocity_pid.0.p, Fx::from_bits(1966));
    assert_eq!(drive.velocity_pid.0.i, Fx::zero());
    // 0.1 rad away from the zero detent is outside the 1e-2 dead-band:
    // the tick commits a correction.
    drive.tick(Instant::from_micros(1000)).unwrap();
    assert_ne!(drive.motor.pwm.a.last, 777);
}

#[test]
fn ratchet_mode_dead_band_commits_nothing() {
    let motor = BLDC::new(pwm(), 7).with_sensor(Script::new(vec![300]));
    let mut drive = Foc::new(motor).to_ratchet(4);
    drive.tick(Instant::from_micros(1000)).unwrap();
    assert_eq!(drive.motor.pwm.a.last, 777);
}

#[test]
fn limit_pos_mode_tick_is_fatal() {
    let motor = BLDC::new(pwm(), 7).with_sensor(Script::new(vec![0]));
    let mut drive = Foc::new(motor).to_limit_pos(Fx::zero(), Fx::from_int(1));
    let r = drive.tick(Instant::from_micros(1000));
    assert!(matches!(r, Err(MotorError::UnimplementedMode)));
    assert_eq!(drive.motor.pwm.a.last, 777);
}

#[test]
fn sensor_failure_aborts_the_tick() {
    let motor = BLDC::new(pwm(), 7).with_sensor(Script::new(vec![]));
    let mut drive = Foc::new(motor).to_velocity(Velocity::zero());
    let vpid_before = drive.velocity_pid;
    let r = drive.tick(Instant::from_micros(1000));
    assert!(matches!(r, Err(MotorError::Sensor(9))));
    assert_eq!(drive.velocity_pid, vpid_before);
    assert_eq!(drive.motor.pwm.a.last, 777);
}

#[test]
fn pwm_failure_is_reported() {
    let mut channels = pwm();
    channels.a.fail = true;
    let motor = BLDC::new(channels, 7).with_sensor(Script::new(vec![0]));
    let mut drive = Foc::new(motor).to_torque(Fx::from_int(3));
    let r = drive.tick(Instant::from_micros(1000));
    assert!(matches!(r, Err(MotorError::Pwm("channel dead"))));
}

#[test]
fn calculate_qd_without_motor_parameters() {
    // No Kv, resistance or inductance: q is the clamped target itself and
    // d is exactly zero.
    let motor = BLDC::new(pwm(), 7).with_sensor(Script::new(vec![]));
    let drive = Foc::new(motor);
    let (q, d) = drive.calculate_qd(Velocity::per_sec(Fx::from_int(5)));
    assert_eq!(q, Fx::from_int(5));
    assert_eq!(d, Fx::zero());
    // The voltage limit clamps a large target.
    let (q, _) = drive.calculate_qd(Velocity::per_sec(Fx::from_int(100)));
    assert_eq!(q, Fx::from_int(12));
    let (q, _) = drive.calculate_qd(Velocity::per_sec(Fx::from_int(-100)));
    assert_eq!(q, Fx::from_int(-12));
}

#[test]
fn calculate_qd_with_motor_parameters() {
    // Resistance 2 ohm, target 3 rad/s, standing still: q = 6 V. With an
    // inductance configured but zero measured velocity, d stays zero.
    let motor = BLDC::new(pwm(), 7)
        .with_voltage_limit(Fx::from_int(12))
        .with_phase_resistance(Fx::from_int(2))
        .with_phase_inductance(Fx::from_bits(66))
        .with_kv(Fx::from_int(220))
        .with_sensor(Script::new(vec![]));
    let drive = Foc::new(motor);
    let (q, d) = drive.calculate_qd(Velocity::per_sec(Fx::from_int(3)));
    assert_eq!(q, Fx::from_int(6));
    assert_eq!(d, Fx::zero());
}

#[test]
fn alignment_discovers_the_offset_and_resets_the_sensor() {
    let motor = BLDC::new(pwm(), 7).with_sensor(Script::new(vec![1000, 5000]));
    let mut motor = motor;
    let before = motor.align_start(Instant::from_micros(1000)).unwrap();
    assert_eq!(before.bits, 7000);
    // The forcing pulse was committed: half the 12 V supply on the q axis
    // at 1.5 * pi puts about 10.5 V on the first phase and 1.5 V on the
    // other two, i.e. duties near 87 / 12 / 12.
    assert!((86..=88).contains(&motor.pwm.a.last));
    assert!((11..=13).contains(&motor.pwm.b.last));
    assert!((11..=13).contains(&motor.pwm.c.last));
    motor.align_finish(before, Instant::from_micros(800_000)).unwrap();
    assert_eq!(motor.zero_electrical_angle, Some(Fx::from_bits(35000)));
    // Turns and velocity picked up during the pulse are dropped.
    assert_eq!(motor.sensor.state.full_rotations, 0);
    assert_eq!(motor.sensor.state.velocity, Velocity::zero());
}

#[test]
fn alignment_fails_when_the_rotor_does_not_move() {
    let motor = BLDC::new(pwm(), 7).with_sensor(Script::new(vec![1000, 1000]));
    let mut motor = motor;
    let before = motor.align_start(Instant::from_micros(1000)).unwrap();
    let r = motor.align_finish(before, Instant::from_micros(800_000));
    assert!(matches!(r, Err(MotorError::Alignment)));
    assert_eq!(motor.zero_electrical_angle, None);
}

#[test]
fn alignment_pulse_failure_is_a_pwm_error() {
    let mut channels = pwm();
    channels.c.fail = true;
    let mut motor = BLDC::new(channels, 7).with_sensor(Script::new(vec![1000]));
    let r = motor.align_start(Instant::from_micros(1000));
    assert!(matches!(r, Err(MotorError::Pwm("channel dead"))));
    // The first two channels were committed before the failure and stay.
    assert_ne!(motor.pwm.a.last, 777);
    assert_ne!(motor.pwm.b.last, 777);
}

#[test]
fn open_loop_integrates_the_shaft_angle() {
    let motor = BLDC::new(pwm(), 7);
    let mut drive = motor.open_loop(Fx::from_bits(PI_BITS), Instant::from_micros(0));
    drive.tick(Instant::from_micros(1_000_000)).unwrap();
    assert_eq!(drive.shaft_angle.bits, PI_BITS);
    assert_eq!(drive.prev_tick, Instant::from_micros(1_000_000));
    assert_ne!(drive.motor.pwm.a.last, 777);
    drive.tick(Instant::from_micros(2_000_000)).unwrap();
    assert_eq!(drive.shaft_angle.bits, 2 * PI_BITS);
}

#[test]
fn open_loop_velocity_is_adjustable() {
    let motor = BLDC::new(pwm(), 7);
    let mut drive = motor.open_loop(Fx::from_int(2), Instant::from_micros(0));
    assert_eq!(drive.velocity(), Fx::from_int(2));
    drive.update_velocity(Fx::from_int(1));
    assert_eq!(drive.velocity(), Fx::from_int(3));
    drive.set_velocity(Fx::from_int(-4));
    assert_eq!(drive.velocity(), Fx::from_int(-4));
    let motor = drive.into_inner();
    assert_eq!(motor.pole_pairs, 7);
}

#[test]
fn velocity_scales_by_a_factor() {
    let v = Velocity::per_sec(Fx::from_int(3)).mul(Fx::from_int(2));
    assert_eq!(v.as_secs(), Fx::from_int(6));
}

#[test]
fn motor_hands_itself_to_the_controller() {
    let motor = BLDC::new(pwm(), 7).with_sensor(Script::new(vec![0]));
    let drive = motor.foc();
    assert!(matches!(drive.motion_control, MotionControl::Velocity(_)));
    assert_eq!(drive.motor.pole_pairs, 7);
}

#[test]
fn builder_chain_sets_every_parameter() {
    let motor = BLDC::new(pwm(), 11)
        .with_voltage_limit(Fx::from_int(10))
        .with_voltage_power_supply(Fx::from_int(24))
        .with_kv(Fx::from_int(220))
        .with_phase_resistance(Fx::from_bits(150732))
        .with_phase_inductance(Fx::from_bits(56))
        .with_sensor(Script::new(vec![]));
    assert_eq!(motor.voltage_limit, Fx::from_int(10));
    assert_eq!(motor.voltage_power_supply, Fx::from_int(24));
    assert_eq!(motor.kv, Some(Fx::from_int(220)));
    assert_eq!(motor.phase_resistance, Some(Fx::from_bits(150732)));
    assert_eq!(motor.phase_inductance, Some(Fx::from_bits(56)));
    assert_eq!(motor.pole_pairs, 11);
    assert_eq!(motor.sensor().state().full_rotations(), 0);
}
