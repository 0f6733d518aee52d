//! The motion-control state machine. Every tick refreshes the sensor, runs
//! the cascade the active mode asks for, turns the resulting rotor-frame
//! voltage command into three phase voltages and commits them as duty
//! cycles.

use vstd::prelude::*;
use crate::fx::{abs_v, clamp_v, div_trunc, fx_add_v, fx_div_v, fx_mul_v, fx_sub_v, sat32, Fx};
use crate::fx::TWO_PI_BITS;
use crate::motor::{
    electrical_angle_v, phase_voltage_v, volt_to_percent_v, DutyCycle, MotorError, BLDC,
};
use crate::pid::{pid_after_v, pid_compute_v, PIDController, VelocityPID};
use crate::sensor::{record_spec, Sensor, SensorHardware};
use crate::time::{dur_secs_v, Instant};
use crate::velocity::{Velocity, RPM_TO_RAD_BITS};

verus! {

/// Dead-band of the angle mode: `3e-2` radians in Q16.16 bits.
pub const ANGLE_DEADBAND_BITS: i32 = 1966;

/// Dead-band of the ratchet mode: `1e-2` radians in Q16.16 bits.
pub const RATCHET_DEADBAND_BITS: i32 = 655;

/// `sqrt(3)` in Q16.16 bits.
pub const SQRT3_BITS: i32 = 113512;

/// Fixed geometry of the ratchet mode: the circle is divided into `steps`
/// detents of `rad_per_step` radians each.
#[derive(Clone, Copy, Debug, PartialEq, Eq, Structural)]
pub struct RatchetState {
    /// Number of detents on the circle.
    pub steps: u8,
    /// Angle between two detents.
    pub rad_per_step: Fx,
}

/// What the controller drives toward on every tick.
#[derive(Clone, Copy, Debug, PartialEq, Eq, Structural)]
pub enum MotionControl {
    /// Hold a target angular velocity.
    Velocity(Velocity),
    /// Hold a target continuous angle, in radians.
    Angle(Fx),
    /// Drive a torque-equivalent command straight into the voltage
    /// computation, bypassing both PID stages.
    Torque(Fx),
    /// Snap to the nearest of a fixed set of detents.
    Ratchet(RatchetState),
    /// Keep the position between two bounds. Configurable but without
    /// tick behaviour: ticking in this mode fails fatally.
    LimitPos(Fx, Fx),
}

/// The field-oriented controller: a motor, the active mode and the two
/// cascaded PID controllers.
pub struct Foc<H, P> {
    /// The driven motor.
    pub motor: BLDC<H, P>,
    /// The active motion-control mode.
    pub motion_control: MotionControl,
    /// Velocity-domain controller.
    pub velocity_pid: VelocityPID,
    /// Angle-domain controller.
    pub angle_pid: PIDController,
}

/// The rotor-frame voltage command for a torque-equivalent target, over the
/// motor's configured parameters: per-phase voltage for the target plus
/// back-EMF compensation on the q axis when resistance and Kv are known,
/// inductance compensation on the d axis when the inductance is known, both
/// clamped to the voltage limit.
pub open spec fn calculate_qd_v<H, P>(m: BLDC<H, P>, target: int) -> (int, int) {
    let current = m.sensor.state.velocity@;
    let bemf = match m.kv {
        Some(kv) => fx_div_v(
            fx_div_v(current, fx_mul_v(kv@, SQRT3_BITS as int)),
            RPM_TO_RAD_BITS as int,
        ),
        None => 0,
    };
    let q0 = match m.phase_resistance {
        Some(r) => fx_add_v(fx_mul_v(target, r@), bemf),
        None => target,
    };
    let q = clamp_v(q0, -m.voltage_limit@, m.voltage_limit@);
    let d0 = match m.phase_inductance {
        Some(l) => fx_mul_v(
            fx_mul_v(fx_mul_v(sat32(-target), current), m.pole_pairs as int * 65536),
            l@,
        ),
        None => 0,
    };
    let d = clamp_v(d0, -m.voltage_limit@, m.voltage_limit@);
    (q, d)
}

/// The detent nearest to `total`: `total / step` rounded to the nearest
/// whole number, half away from zero, times `step`.
pub open spec fn round_div(a: int, b: int) -> int {
    if a >= 0 {
        (2 * a + b) / (2 * b)
    } else {
        -((2 * (-a) + b) / (2 * b))
    }
}

/// The ratchet target for a continuous angle: the nearest multiple of
/// `step`.
pub open spec fn ratchet_target_v(total: int, step: int) -> int {
    sat32(round_div(total, step) * step)
}

/// What one control step decides, before it is committed: whether the
/// mode is unimplemented, whether the dead-band suppresses the tick, and
/// otherwise the rotor-frame command and the two controllers as the step
/// leaves them.
pub struct ControlStep {
    /// The mode has no tick behaviour.
    pub fatal: bool,
    /// Inside a dead-band: nothing is touched, nothing committed.
    pub skip: bool,
    /// Commanded q-axis voltage.
    pub volt_q: int,
    /// Commanded d-axis voltage.
    pub volt_d: int,
    /// The velocity-domain controller after the step.
    pub velocity_pid: PIDController,
    /// The angle-domain controller after the step.
    pub angle_pid: PIDController,
}

/// The whole decision of one control step, over the state the sensor
/// refresh left behind.
pub open spec fn control_step_v<H, P>(f: Foc<H, P>) -> ControlStep {
    let st = f.motor.sensor.state;
    let dt = dur_secs_v(st.prev.dt@);
    let total = crate::sensor::total_angle_v(st.full_rotations as int, st.angle@);
    let unchanged = ControlStep {
        fatal: false,
        skip: false,
        volt_q: 0,
        volt_d: 0,
        velocity_pid: f.velocity_pid.0,
        angle_pid: f.angle_pid,
    };
    match f.motion_control {
        MotionControl::LimitPos(low, high) => ControlStep { fatal: true, ..unchanged },
        MotionControl::Torque(t) => {
            let qd = calculate_qd_v(f.motor, t@);
            ControlStep { volt_q: qd.0, volt_d: qd.1, ..unchanged }
        },
        MotionControl::Velocity(tv) => {
            let torque = pid_compute_v(f.velocity_pid.0, tv@, st.velocity@, dt).0;
            let qd = calculate_qd_v(f.motor, torque);
            ControlStep {
                volt_q: qd.0,
                volt_d: qd.1,
                velocity_pid: pid_after_v(f.velocity_pid.0, tv@, st.velocity@, dt),
                ..unchanged
            }
        },
        MotionControl::Angle(t) => {
            if sat32(abs_v(fx_sub_v(t@, total))) < ANGLE_DEADBAND_BITS as int {
                ControlStep { skip: true, ..unchanged }
            } else {
                let vt = pid_compute_v(f.angle_pid, t@, total, dt).0;
                let torque = pid_compute_v(f.velocity_pid.0, vt, st.velocity@, dt).0;
                let qd = calculate_qd_v(f.motor, torque);
                ControlStep {
                    volt_q: qd.0,
                    volt_d: qd.1,
                    velocity_pid: pid_after_v(f.velocity_pid.0, vt, st.velocity@, dt),
                    angle_pid: pid_after_v(f.angle_pid, t@, total, dt),
                    ..unchanged
                }
            }
        },
        MotionControl::Ratchet(rs) => {
            let target = ratchet_target_v(total, rs.rad_per_step@);
            if sat32(abs_v(fx_sub_v(target, total))) < RATCHET_DEADBAND_BITS as int {
                ControlStep { skip: true, ..unchanged }
            } else {
                let vt = pid_compute_v(f.angle_pid, target, total, dt).0;
                let raw = pid_compute_v(f.velocity_pid.0, vt, st.velocity@, dt).0;
                let lo = sat32(-f.motor.velocity_limit@);
                let hi = f.motor.velocity_limit@;
                let torque = if raw < lo {
                    lo
                } else if raw > hi {
                    hi
                } else {
                    raw
                };
                let qd = calculate_qd_v(f.motor, torque);
                ControlStep {
                    volt_q: qd.0,
                    volt_d: qd.1,
                    velocity_pid: pid_after_v(f.velocity_pid.0, vt, st.velocity@, dt),
                    angle_pid: pid_after_v(f.angle_pid, target, total, dt),
                    ..unchanged
                }
            }
        },
    }
}

/// The duty percentages one control step commits under the given supply
/// and electrical angle.
pub open spec fn step_duties_v(supply: int, step: ControlStep, angle: int) -> (int, int, int) {
    let v = phase_voltage_v(supply, step.volt_q, step.volt_d, angle);
    (
        volt_to_percent_v(v.0, supply),
        volt_to_percent_v(v.1, supply),
        volt_to_percent_v(v.2, supply),
    )
}

/// The detent nearest to `total` for a positive step width: `total / step`
/// rounded half away from zero, scaled back up and saturated.
pub fn ratchet_target(total: Fx, step: Fx) -> (r: Fx)
    requires
        step@ > 0,
    ensures
        r@ == ratchet_target_v(total@, step@),
{
    let a: i64 = total.bits as i64;
    let b: i64 = step.bits as i64;
    let k: i64 = if a >= 0 {
        (2 * a + b) / (2 * b)
    } else {
        -((2 * (-a) + b) / (2 * b))
    };
    proof {
        let n: int = if a >= 0 {
            2 * (a as int) + b
        } else {
            2 * (-(a as int)) + b
        };
        vstd::arithmetic::div_mod::lemma_div_pos_is_pos(n, 2 * (b as int));
        vstd::arithmetic::div_mod::lemma_div_is_ordered(n, 0x180000000, 2 * (b as int));
        vstd::arithmetic::div_mod::lemma_div_is_ordered_by_denominator(
            0x180000000,
            2,
            2 * (b as int),
        );
        assert(-0xc0000000 <= k as int <= 0xc0000000);
        assert(-0x6000000000000000 <= (k as int) * (b as int) <= 0x6000000000000000)
            by (nonlinear_arith)
            requires
                -0xc0000000 <= k as int <= 0xc0000000,
                0 < b as int <= 0x80000000,
        ;
    }
    let kb: i64 = k * b;
    Fx::from_bits(crate::fx::sat32_i64(kb))
}

impl<H, P> BLDC<H, P> {
    /// Hand the motor to a field-oriented controller with the default
    /// cascade.
    pub fn foc(self) -> (r: Foc<H, P>)
        requires
            self.wf(),
        ensures
            r.motor == self,
            r.wf(),
    {
        Foc::new(self)
    }
}

impl<H, P> Foc<H, P> {
    /// The motor is sound, both controllers carry usable limits, and a
    /// configured ratchet has a positive step width.
    pub open spec fn wf(self) -> bool {
        &&& self.motor.wf()
        &&& self.velocity_pid.0.wf()
        &&& self.angle_pid.wf()
        &&& (self.motion_control matches MotionControl::Ratchet(rs) ==> rs.rad_per_step@ > 0)
    }

    /// Wrap a motor with the default cascade and a zero-velocity target.
    /// The velocity controller is a gentle PI stage (p = 0.02, i = 3,
    /// output slewed at 1000 per second and bounded at 12 V); the angle
    /// controller a pure P stage (p = 10, bounded at 10). The ensured
    /// values are those gains in Q16.16 bits.
    pub fn new(motor: BLDC<H, P>) -> (r: Foc<H, P>)
        requires
            motor.wf(),
        ensures
            r.motor == motor,
            r.motion_control == MotionControl::Velocity(Velocity(Fx { bits: 0 })),
            r.velocity_pid.0.p@ == 1311,
            r.velocity_pid.0.i@ == 3 * 65536,
            r.velocity_pid.0.d@ == 0,
            r.velocity_pid.0.output_ramp matches Some(rr) && rr@ == 1000 * 65536,
            r.velocity_pid.0.limit@ == 12 * 65536,
            r.velocity_pid.0.state.integral@ == 0,
            r.velocity_pid.0.state.err@ == 0,
            r.velocity_pid.0.state.output@ == 0,
            r.angle_pid.p@ == 10 * 65536,
            r.angle_pid.limit@ == 10 * 65536,
            r.angle_pid.i@ == 0,
            r.angle_pid.d@ == 0,
            r.angle_pid.output_ramp is None,
            r.angle_pid.state.integral@ == 0,
            r.angle_pid.state.err@ == 0,
            r.angle_pid.state.output@ == 0,
            r.wf(),
    {
        Foc {
            motor,
            motion_control: MotionControl::Velocity(Velocity::zero()),
            velocity_pid: VelocityPID::new(
                PIDController::new().p(Fx::from_bits(1311)).i(Fx::from_int(3)).ramp(
                    Fx::from_int(1000),
                ).limit(Fx::from_int(12)),
            ),
            angle_pid: PIDController::new().p(Fx::from_int(10)).limit(Fx::from_int(10)),
        }
    }

    /// Drive toward a target velocity.
    pub fn to_velocity(self, target: Velocity) -> (r: Self)
        ensures
            r == (Foc { motion_control: MotionControl::Velocity(target), ..self }),
    {
        Foc { motion_control: MotionControl::Velocity(target), ..self }
    }

    /// Drive toward a target continuous angle.
    pub fn to_angle(self, target: Fx) -> (r: Self)
        ensures
            r == (Foc { motion_control: MotionControl::Angle(target), ..self }),
    {
        Foc { motion_control: MotionControl::Angle(target), ..self }
    }

    /// Drive a torque-equivalent command directly.
    pub fn to_torque(self, target: Fx) -> (r: Self)
        ensures
            r == (Foc { motion_control: MotionControl::Torque(target), ..self }),
    {
        Foc { motion_control: MotionControl::Torque(target), ..self }
    }

    /// Divide the circle into `num_step` detents and snap to the nearest;
    /// both controllers are retuned toward the stiffer gains the mode
    /// needs.
    pub fn to_ratchet(self, num_step: u8) -> (r: Self)
        requires
            num_step >= 1,
        ensures
            r.motion_control matches MotionControl::Ratchet(rs) && rs.steps == num_step
                && rs.rad_per_step@ == fx_div_v(TWO_PI_BITS as int, num_step as int * 65536)
                && rs.rad_per_step@ > 0,
            r.motor == self.motor,
            r.angle_pid == (PIDController {
                p: Fx { bits: 15728640i32 },
                limit: Fx { bits: 15728640i32 },
                ..self.angle_pid
            }),
            r.velocity_pid.0 == (PIDController {
                p: Fx { bits: 1966 },
                i: Fx { bits: 0 },
                ..self.velocity_pid.0
            }),
    {
        proof {
            vstd::arithmetic::div_mod::lemma_div_pos_is_pos(
                TWO_PI_BITS as int * 65536,
                num_step as int * 65536,
            );
            vstd::arithmetic::div_mod::lemma_div_is_ordered_by_denominator(
                TWO_PI_BITS as int * 65536,
                num_step as int * 65536,
                255int * 65536,
            );
            vstd::arithmetic::div_mod::lemma_div_is_ordered_by_denominator(
                TWO_PI_BITS as int * 65536,
                65536,
                num_step as int * 65536,
            );
        }
        let rad_per_step = Fx::from_bits(TWO_PI_BITS).div(Fx::from_int(num_step as i16));
        Foc {
            motion_control: MotionControl::Ratchet(RatchetState { steps: num_step, rad_per_step }),
            angle_pid: self.angle_pid.p(Fx::from_int(240)).limit(Fx::from_int(240)),
            velocity_pid: VelocityPID::new(self.velocity_pid.0.p(Fx::from_bits(1966)).i(
                Fx::zero(),
            )),
            motor: self.motor,
        }
    }

    /// Keep the position between two bounds. The mode can be configured
    /// but has no tick behaviour yet; ticking in it fails fatally.
    pub fn to_limit_pos(self, low: Fx, high: Fx) -> (r: Self)
        requires
            low@ < high@,
        ensures
            r == (Foc { motion_control: MotionControl::LimitPos(low, high), ..self }),
    {
        Foc { motion_control: MotionControl::LimitPos(low, high), ..self }
    }

    /// Replace the velocity-domain controller.
    pub fn with_velocity_pid(self, controller: VelocityPID) -> (r: Self)
        ensures
            r == (Foc { velocity_pid: controller, ..self }),
    {
        Foc { velocity_pid: controller, ..self }
    }

    /// Replace the angle-domain controller.
    pub fn with_angle_pid(self, controller: PIDController) -> (r: Self)
        ensures
            r == (Foc { angle_pid: controller, ..self }),
    {
        Foc { angle_pid: controller, ..self }
    }
}

impl<H: SensorHardware, P: DutyCycle> Foc<H, P> {
    /// The rotor-frame voltage command for a torque-equivalent target.
    pub fn calculate_qd(&self, target: Velocity) -> (r: (Fx, Fx))
        requires
            self.motor.wf(),
        ensures
            (r.0@, r.1@) == calculate_qd_v(self.motor, target@),
    {
        let voltage_limit = self.motor.voltage_limit;
        let neg_limit = voltage_limit.neg();

        let target = target.as_secs();
        let current = self.motor.sensor.state.velocity.as_secs();

        let bemf = match self.motor.kv {
            Some(kv) => {
                proof {
                    lemma_kv_divisor_nonzero(kv@);
                }
                let divisor = kv.mul(Fx::from_bits(SQRT3_BITS));
                current.div(divisor).div(Fx::from_bits(RPM_TO_RAD_BITS))
            },
            None => Fx::zero(),
        };

        let q = match self.motor.phase_resistance {
            Some(r) => target.mul(r).add(bemf),
            None => target,
        }.clamp(neg_limit, voltage_limit);
        let d = match self.motor.phase_inductance {
            Some(l) => target.neg().mul(current).mul(
                Fx::from_int(self.motor.pole_pairs as i16),
            ).mul(l),
            None => Fx::zero(),
        }.clamp(neg_limit, voltage_limit);

        (q, d)
    }

    /// Run one control step on the state the last sensor refresh left:
    /// compute the mode's target cascade, update the controllers, and
    /// commit the resulting duty cycles. Inside a dead-band nothing is
    /// touched and nothing committed; in the unimplemented mode the step
    /// fails fatally without touching anything.
    pub fn apply_control(&mut self) -> (r: Result<(), MotorError<H::Error, P::Error>>)
        requires
            old(self).wf(),
            dur_secs_v(old(self).motor.sensor.state.prev.dt@) > 0,
        ensures
            final(self).wf(),
            final(self).motion_control == old(self).motion_control,
            final(self).motor.sensor == old(self).motor.sensor,
            final(self).motor.zero_electrical_angle == old(self).motor.zero_electrical_angle,
            final(self).motor.voltage_limit == old(self).motor.voltage_limit,
            final(self).motor.velocity_limit == old(self).motor.velocity_limit,
            final(self).motor.voltage_power_supply == old(self).motor.voltage_power_supply,
            final(self).motor.kv == old(self).motor.kv,
            final(self).motor.phase_resistance == old(self).motor.phase_resistance,
            final(self).motor.phase_inductance == old(self).motor.phase_inductance,
            final(self).motor.pole_pairs == old(self).motor.pole_pairs,
            ({
                let step = control_step_v(*old(self));
                &&& (step.fatal <==> (r matches Err(e) && e is UnimplementedMode))
                &&& (step.fatal || step.skip ==> r is Ok || (r matches Err(e)
                    && e is UnimplementedMode))
                &&& (step.fatal || step.skip ==> final(self).velocity_pid
                    == old(self).velocity_pid && final(self).angle_pid == old(self).angle_pid)
                &&& (step.skip ==> r is Ok)
                &&& (!step.fatal && !step.skip ==> final(self).velocity_pid.0
                    == step.velocity_pid && final(self).angle_pid == step.angle_pid)
                &&& (!step.fatal && !step.skip ==> (r is Ok || (r matches Err(e) && e is Pwm)))
                &&& (step.fatal || step.skip ==> final(self).motor.pwm == old(self).motor.pwm)
                &&& (r is Ok && !step.skip && !step.fatal ==> ({
                    let duties = step_duties_v(
                        old(self).motor.voltage_power_supply@,
                        step,
                        electrical_angle_v(
                            old(self).motor.sensor.state.angle@,
                            old(self).motor.pole_pairs as int,
                            old(self).motor.zero_angle_v(),
                        ),
                    );
                    &&& final(self).motor.pwm.a.duty_percent() == duties.0
                    &&& final(self).motor.pwm.b.duty_percent() == duties.1
                    &&& final(self).motor.pwm.c.duty_percent() == duties.2
                }))
            }),
    {
        let st = self.motor.sensor.state;
        let electrical_angle = self.motor.electrical_angle();
        let elapsed = st.prev.dt;
        let velocity_limit = self.motor.velocity_limit;

        let qd: (Fx, Fx) = match self.motion_control {
            MotionControl::LimitPos(_, _) => {
                return Err(MotorError::UnimplementedMode);
            },
            MotionControl::Torque(t) => self.calculate_qd(Velocity::per_sec(t)),
            MotionControl::Angle(t) => {
                let total = st.total_angle();
                if t.sub(total).abs().bits < ANGLE_DEADBAND_BITS {
                    return Ok(());
                }
                let vt = self.angle_pid.compute(t, total, elapsed);
                let torque = self.velocity_pid.compute(
                    Velocity::per_sec(vt),
                    st.velocity,
                    elapsed,
                );
                self.calculate_qd(torque)
            },
            MotionControl::Velocity(tv) => {
                let torque = self.velocity_pid.compute(tv, st.velocity, elapsed);
                self.calculate_qd(torque)
            },
            MotionControl::Ratchet(rs) => {
                let total = st.total_angle();
                let target = ratchet_target(total, rs.rad_per_step);
                if target.sub(total).abs().bits < RATCHET_DEADBAND_BITS {
                    return Ok(());
                }
                let vt = self.angle_pid.compute(target, total, elapsed);
                let v = self.velocity_pid.compute(
                    Velocity::per_sec(vt),
                    st.velocity,
                    elapsed,
                ).clamp(velocity_limit.neg(), velocity_limit);
                self.calculate_qd(v)
            },
        };

        let v = self.motor.phase_voltage(qd.0, qd.1, electrical_angle);

        match self.motor.pwm.set_voltage(v, self.motor.voltage_power_supply) {
            Ok(()) => Ok(()),
            Err(e) => Err(MotorError::Pwm(e)),
        }
    }

    /// Advance the control loop by one step: refresh the sensor at `now`,
    /// then run and commit one control step. A sensor failure is fatal for
    /// the tick and leaves every piece of controller state untouched.
    pub fn tick(&mut self, now: Instant) -> (r: Result<(), MotorError<H::Error, P::Error>>)
        requires
            old(self).wf(),
            old(self).motor.sensor.state.prev.instant@ < now@,
            now@ - old(self).motor.sensor.state.prev.instant@ <= i64::MAX,
            dur_secs_v(now@ - old(self).motor.sensor.state.prev.instant@) > 0,
        ensures
            final(self).wf(),
            final(self).motion_control == old(self).motion_control,
            final(self).motor.zero_electrical_angle == old(self).motor.zero_electrical_angle,
            final(self).motor.voltage_limit == old(self).motor.voltage_limit,
            final(self).motor.velocity_limit == old(self).motor.velocity_limit,
            final(self).motor.voltage_power_supply == old(self).motor.voltage_power_supply,
            final(self).motor.kv == old(self).motor.kv,
            final(self).motor.phase_resistance == old(self).motor.phase_resistance,
            final(self).motor.phase_inductance == old(self).motor.phase_inductance,
            final(self).motor.pole_pairs == old(self).motor.pole_pairs,
            r matches Err(e) && e is Sensor ==> final(self).motor.sensor.state
                == old(self).motor.sensor.state
                && final(self).velocity_pid == old(self).velocity_pid
                && final(self).angle_pid == old(self).angle_pid
                && final(self).motor.pwm == old(self).motor.pwm,
            !(r matches Err(e) && e is Sensor) ==> exists|a: Fx|
                0 <= a@ < TWO_PI_BITS as int && final(self).motor.sensor.state == record_spec(
                    old(self).motor.sensor.state,
                    a,
                    now,
                ),
            !(r matches Err(e) && e is Sensor) ==> ({
                let mid = Foc {
                    motor: BLDC {
                        sensor: Sensor {
                            inner: final(self).motor.sensor.inner,
                            state: final(self).motor.sensor.state,
                        },
                        ..old(self).motor
                    },
                    ..*old(self)
                };
                let step = control_step_v(mid);
                &&& (step.fatal <==> (r matches Err(e) && e is UnimplementedMode))
                &&& (step.fatal || step.skip ==> final(self).velocity_pid
                    == old(self).velocity_pid && final(self).angle_pid == old(self).angle_pid
                    && final(self).motor.pwm == old(self).motor.pwm)
                &&& (step.skip ==> r is Ok)
                &&& (!step.fatal && !step.skip ==> final(self).velocity_pid.0
                    == step.velocity_pid && final(self).angle_pid == step.angle_pid)
                &&& (r is Ok && !step.skip && !step.fatal ==> ({
                    let duties = step_duties_v(
                        old(self).motor.voltage_power_supply@,
                        step,
                        electrical_angle_v(
                            final(self).motor.sensor.state.angle@,
                            old(self).motor.pole_pairs as int,
                            old(self).motor.zero_angle_v(),
                        ),
                    );
                    &&& final(self).motor.pwm.a.duty_percent() == duties.0
                    &&& final(self).motor.pwm.b.duty_percent() == duties.1
                    &&& final(self).motor.pwm.c.duty_percent() == duties.2
                }))
            }),
    {
        match self.motor.sensor.update(now) {
            Ok(()) => (),
            Err(e) => {
                return Err(MotorError::Sensor(e));
            },
        }
        self.apply_control()
    }
}

/// The angle-mode dead-band: while the continuous angle is within
/// `3e-2` radians of the target, the control step is suppressed — no
/// controller state moves and nothing is committed.
pub proof fn lemma_angle_dead_band_suppresses_the_step<H, P>(f: Foc<H, P>, target: Fx)
    requires
        f.motion_control == MotionControl::Angle(target),
        abs_v(
            target@ - crate::sensor::total_angle_v(
                f.motor.sensor.state.full_rotations as int,
                f.motor.sensor.state.angle@,
            ),
        ) < ANGLE_DEADBAND_BITS as int,
    ensures
        control_step_v(f).skip,
{
}

/// A whole Kv bit pattern is at least one bit in magnitude, so the scaled
/// `kv * sqrt(3)` divisor of the back-EMF term cannot be zero.
proof fn lemma_kv_divisor_nonzero(k: int)
    requires
        k != 0,
        i32::MIN <= k <= i32::MAX,
    ensures
        fx_mul_v(k, SQRT3_BITS as int) != 0,
{
    if k > 0 {
        assert(k * (SQRT3_BITS as int) >= SQRT3_BITS as int) by (nonlinear_arith)
            requires
                k >= 1,
        ;
        vstd::arithmetic::div_mod::lemma_div_is_ordered(
            SQRT3_BITS as int,
            k * (SQRT3_BITS as int),
            65536,
        );
    } else {
        assert(k * (SQRT3_BITS as int) <= -(SQRT3_BITS as int)) by (nonlinear_arith)
            requires
                k <= -1,
        ;
        let x = k * (SQRT3_BITS as int);
        vstd::arithmetic::div_mod::lemma_div_is_ordered(SQRT3_BITS as int, -x, 65536);
        assert(div_trunc(x, 65536) == ((x * -1) / 65536) * -1);
    }
}

} // verus!
