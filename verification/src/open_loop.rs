//! Sensorless drive: dead-reckon the shaft angle by integrating the target
//! velocity over elapsed time and drive a fixed q-axis voltage at the
//! matching electrical angle, stepper-like. Useful with no sensor attached
//! or before alignment.

use vstd::prelude::*;
use crate::fx::{div_trunc, fx_add_v, fx_mul_v, Fx, TWO_PI_BITS};
use crate::motor::{phase_voltage_v, volt_to_percent_v, DutyCycle, BLDC};
use crate::time::{dur_secs_v, Instant};

verus! {

/// Open-loop controller around a motor.
pub struct OpenLoop<H, P> {
    /// The driven motor; its sensor is never consulted.
    pub motor: BLDC<H, P>,
    /// When the last committed tick happened.
    pub prev_tick: Instant,
    /// Dead-reckoned shaft angle in radians.
    pub shaft_angle: Fx,
    /// Target velocity in radians per second.
    pub velocity: Fx,
}

/// The shaft angle after integrating `velocity` for a tick of `dt` seconds
/// (as Q16.16 bits).
pub open spec fn open_loop_shaft_v(shaft: int, velocity: int, dt: int) -> int {
    fx_add_v(shaft, fx_mul_v(dt, velocity))
}

impl<H, P> BLDC<H, P> {
    /// Hand the motor to an open-loop controller starting from a zero
    /// shaft angle at `now`.
    pub fn open_loop(self, velocity: Fx, now: Instant) -> (r: OpenLoop<H, P>)
        ensures
            r.motor == self,
            r.prev_tick == now,
            r.shaft_angle@ == 0,
            r.velocity == velocity,
    {
        OpenLoop::new(self, velocity, now)
    }
}

impl<H, P> OpenLoop<H, P> {
    /// A controller starting from a zero shaft angle at `now`.
    pub fn new(motor: BLDC<H, P>, velocity: Fx, now: Instant) -> (r: Self)
        ensures
            r.motor == motor,
            r.prev_tick == now,
            r.shaft_angle@ == 0,
            r.velocity == velocity,
    {
        OpenLoop { motor, prev_tick: now, shaft_angle: Fx::zero(), velocity }
    }

    /// The target velocity.
    pub fn velocity(&self) -> (r: Fx)
        ensures
            r == self.velocity,
    {
        self.velocity
    }

    /// Replace the target velocity.
    pub fn set_velocity(&mut self, velocity: Fx)
        ensures
            *final(self) == (OpenLoop { velocity, ..*old(self) }),
    {
        self.velocity = velocity;
    }

    /// Nudge the target velocity by `delta`.
    pub fn update_velocity(&mut self, delta: Fx)
        ensures
            final(self).velocity@ == fx_add_v(old(self).velocity@, delta@),
            final(self).motor == old(self).motor,
            final(self).prev_tick == old(self).prev_tick,
            final(self).shaft_angle == old(self).shaft_angle,
    {
        self.velocity = self.velocity.add(delta);
    }

    /// Give the motor back.
    pub fn into_inner(self) -> (r: BLDC<H, P>)
        ensures
            r == self.motor,
    {
        self.motor
    }
}

impl<H, P: DutyCycle> OpenLoop<H, P> {
    /// One dead-reckoned step at `now`: advance the shaft angle by the
    /// rotation the target velocity asks for, and drive half the voltage
    /// limit on the q axis at the matching electrical angle, with the
    /// voltage limit as the duty ceiling. A failed commit leaves the next
    /// tick's time base untouched.
    pub fn tick(&mut self, now: Instant) -> (r: Result<(), P::Error>)
        requires
            old(self).motor.wf(),
            old(self).motor.voltage_limit@ > 0,
            old(self).prev_tick@ <= now@,
        ensures
            final(self).motor.sensor == old(self).motor.sensor,
            final(self).motor.voltage_limit == old(self).motor.voltage_limit,
            final(self).motor.voltage_power_supply == old(self).motor.voltage_power_supply,
            final(self).motor.pole_pairs == old(self).motor.pole_pairs,
            final(self).velocity == old(self).velocity,
            final(self).shaft_angle@ == open_loop_shaft_v(
                old(self).shaft_angle@,
                old(self).velocity@,
                dur_secs_v(now@ - old(self).prev_tick@),
            ),
            r is Ok ==> final(self).prev_tick == now,
            r is Err ==> final(self).prev_tick == old(self).prev_tick,
            r is Ok ==> ({
                let elec = (final(self).shaft_angle@ * old(self).motor.pole_pairs as int) % (
                TWO_PI_BITS as int);
                let v = phase_voltage_v(
                    old(self).motor.voltage_power_supply@,
                    div_trunc(old(self).motor.voltage_limit@, 2),
                    0,
                    elec,
                );
                &&& final(self).motor.pwm.a.duty_percent() == volt_to_percent_v(
                    v.0,
                    old(self).motor.voltage_limit@,
                )
                &&& final(self).motor.pwm.b.duty_percent() == volt_to_percent_v(
                    v.1,
                    old(self).motor.voltage_limit@,
                )
                &&& final(self).motor.pwm.c.duty_percent() == volt_to_percent_v(
                    v.2,
                    old(self).motor.voltage_limit@,
                )
            }),
    {
        let dt = now.duration_since(self.prev_tick).secs_fx();
        let limit = self.motor.voltage_limit;

        self.shaft_angle = self.shaft_angle.add(dt.mul(self.velocity));

        proof {
            assert(-0x8000000000 <= self.shaft_angle@ * (self.motor.pole_pairs as int)
                <= 0x8000000000) by (nonlinear_arith)
                requires
                    -0x80000000 <= self.shaft_angle@ <= 0x7fffffff,
                    0 <= self.motor.pole_pairs as int <= 255,
            ;
        }
        let e: i64 = self.shaft_angle.bits as i64 * self.motor.pole_pairs as i64;
        let m: i64 = e % (TWO_PI_BITS as i64);
        let electronic_angle = if m < 0 {
            Fx::from_bits((m + TWO_PI_BITS as i64) as i32)
        } else {
            Fx::from_bits(m as i32)
        };

        let half_limit = Fx::from_bits(limit.bits / 2);
        let phase_voltage = self.motor.phase_voltage(half_limit, Fx::zero(), electronic_angle);
        match self.motor.pwm.set_voltage(phase_voltage, limit) {
            Ok(()) => {
                self.prev_tick = now;
                Ok(())
            },
            Err(e) => Err(e),
        }
    }
}

} // verus!
