//! The motor aggregate: three-phase PWM output, the inverse rotor-frame
//! transform with space-vector centering, and the one-time alignment that
//! discovers the electrical-angle offset of the sensor.

use vstd::prelude::*;
use crate::fx::{
    abs_v, clamp_v, div_trunc, fx_add_v, fx_mul_v, fx_sub_v, Fx, PI_BITS, TWO_PI_BITS,
};
use crate::sensor::{record_spec, initial_state, Sensor, SensorHardware};
use crate::time::Instant;
use crate::trig::{sin_cos, sin_cos_of};
use crate::velocity::Velocity;

verus! {

/// `sqrt(3) / 2` in Q16.16 bits.
pub const SQRT3_2_BITS: i32 = 56756;

/// `-1 / 2` in Q16.16 bits.
pub const NEG_HALF_BITS: i32 = -32768;

/// The reference electrical angle of the alignment pulse: `1.5 * pi`.
pub const ALIGN_ANGLE_BITS: i32 = 308831;

/// Everything that can go wrong while driving the motor. `S` is the angle
/// sensor's error, `W` the duty-cycle output's.
#[derive(Debug, PartialEq, Eq)]
pub enum MotorError<S, W> {
    /// The angle sensor failed to read; transient, retry next tick.
    Sensor(S),
    /// A duty-cycle commit failed; channels already committed stay as they
    /// are.
    Pwm(W),
    /// The rotor did not move during the alignment pulse; fatal.
    Alignment,
    /// The selected motion-control mode has no tick behaviour; fatal.
    UnimplementedMode,
}

/// A duty-cycle output channel, implemented by a PWM driver. The model
/// value `duty_percent` stands for the duty the hardware is left with.
pub trait DutyCycle {
    /// The driver's write error.
    type Error;

    /// The duty percentage the channel is set to. Implementations that
    /// model their channel override this; the default stands for hardware
    /// whose state the model does not track.
    open spec fn duty_percent(&self) -> int {
        0
    }

    /// Commit a duty percentage to the hardware.
    fn set_duty_cycle(&mut self, percent: u16) -> (r: Result<(), Self::Error>)
        requires
            percent <= 100,
        ensures
            r is Ok ==> final(self).duty_percent() == percent as int,
    ;
}

/// Duty percentage a voltage maps to under a supply ceiling: the share of
/// the ceiling, clamped into `[0, 100]`.
pub open spec fn volt_to_percent_v(volt: int, volt_max: int) -> int {
    clamp_v(div_trunc(volt * 100, volt_max), 0, 100)
}

/// Three independent duty-cycle outputs, one per motor phase.
pub struct ThreePhasePwm<P> {
    /// First phase.
    pub a: P,
    /// Second phase.
    pub b: P,
    /// Third phase.
    pub c: P,
}

impl<P: DutyCycle> ThreePhasePwm<P> {
    /// Convert a phase voltage to a duty percentage under the `volt_max`
    /// ceiling. At or below zero voltage the duty is exactly 0; at or
    /// above the ceiling it is exactly 100.
    pub fn volt_to_percent(volt: Fx, volt_max: Fx) -> (r: u16)
        requires
            volt_max@ > 0,
        ensures
            r as int == volt_to_percent_v(volt@, volt_max@),
            r <= 100,
            volt@ <= 0 ==> r == 0,
            volt@ >= volt_max@ ==> r == 100,
    {
        proof {
            if volt@ >= volt_max@ {
                assert(volt@ * 100 >= volt_max@ * 100) by (nonlinear_arith)
                    requires
                        volt@ >= volt_max@,
                ;
                vstd::arithmetic::div_mod::lemma_div_is_ordered(
                    volt_max@ * 100,
                    volt@ * 100,
                    volt_max@,
                );
                vstd::arithmetic::div_mod::lemma_div_multiples_vanish(100, volt_max@);
            }
            if volt@ > 0 {
                vstd::arithmetic::div_mod::lemma_div_pos_is_pos(volt@ * 100, volt_max@);
            }
        }
        let n: i64 = volt.bits as i64 * 100;
        let q: i64 = crate::fx::div_trunc_i64(n, volt_max.bits as i64);
        if q < 0 {
            0
        } else if q > 100 {
            100
        } else {
            q as u16
        }
    }

    /// Convert three phase voltages to duty percentages and commit them in
    /// a fixed order. The first failing channel aborts the commit; earlier
    /// channels are not rolled back.
    pub fn set_voltage(&mut self, duty: (Fx, Fx, Fx), volt_max: Fx) -> (r: Result<
        (),
        P::Error,
    >)
        requires
            volt_max@ > 0,
        ensures
            r is Ok ==> final(self).a.duty_percent() == volt_to_percent_v(duty.0@, volt_max@)
                && final(self).b.duty_percent() == volt_to_percent_v(duty.1@, volt_max@)
                && final(self).c.duty_percent() == volt_to_percent_v(duty.2@, volt_max@),
            r is Err ==> (final(self).b == old(self).b && final(self).c == old(self).c)
                || (final(self).a.duty_percent() == volt_to_percent_v(duty.0@, volt_max@)
                    && final(self).c == old(self).c)
                || (final(self).a.duty_percent() == volt_to_percent_v(duty.0@, volt_max@)
                    && final(self).b.duty_percent() == volt_to_percent_v(duty.1@, volt_max@)),
    {
        self.set_duty(
            (
                Self::volt_to_percent(duty.0, volt_max),
                Self::volt_to_percent(duty.1, volt_max),
                Self::volt_to_percent(duty.2, volt_max),
            ),
        )
    }

    /// Commit three duty percentages in a fixed order, stopping at the
    /// first failure without rolling back what was already committed.
    pub fn set_duty(&mut self, duty: (u16, u16, u16)) -> (r: Result<(), P::Error>)
        requires
            duty.0 <= 100,
            duty.1 <= 100,
            duty.2 <= 100,
        ensures
            r is Ok ==> final(self).a.duty_percent() == duty.0 as int
                && final(self).b.duty_percent() == duty.1 as int
                && final(self).c.duty_percent() == duty.2 as int,
            r is Err ==> (final(self).b == old(self).b && final(self).c == old(self).c)
                || (final(self).a.duty_percent() == duty.0 as int
                    && final(self).c == old(self).c)
                || (final(self).a.duty_percent() == duty.0 as int
                    && final(self).b.duty_percent() == duty.1 as int),
    {
        self.a.set_duty_cycle(duty.0)?;
        self.b.set_duty_cycle(duty.1)?;
        self.c.set_duty_cycle(duty.2)?;

        Ok(())
    }
}

/// An angle folded into `[0, 2*pi)` by whole turns.
pub fn normalize_angle(angle: Fx) -> (r: Fx)
    ensures
        r@ == angle@ % (TWO_PI_BITS as int),
        0 <= r@ < TWO_PI_BITS as int,
{
    let m = angle.bits % TWO_PI_BITS;
    if m < 0 {
        Fx::from_bits(m + TWO_PI_BITS)
    } else {
        Fx::from_bits(m)
    }
}

/// The electrical angle for a mechanical angle under `pole` pole pairs and
/// a calibration offset, folded into `[0, 2*pi)`.
pub open spec fn electrical_angle_v(angle: int, pole: int, zero: int) -> int {
    (angle * pole - zero) % (TWO_PI_BITS as int)
}

/// The three phase voltages of the space-vector step: two-to-three-phase
/// expansion of `(alpha, beta)` followed by centering around half the
/// supply.
pub open spec fn svm_v(supply: int, alpha: int, beta: int) -> (int, int, int) {
    let half_alpha = fx_mul_v(NEG_HALF_BITS as int, alpha);
    let s3b = fx_mul_v(SQRT3_2_BITS as int, beta);
    let a = alpha;
    let b = fx_add_v(half_alpha, s3b);
    let c = fx_sub_v(half_alpha, s3b);
    let mn = if a <= b && a <= c {
        a
    } else if b <= c {
        b
    } else {
        c
    };
    let mx = if a >= b && a >= c {
        a
    } else if b >= c {
        b
    } else {
        c
    };
    let center = fx_sub_v(div_trunc(supply, 2), div_trunc(fx_add_v(mx, mn), 2));
    (fx_add_v(a, center), fx_add_v(b, center), fx_add_v(c, center))
}

/// The three phase voltages of the alignment forcing pulse: half the
/// supply on the q axis at the reference angle.
pub open spec fn align_pulse_v(supply: int) -> (int, int, int) {
    phase_voltage_v(supply, div_trunc(supply, 2), 0, ALIGN_ANGLE_BITS as int)
}

/// The whole inverse transform: rotate the rotor-frame command `(q, d)` by
/// `angle` into the stationary frame, then the space-vector step.
pub open spec fn phase_voltage_v(supply: int, volt_q: int, volt_d: int, angle: int) -> (
    int,
    int,
    int,
) {
    let s = sin_cos_of(angle).0;
    let c = sin_cos_of(angle).1;
    let alpha = fx_sub_v(fx_mul_v(c, volt_d), fx_mul_v(s, volt_q));
    let beta = fx_add_v(fx_mul_v(s, volt_d), fx_mul_v(c, volt_q));
    svm_v(supply, alpha, beta)
}

/// A sensored brushless motor: sensor, three-phase output, pole-pair count,
/// calibration offset, and the configured limits and motor parameters.
pub struct BLDC<H, P> {
    /// The angle sensor and its derived state.
    pub sensor: Sensor<H>,
    /// The three-phase output.
    pub pwm: ThreePhasePwm<P>,
    /// Electrical angle measured at alignment; `None` until aligned.
    pub zero_electrical_angle: Option<Fx>,
    /// Bound on the magnitude of commanded q/d voltages.
    pub voltage_limit: Fx,
    /// Bound on the ratchet-mode velocity setpoint.
    pub velocity_limit: Velocity,
    /// Supply ceiling handed to the duty conversion.
    pub voltage_power_supply: Fx,
    /// Velocity constant in RPM per volt, when known.
    pub kv: Option<Fx>,
    /// Phase resistance in ohms, when known.
    pub phase_resistance: Option<Fx>,
    /// Phase inductance in henries, when known.
    pub phase_inductance: Option<Fx>,
    /// Number of magnetic pole pairs.
    pub pole_pairs: u8,
}

impl<P> BLDC<(), P> {
    /// A motor with the given output and pole-pair count, no sensor yet,
    /// and the default limits: 12 V for both the command bound and the
    /// supply, 30 revolutions per second.
    pub fn new(pwm: ThreePhasePwm<P>, pole_pairs: u8) -> (r: BLDC<(), P>)
        ensures
            r.pwm == pwm,
            r.zero_electrical_angle is None,
            r.voltage_limit@ == 12 * 65536,
            r.velocity_limit@ == 60 * PI_BITS as int,
            r.voltage_power_supply@ == 12 * 65536,
            r.kv is None,
            r.phase_resistance is None,
            r.phase_inductance is None,
            r.pole_pairs == pole_pairs,
            r.sensor.state == initial_state(),
            r.wf(),
    {
        BLDC {
            sensor: Sensor::new(()),
            pwm,
            zero_electrical_angle: None,
            voltage_limit: Fx::from_int(12),
            velocity_limit: Velocity::per_sec(Fx::from_bits(60 * PI_BITS)),
            voltage_power_supply: Fx::from_int(12),
            kv: None,
            phase_resistance: None,
            phase_inductance: None,
            pole_pairs,
        }
    }
}

impl<H, P> BLDC<H, P> {
    /// The limits are magnitudes, the supply can serve as a divisor, and
    /// the sensor state is sound.
    pub open spec fn wf(self) -> bool {
        &&& self.voltage_limit@ >= 0
        &&& self.voltage_power_supply@ > 0
        &&& self.sensor.state.wf()
        &&& (self.kv matches Some(k) ==> k@ != 0)
    }

    /// Set the bound on commanded voltages.
    pub fn with_voltage_limit(self, limit: Fx) -> (r: Self)
        requires
            limit@ >= 0,
        ensures
            r == (BLDC { voltage_limit: limit, ..self }),
    {
        BLDC { voltage_limit: limit, ..self }
    }

    /// Set the supply ceiling.
    pub fn with_voltage_power_supply(self, supply: Fx) -> (r: Self)
        requires
            supply@ > 0,
        ensures
            r == (BLDC { voltage_power_supply: supply, ..self }),
    {
        BLDC { voltage_power_supply: supply, ..self }
    }

    /// Set the velocity constant in RPM per volt. It divides the back-EMF
    /// term, so it cannot be zero.
    pub fn with_kv(self, kv: Fx) -> (r: Self)
        requires
            kv@ != 0,
        ensures
            r == (BLDC { kv: Some(kv), ..self }),
    {
        BLDC { kv: Some(kv), ..self }
    }

    /// Set the phase resistance in ohms.
    pub fn with_phase_resistance(self, resistance: Fx) -> (r: Self)
        ensures
            r == (BLDC { phase_resistance: Some(resistance), ..self }),
    {
        BLDC { phase_resistance: Some(resistance), ..self }
    }

    /// Set the phase inductance in henries.
    pub fn with_phase_inductance(self, inductance: Fx) -> (r: Self)
        ensures
            r == (BLDC { phase_inductance: Some(inductance), ..self }),
    {
        BLDC { phase_inductance: Some(inductance), ..self }
    }

    /// Attach a sensor, dropping whatever was attached before.
    pub fn with_sensor<N>(self, sensor: N) -> (r: BLDC<N, P>)
        ensures
            r.sensor.state == initial_state(),
            r.pwm == self.pwm,
            r.zero_electrical_angle == self.zero_electrical_angle,
            r.voltage_limit == self.voltage_limit,
            r.velocity_limit == self.velocity_limit,
            r.voltage_power_supply == self.voltage_power_supply,
            r.kv == self.kv,
            r.phase_resistance == self.phase_resistance,
            r.phase_inductance == self.phase_inductance,
            r.pole_pairs == self.pole_pairs,
    {
        BLDC {
            sensor: Sensor::new(sensor),
            pwm: self.pwm,
            zero_electrical_angle: self.zero_electrical_angle,
            voltage_limit: self.voltage_limit,
            velocity_limit: self.velocity_limit,
            voltage_power_supply: self.voltage_power_supply,
            kv: self.kv,
            phase_resistance: self.phase_resistance,
            phase_inductance: self.phase_inductance,
            pole_pairs: self.pole_pairs,
        }
    }

    /// The attached sensor.
    pub fn sensor(&self) -> (r: &Sensor<H>)
        ensures
            r == &self.sensor,
    {
        &self.sensor
    }

    /// The attached sensor, mutably.
    pub fn sensor_mut(&mut self) -> (r: &mut Sensor<H>)
        ensures
            *r == old(self).sensor,
            *final(self) == (BLDC { sensor: *final(r), ..*old(self) }),
    {
        &mut self.sensor
    }

    /// The calibration offset, or zero before alignment.
    pub open spec fn zero_angle_v(self) -> int {
        match self.zero_electrical_angle {
            Some(z) => z@,
            None => 0,
        }
    }

    /// The current electrical angle. Call [`Sensor::update`] first to get
    /// an up-to-date value.
    pub fn electrical_angle(&self) -> (r: Fx)
        ensures
            r@ == electrical_angle_v(
                self.sensor.state.angle@,
                self.pole_pairs as int,
                self.zero_angle_v(),
            ),
            0 <= r@ < TWO_PI_BITS as int,
    {
        let zero: Fx = match self.zero_electrical_angle {
            Some(z) => z,
            None => Fx::zero(),
        };
        proof {
            assert(-0x8000000000 <= self.sensor.state.angle@ * (self.pole_pairs as int)
                <= 0x8000000000) by (nonlinear_arith)
                requires
                    -0x80000000 <= self.sensor.state.angle@ <= 0x7fffffff,
                    0 <= self.pole_pairs as int <= 255,
            ;
        }
        let e: i64 = self.sensor.state.angle.bits as i64 * self.pole_pairs as i64
            - zero.bits as i64;
        let m: i64 = e % (TWO_PI_BITS as i64);
        if m < 0 {
            Fx::from_bits((m + TWO_PI_BITS as i64) as i32)
        } else {
            Fx::from_bits(m as i32)
        }
    }

    /// The inverse Park rotation of `(volt_q, volt_d)` by `angle`, expanded
    /// to three phases and centered around half the supply so that the full
    /// linear duty range stays usable.
    pub fn phase_voltage(&self, volt_q: Fx, volt_d: Fx, angle: Fx) -> (r: (Fx, Fx, Fx))
        ensures
            (r.0@, r.1@, r.2@) == phase_voltage_v(
                self.voltage_power_supply@,
                volt_q@,
                volt_d@,
                angle@,
            ),
    {
        let (sin, cos) = sin_cos(angle);
        let alpha = cos.mul(volt_d).sub(sin.mul(volt_q));
        let beta = sin.mul(volt_d).add(cos.mul(volt_q));

        let half_alpha = Fx::from_bits(NEG_HALF_BITS).mul(alpha);
        let s3b = Fx::from_bits(SQRT3_2_BITS).mul(beta);

        let a = alpha;
        let b = half_alpha.add(s3b);
        let c = half_alpha.sub(s3b);

        let min = a.min(b).min(c);
        let max = a.max(b).max(c);

        let center = Fx::from_bits(self.voltage_power_supply.bits / 2).sub(
            Fx::from_bits(max.add(min).bits / 2),
        );

        (a.add(center), b.add(center), c.add(center))
    }
}

impl<H: SensorHardware, P: DutyCycle> BLDC<H, P> {
    /// First half of alignment: refresh the sensor, remember the electrical
    /// angle, and drive a fixed half-supply voltage vector at the reference
    /// angle to force the rotor onto it. The caller must then wait about
    /// 700 ms before finishing with [`BLDC::align_finish`].
    pub fn align_start(&mut self, now: Instant) -> (r: Result<
        Fx,
        MotorError<H::Error, P::Error>,
    >)
        requires
            old(self).wf(),
            old(self).sensor.state.prev.instant@ < now@,
            now@ - old(self).sensor.state.prev.instant@ <= i64::MAX,
        ensures
            final(self).wf(),
            final(self).zero_electrical_angle == old(self).zero_electrical_angle,
            final(self).pole_pairs == old(self).pole_pairs,
            final(self).voltage_power_supply == old(self).voltage_power_supply,
            r matches Err(e) ==> e is Sensor || e is Pwm,
            r matches Ok(before) ==> exists|a: Fx|
                0 <= a@ < TWO_PI_BITS as int && final(self).sensor.state == record_spec(
                    old(self).sensor.state,
                    a,
                    now,
                ) && before@ == electrical_angle_v(
                    final(self).sensor.state.angle@,
                    old(self).pole_pairs as int,
                    old(self).zero_angle_v(),
                ),
            r is Ok ==> ({
                let pulse = align_pulse_v(old(self).voltage_power_supply@);
                &&& final(self).pwm.a.duty_percent() == volt_to_percent_v(
                    pulse.0,
                    old(self).voltage_power_supply@,
                )
                &&& final(self).pwm.b.duty_percent() == volt_to_percent_v(
                    pulse.1,
                    old(self).voltage_power_supply@,
                )
                &&& final(self).pwm.c.duty_percent() == volt_to_percent_v(
                    pulse.2,
                    old(self).voltage_power_supply@,
                )
            }),
            r matches Err(e) && e is Sensor ==> final(self).sensor.state
                == old(self).sensor.state && final(self).pwm == old(self).pwm,
    {
        match self.sensor.update(now) {
            Ok(()) => (),
            Err(e) => {
                return Err(MotorError::Sensor(e));
            },
        }
        let angle = self.electrical_angle();
        let half_supply = Fx::from_bits(self.voltage_power_supply.bits / 2);
        let vol = self.phase_voltage(half_supply, Fx::zero(), Fx::from_bits(ALIGN_ANGLE_BITS));
        match self.pwm.set_voltage(vol, self.voltage_power_supply) {
            Ok(()) => Ok(angle),
            Err(e) => Err(MotorError::Pwm(e)),
        }
    }

    /// Second half of alignment, after the forcing pulse has had time to
    /// move the rotor: re-read the sensor and compare. An unchanged
    /// electrical angle means the rotor did not move — miswiring, a stall
    /// or a missing sensor — which is fatal. Otherwise the new electrical
    /// angle becomes the calibration offset and the sensor state is reset,
    /// so that turns and velocity picked up during the pulse cannot leak
    /// into control.
    pub fn align_finish(&mut self, before: Fx, now: Instant) -> (r: Result<
        (),
        MotorError<H::Error, P::Error>,
    >)
        requires
            old(self).wf(),
            old(self).sensor.state.prev.instant@ < now@,
            now@ - old(self).sensor.state.prev.instant@ <= i64::MAX,
        ensures
            final(self).wf(),
            final(self).pole_pairs == old(self).pole_pairs,
            r matches Err(e) ==> e is Sensor || e is Alignment,
            r matches Err(e) && e is Sensor ==> final(self).zero_electrical_angle is None
                && final(self).sensor.state == old(self).sensor.state,
            r is Ok ==> (final(self).zero_electrical_angle matches Some(z) && 0 <= z@
                < TWO_PI_BITS as int && z@ != before@ && final(self).sensor.state
                == initial_state() && exists|a: Fx|
                0 <= a@ < TWO_PI_BITS as int && z@ == electrical_angle_v(
                    a@,
                    old(self).pole_pairs as int,
                    0,
                )),
            r matches Err(e) && e is Alignment ==> final(self).zero_electrical_angle is None
                && exists|a: Fx|
                0 <= a@ < TWO_PI_BITS as int && final(self).sensor.state == record_spec(
                    old(self).sensor.state,
                    a,
                    now,
                ) && electrical_angle_v(a@, old(self).pole_pairs as int, 0) == before@,
    {
        self.zero_electrical_angle = None;
        match self.sensor.update(now) {
            Ok(()) => (),
            Err(e) => {
                return Err(MotorError::Sensor(e));
            },
        }

        let after = self.electrical_angle();
        proof {
            // The reading the refresh folded in is the witness tying the
            // electrical angle to the sensor.
            let a0 = choose|a: Fx|
                0 <= a@ < TWO_PI_BITS as int && self.sensor.state == record_spec(
                    old(self).sensor.state,
                    a,
                    now,
                );
            assert(self.sensor.state.angle == a0);
            assert(after@ == electrical_angle_v(a0@, old(self).pole_pairs as int, 0));
        }
        if after.bits != before.bits {
            self.zero_electrical_angle = Some(after);
        } else {
            return Err(MotorError::Alignment);
        }

        self.sensor.reset();
        Ok(())
    }
}

/// The space-vector step keeps the command recoverable: the difference of
/// the second and third phase is exactly twice the scaled `beta`, and the
/// first phase against the mean of the other two gives `alpha` back up to
/// one bit of truncation. The bounds keep every intermediate sum away from
/// saturation.
pub proof fn lemma_svm_recovers_alpha_beta(supply: int, alpha: int, beta: int)
    requires
        0 <= supply <= i32::MAX as int,
        abs_v(alpha) <= 0x1000000,
        abs_v(beta) <= 0x1000000,
    ensures
        svm_v(supply, alpha, beta).1 - svm_v(supply, alpha, beta).2 == 2 * fx_mul_v(
            SQRT3_2_BITS as int,
            beta,
        ),
        abs_v(
            2 * svm_v(supply, alpha, beta).0 - svm_v(supply, alpha, beta).1 - svm_v(
                supply,
                alpha,
                beta,
            ).2 - 3 * alpha,
        ) <= 1,
{
    let half_alpha = fx_mul_v(NEG_HALF_BITS as int, alpha);
    let s3b = fx_mul_v(SQRT3_2_BITS as int, beta);
    assert(abs_v(NEG_HALF_BITS as int * alpha) <= 0x8000000000 && abs_v(
        SQRT3_2_BITS as int * beta,
    ) <= 0xddd40000000) by (nonlinear_arith)
        requires
            abs_v(alpha) <= 0x1000000,
            abs_v(beta) <= 0x1000000,
    ;
    if alpha > 0 {
        vstd::arithmetic::div_mod::lemma_div_multiples_vanish_quotient(32768, alpha, 2);
        vstd::arithmetic::div_mod::lemma_div_pos_is_pos(32768 * alpha, 65536);
        vstd::arithmetic::div_mod::lemma_div_nonincreasing(32768 * alpha, 65536);
        let x = NEG_HALF_BITS as int * alpha;
        assert(x == -(32768 * alpha) && x * -1 == 32768 * alpha) by (nonlinear_arith)
            requires
                x == NEG_HALF_BITS as int * alpha,
                alpha > 0,
        ;
        assert(div_trunc(x, 65536) == ((x * -1) / 65536) * -1);
        assert(div_trunc(NEG_HALF_BITS as int * alpha, 65536) == -((32768 * alpha) / 65536));
        assert(half_alpha == -(alpha / 2));
    } else if alpha < 0 {
        vstd::arithmetic::div_mod::lemma_div_multiples_vanish_quotient(32768, -alpha, 2);
        vstd::arithmetic::div_mod::lemma_div_pos_is_pos(32768 * (-alpha), 65536);
        vstd::arithmetic::div_mod::lemma_div_nonincreasing(32768 * (-alpha), 65536);
        let x = NEG_HALF_BITS as int * alpha;
        assert(x == 32768 * (-alpha)) by (nonlinear_arith)
            requires
                x == NEG_HALF_BITS as int * alpha,
                alpha < 0,
        ;
        assert(div_trunc(x, 65536) == x / 65536);
        assert(half_alpha == (-alpha) / 2);
    }
    assert(abs_v(2 * half_alpha + alpha) <= 1);
}

} // verus!
