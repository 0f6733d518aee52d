//! Discrete PID controller with trapezoidal integration, an anti-windup
//! clamp on the integral, and an optional slew-rate limit on the output.

use vstd::prelude::*;
use crate::fx::{clamp_v, fx_add_v, fx_div_v, fx_mul_v, fx_sub_v, sat32, Fx};
use crate::time::{dur_secs_v, Duration};
use crate::velocity::Velocity;

verus! {

/// One half, as Q16.16 bits.
pub const HALF_BITS: i32 = 32768;

/// The state a controller carries from one tick to the next.
#[derive(Clone, Copy, Debug, PartialEq, Eq, Structural)]
pub struct PIDState {
    /// Accumulated integral term, clamped to the configured limit.
    pub integral: Fx,
    /// Error seen on the previous tick.
    pub err: Fx,
    /// Output returned on the previous tick.
    pub output: Fx,
}

/// Proportional-integral-derivative controller over fixed-point scalars.
#[derive(Clone, Copy, Debug, PartialEq, Eq, Structural)]
pub struct PIDController {
    /// Proportional gain.
    pub p: Fx,
    /// Integral gain.
    pub i: Fx,
    /// Derivative gain.
    pub d: Fx,
    /// Largest allowed output change per second, when configured.
    pub output_ramp: Option<Fx>,
    /// Bound on the magnitude of both the integral and the output.
    pub limit: Fx,
    /// Carried state.
    pub state: PIDState,
}

/// The output and new integral of one controller step, over bit values.
/// `dt` is the elapsed time in seconds as Q16.16 bits and must be positive
/// for the quotients to mean anything.
pub open spec fn pid_compute_v(c: PIDController, target: int, measure: int, dt: int) -> (
    int,
    int,
) {
    let err = fx_sub_v(target, measure);
    let p_term = fx_mul_v(c.p@, err);
    let i_step = fx_mul_v(fx_mul_v(c.i@, dt), HALF_BITS as int);
    let i_sum = fx_mul_v(i_step, fx_add_v(err, c.state.err@));
    let integral = clamp_v(fx_add_v(c.state.integral@, i_sum), -c.limit@, c.limit@);
    let d_term = fx_div_v(fx_mul_v(c.d@, fx_sub_v(err, c.state.err@)), dt);
    let raw = clamp_v(fx_add_v(fx_add_v(p_term, integral), d_term), -c.limit@, c.limit@);
    let output = match c.output_ramp {
        Some(ramp) => {
            let rate = fx_div_v(fx_sub_v(raw, c.state.output@), dt);
            if rate > ramp@ {
                fx_add_v(c.state.output@, fx_mul_v(ramp@, dt))
            } else if rate < sat32(-ramp@) {
                fx_sub_v(c.state.output@, fx_mul_v(ramp@, dt))
            } else {
                raw
            }
        },
        None => raw,
    };
    (output, integral)
}

/// The whole controller after one step: the configuration is kept, the
/// state carries the new integral, error and output.
pub open spec fn pid_after_v(c: PIDController, target: int, measure: int, dt: int)
    -> PIDController {
    let step = pid_compute_v(c, target, measure, dt);
    PIDController {
        state: PIDState {
            integral: Fx { bits: step.1 as i32 },
            err: Fx { bits: fx_sub_v(target, measure) as i32 },
            output: Fx { bits: step.0 as i32 },
        },
        ..c
    }
}

impl PIDController {
    /// The limit must be a magnitude for the anti-windup clamp to be a
    /// real interval.
    pub open spec fn wf(self) -> bool {
        self.limit@ >= 0
    }

    /// A controller with all gains zero, no slew limit, the widest output
    /// limit, and zeroed state.
    pub fn new() -> (r: PIDController)
        ensures
            r.p@ == 0,
            r.i@ == 0,
            r.d@ == 0,
            r.output_ramp is None,
            r.limit@ == i32::MAX as int,
            r.state.integral@ == 0,
            r.state.err@ == 0,
            r.state.output@ == 0,
            r.wf(),
    {
        PIDController {
            p: Fx::zero(),
            i: Fx::zero(),
            d: Fx::zero(),
            output_ramp: None,
            limit: Fx::max_val(),
            state: PIDState { integral: Fx::zero(), err: Fx::zero(), output: Fx::zero() },
        }
    }

    /// Set the proportional gain.
    pub fn p(self, p: Fx) -> (r: Self)
        ensures
            r == (PIDController { p, ..self }),
    {
        PIDController { p, ..self }
    }

    /// Set the integral gain.
    pub fn i(self, i: Fx) -> (r: Self)
        ensures
            r == (PIDController { i, ..self }),
    {
        PIDController { i, ..self }
    }

    /// Set the derivative gain.
    pub fn d(self, d: Fx) -> (r: Self)
        ensures
            r == (PIDController { d, ..self }),
    {
        PIDController { d, ..self }
    }

    /// Bound the output slew rate.
    pub fn ramp(self, ramp: Fx) -> (r: Self)
        ensures
            r == (PIDController { output_ramp: Some(ramp), ..self }),
    {
        PIDController { output_ramp: Some(ramp), ..self }
    }

    /// Bound the magnitude of the output and of the integral.
    pub fn limit(self, limit: Fx) -> (r: Self)
        requires
            limit@ >= 0,
        ensures
            r == (PIDController { limit, ..self }),
            r.wf(),
    {
        PIDController { limit, ..self }
    }

    /// One controller step: returns the new output and persists the
    /// integral, error and output for the next step.
    pub fn compute(&mut self, target: Fx, measure: Fx, dt: Duration) -> (out: Fx)
        requires
            old(self).wf(),
            dur_secs_v(dt@) > 0,
        ensures
            out@ == pid_compute_v(*old(self), target@, measure@, dur_secs_v(dt@)).0,
            *final(self) == pid_after_v(*old(self), target@, measure@, dur_secs_v(dt@)),
            final(self).wf(),
    {
        let dt = dt.secs_fx();
        let neg_limit = self.limit.neg();

        let err = target.sub(measure);
        let p_term = self.p.mul(err);
        let i_step = self.i.mul(dt).mul(Fx::from_bits(HALF_BITS));
        let i_sum = i_step.mul(err.add(self.state.err));
        let integral = self.state.integral.add(i_sum).clamp(neg_limit, self.limit);
        let d_term = self.d.mul(err.sub(self.state.err)).div(dt);

        let mut output = p_term.add(integral).add(d_term).clamp(neg_limit, self.limit);

        if let Some(ramp) = self.output_ramp {
            let rate = output.sub(self.state.output).div(dt);
            if rate.bits > ramp.bits {
                output = self.state.output.add(ramp.mul(dt));
            } else if rate.bits < ramp.neg().bits {
                output = self.state.output.sub(ramp.mul(dt));
            }
        }

        self.state.integral = integral;
        self.state.err = err;
        self.state.output = output;

        output
    }
}

impl Default for PIDController {
    /// Same as [`PIDController::new`].
    fn default() -> (r: Self)
        ensures
            r.p@ == 0,
            r.i@ == 0,
            r.d@ == 0,
            r.output_ramp is None,
            r.limit@ == i32::MAX as int,
            r.state.integral@ == 0,
            r.state.err@ == 0,
            r.state.output@ == 0,
            r.wf(),
    {
        PIDController::new()
    }
}

/// The velocity-domain controller: the same algorithm with the unit type
/// converted to and from plain radians per second at the boundary.
#[derive(Clone, Copy, Debug, PartialEq, Eq, Structural)]
pub struct VelocityPID(pub PIDController);

impl VelocityPID {
    /// Wrap a configured scalar controller.
    pub fn new(inner: PIDController) -> (r: VelocityPID)
        ensures
            r.0 == inner,
    {
        VelocityPID(inner)
    }

    /// Rebuild the inner controller through `f`.
    pub fn update<F: FnOnce(PIDController) -> PIDController>(self, f: F) -> (r: Self)
        requires
            f.requires((self.0,)),
        ensures
            f.ensures((self.0,), r.0),
    {
        VelocityPID(f(self.0))
    }

    /// One controller step in the velocity domain.
    pub fn compute(&mut self, target: Velocity, measure: Velocity, dt: Duration) -> (out:
        Velocity)
        requires
            old(self).0.wf(),
            dur_secs_v(dt@) > 0,
        ensures
            out@ == pid_compute_v(old(self).0, target@, measure@, dur_secs_v(dt@)).0,
            final(self).0 == pid_after_v(old(self).0, target@, measure@, dur_secs_v(dt@)),
            final(self).0.wf(),
    {
        Velocity::per_sec(self.0.compute(target.as_secs(), measure.as_secs(), dt))
    }
}

/// The anti-windup clamp holds: whatever the gains, errors and elapsed
/// time, the integral a step stores never exceeds the configured limit in
/// magnitude.
pub proof fn lemma_integral_stays_within_limit(
    c: PIDController,
    target: int,
    measure: int,
    dt: int,
)
    requires
        c.wf(),
    ensures
        -c.limit@ <= pid_compute_v(c, target, measure, dt).1 <= c.limit@,
{
}

/// A zero integral gain leaves the stored integral untouched, whatever the
/// error: the trapezoid contribution vanishes and the anti-windup clamp is
/// the identity on a value already inside its bounds.
pub proof fn lemma_zero_i_gain_keeps_integral(
    c: PIDController,
    target: int,
    measure: int,
    dt: int,
)
    requires
        c.wf(),
        c.i@ == 0,
        -c.limit@ <= c.state.integral@ <= c.limit@,
    ensures
        pid_compute_v(c, target, measure, dt).1 == c.state.integral@,
{
    assert(c.i@ * dt == 0) by (nonlinear_arith)
        requires
            c.i@ == 0,
    ;
    assert(fx_mul_v(c.i@, dt) == 0);
    assert(fx_mul_v(0, HALF_BITS as int) == 0);
    let s = fx_add_v(fx_sub_v(target, measure), c.state.err@);
    assert(0 * s == 0) by (nonlinear_arith);
    assert(fx_mul_v(0, s) == 0);
    assert(fx_add_v(c.state.integral@, 0) == c.state.integral@);
}

/// A controller with zero gains, a zeroed state, no error and a
/// non-negative slew bound returns zero and computes a zero integral:
/// doing nothing asks for nothing.
pub proof fn lemma_quiescent_step_is_zero(c: PIDController, target: Fx, measure: Fx, dt: int)
    requires
        c.wf(),
        c.p@ == 0,
        c.i@ == 0,
        c.d@ == 0,
        c.state.integral@ == 0,
        c.state.err@ == 0,
        c.state.output@ == 0,
        target@ == measure@,
        dt > 0,
        c.output_ramp matches Some(r) ==> r@ >= 0,
    ensures
        pid_compute_v(c, target@, measure@, dt).0 == 0,
        pid_compute_v(c, target@, measure@, dt).1 == 0,
{
}

} // verus!
