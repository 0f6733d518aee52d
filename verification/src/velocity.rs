//! Unit-safe angular velocity. The value is stored in radians per second;
//! the constructors convert from other rates so that callers cannot mix up
//! time bases.

use vstd::prelude::*;
use crate::fx::{div_trunc, fx_div_v, fx_mul_v, sat32, Fx, TWO_PI_BITS};
use crate::time::Duration;

verus! {

/// One degree in radians, as Q16.16 bits.
pub const DEGREE_BITS: i32 = 1144;

/// One revolution per minute in radians per second (`pi / 30`), as Q16.16
/// bits.
pub const RPM_TO_RAD_BITS: i32 = 6863;

/// Velocity in radians per second from a rotation and the span it took.
pub open spec fn vel_per_v(rad: int, micros: int) -> int {
    sat32(div_trunc(rad * 1000000, micros))
}

/// Angular velocity in radians per second.
#[derive(Clone, Copy, Debug, PartialEq, Eq, Structural)]
pub struct Velocity(pub Fx);

impl View for Velocity {
    type V = int;

    open spec fn view(&self) -> int {
        self.0@
    }
}

impl Velocity {
    /// Standing still.
    pub fn zero() -> (r: Velocity)
        ensures
            r@ == 0,
    {
        Velocity(Fx::zero())
    }

    /// One revolution per minute.
    pub fn rpm() -> (r: Velocity)
        ensures
            r@ == RPM_TO_RAD_BITS as int,
    {
        Velocity(Fx::from_bits(RPM_TO_RAD_BITS))
    }

    /// One revolution per second.
    pub fn rps() -> (r: Velocity)
        ensures
            r@ == TWO_PI_BITS as int,
    {
        Velocity(Fx::from_bits(TWO_PI_BITS))
    }

    /// Start a rate from an amount of rotation in radians.
    pub fn rad(radian: Fx) -> (r: VelocityBuilder)
        ensures
            r.0@ == radian@,
    {
        VelocityBuilder(radian)
    }

    /// Start a rate from an amount of rotation in degrees.
    pub fn degree(degree: Fx) -> (r: VelocityBuilder)
        ensures
            r.0@ == fx_mul_v(degree@, DEGREE_BITS as int),
    {
        VelocityBuilder(degree.mul(Fx::from_bits(DEGREE_BITS)))
    }

    /// Radians per second.
    pub fn as_secs(self) -> (r: Fx)
        ensures
            r@ == self@,
    {
        self.0
    }

    /// Radians per millisecond.
    pub fn as_millis(self) -> (r: Fx)
        ensures
            r@ == div_trunc(self@, 1000),
    {
        Fx::from_bits(self.0.bits / 1000)
    }

    /// Radians per microsecond.
    pub fn as_micros(self) -> (r: Fx)
        ensures
            r@ == div_trunc(self@, 1000000),
    {
        Fx::from_bits(self.0.bits / 1000000)
    }

    /// A velocity of `rad` radians per second.
    pub fn per_sec(rad: Fx) -> (r: Velocity)
        ensures
            r@ == rad@,
    {
        Velocity(rad)
    }

    /// A velocity of `rad` radians per millisecond.
    pub fn per_milli(rad: Fx) -> (r: Velocity)
        ensures
            r@ == sat32(rad@ * 1000),
    {
        Velocity(Fx::from_bits(crate::fx::sat32_i64(rad.bits as i64 * 1000)))
    }

    /// A velocity of `rad` radians per microsecond.
    pub fn per_micro(rad: Fx) -> (r: Velocity)
        ensures
            r@ == sat32(rad@ * 1000000),
    {
        Velocity(Fx::from_bits(crate::fx::sat32_i64(rad.bits as i64 * 1000000)))
    }

    /// Clamp into `[min, max]`, testing the low bound first.
    pub fn clamp(self, min: Velocity, max: Velocity) -> (r: Velocity)
        ensures
            r@ == if self@ < min@ {
                min@
            } else if self@ > max@ {
                max@
            } else {
                self@
            },
    {
        if self.0.bits < min.0.bits {
            min
        } else if self.0.bits > max.0.bits {
            max
        } else {
            self
        }
    }

    /// The opposite rate.
    pub fn neg(self) -> (r: Velocity)
        ensures
            r@ == sat32(-self@),
    {
        Velocity(self.0.neg())
    }

    /// Sum of two rates.
    pub fn add(self, rhs: Velocity) -> (r: Velocity)
        ensures
            r@ == sat32(self@ + rhs@),
    {
        Velocity(self.0.add(rhs.0))
    }

    /// Difference of two rates.
    pub fn sub(self, rhs: Velocity) -> (r: Velocity)
        ensures
            r@ == sat32(self@ - rhs@),
    {
        Velocity(self.0.sub(rhs.0))
    }

    /// The rate scaled by a plain factor.
    pub fn mul(self, rhs: Fx) -> (r: Velocity)
        ensures
            r@ == fx_mul_v(self@, rhs@),
    {
        Velocity(self.0.mul(rhs))
    }

    /// The rate divided by a plain scalar.
    pub fn div(self, rhs: Fx) -> (r: Velocity)
        requires
            rhs@ != 0,
        ensures
            r@ == fx_div_v(self@, rhs@),
    {
        Velocity(self.0.div(rhs))
    }
}

/// An amount of rotation waiting for its time base.
#[derive(Clone, Copy, Debug, PartialEq, Eq, Structural)]
pub struct VelocityBuilder(pub Fx);

impl VelocityBuilder {
    /// The rotation happened over `duration`.
    pub fn per(self, duration: Duration) -> (r: Velocity)
        requires
            duration@ > 0,
            duration@ <= i64::MAX,
        ensures
            r@ == vel_per_v(self.0@, duration@),
    {
        proof {
            assert(-0x8000000000000000 < self.0@ * 1000000 < 0x8000000000000000)
                by (nonlinear_arith)
                requires
                    -0x80000000 <= self.0@ <= 0x7fffffff,
            ;
        }
        let n: i64 = self.0.bits as i64 * 1000000;
        Velocity(Fx::from_bits(crate::fx::sat32_i64(crate::fx::div_trunc_i64(
            n,
            duration.micros as i64,
        ))))
    }

    /// The rotation happened over `second` seconds.
    pub fn per_sec(self, second: Fx) -> (r: Velocity)
        requires
            second@ != 0,
        ensures
            r@ == fx_div_v(self.0@, second@),
    {
        Velocity(self.0.div(second))
    }

    /// The rotation happened over `milli` milliseconds.
    pub fn per_milli(self, milli: Fx) -> (r: Velocity)
        requires
            milli@ != 0,
        ensures
            r@ == sat32(fx_div_v(self.0@, milli@) * 1000),
    {
        let q = self.0.div(milli);
        Velocity(Fx::from_bits(crate::fx::sat32_i64(q.bits as i64 * 1000)))
    }

    /// The rotation happened over `micro` microseconds.
    pub fn per_micro(self, micro: Fx) -> (r: Velocity)
        requires
            micro@ != 0,
        ensures
            r@ == sat32(fx_div_v(self.0@, micro@) * 1000000),
    {
        let q = self.0.div(micro);
        Velocity(Fx::from_bits(crate::fx::sat32_i64(q.bits as i64 * 1000000)))
    }

    /// The rotation happened over `nano` nanoseconds.
    pub fn per_nano(self, nano: Fx) -> (r: Velocity)
        requires
            nano@ != 0,
        ensures
            r@ == sat32(fx_div_v(self.0@, nano@) * 1000000000),
    {
        let q = self.0.div(nano);
        Velocity(Fx::from_bits(crate::fx::sat32_i64(q.bits as i64 * 1000000000)))
    }
}

} // verus!
