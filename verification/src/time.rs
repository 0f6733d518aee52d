//! Plain-value time types: the control core never reads a clock itself.
//! The caller samples its monotonic clock and hands `Instant` values in;
//! both types count microseconds.

use vstd::prelude::*;
use crate::fx::{sat32, Fx, ONE_BITS};

verus! {

/// Microseconds in one second.
pub const MICROS_PER_SEC: u64 = 1000000;

/// A span of time, in whole microseconds.
#[derive(Clone, Copy, Debug, PartialEq, Eq, Structural)]
pub struct Duration {
    pub micros: u64,
}

/// A point of a monotonic clock, as microseconds since its origin.
#[derive(Clone, Copy, Debug, PartialEq, Eq, Structural)]
pub struct Instant {
    pub micros: u64,
}

impl View for Duration {
    type V = int;

    open spec fn view(&self) -> int {
        self.micros as int
    }
}

impl View for Instant {
    type V = int;

    open spec fn view(&self) -> int {
        self.micros as int
    }
}

/// The number of seconds a duration spans, as a saturated Q16.16 value.
pub open spec fn dur_secs_v(micros: int) -> int {
    sat32(micros * (ONE_BITS as int) / (MICROS_PER_SEC as int))
}

impl Duration {
    /// A span of `micros` microseconds.
    pub fn from_micros(micros: u64) -> (r: Duration)
        ensures
            r@ == micros as int,
    {
        Duration { micros }
    }

    /// A span of `millis` milliseconds.
    pub fn from_millis(millis: u64) -> (r: Duration)
        requires
            millis * 1000 <= u64::MAX,
        ensures
            r@ == millis as int * 1000,
    {
        Duration { micros: millis * 1000 }
    }

    /// The span in whole microseconds.
    pub fn as_micros(self) -> (r: u64)
        ensures
            r as int == self@,
    {
        self.micros
    }

    /// The span in whole milliseconds, truncated.
    pub fn as_millis(self) -> (r: u64)
        ensures
            r as int == self@ / 1000,
    {
        self.micros / 1000
    }

    /// The span in seconds as a fixed-point value, saturated at the largest
    /// representable value for spans over half a million seconds.
    pub fn secs_fx(self) -> (r: Fx)
        ensures
            r@ == dur_secs_v(self@),
    {
        if self.micros >= 32768 * MICROS_PER_SEC {
            proof {
                assert(self@ * (ONE_BITS as int) >= 0x80000000 * (MICROS_PER_SEC as int))
                    by (nonlinear_arith)
                    requires
                        self@ >= 32768 * (MICROS_PER_SEC as int),
                ;
                vstd::arithmetic::div_mod::lemma_div_is_ordered(
                    0x80000000 * (MICROS_PER_SEC as int),
                    self@ * (ONE_BITS as int),
                    MICROS_PER_SEC as int,
                );
                vstd::arithmetic::div_mod::lemma_div_multiples_vanish(
                    0x80000000,
                    MICROS_PER_SEC as int,
                );
            }
            Fx::from_bits(i32::MAX)
        } else {
            proof {
                assert(self@ * (ONE_BITS as int) <= 0x80000000 * (MICROS_PER_SEC as int)
                    - ONE_BITS) by (nonlinear_arith)
                    requires
                        self@ <= 32768 * (MICROS_PER_SEC as int) - 1,
                ;
            }
            let scaled: u64 = self.micros * (ONE_BITS as u64);
            let bits: u64 = scaled / MICROS_PER_SEC;
            proof {
                vstd::arithmetic::div_mod::lemma_div_is_ordered(
                    scaled as int,
                    0x80000000 * (MICROS_PER_SEC as int) - ONE_BITS,
                    MICROS_PER_SEC as int,
                );
            }
            Fx::from_bits(bits as i32)
        }
    }
}

impl Instant {
    /// The instant `micros` microseconds after the clock origin.
    pub fn from_micros(micros: u64) -> (r: Instant)
        ensures
            r@ == micros as int,
    {
        Instant { micros }
    }

    /// Time elapsed since an earlier instant.
    pub fn duration_since(self, earlier: Instant) -> (r: Duration)
        requires
            earlier@ <= self@,
        ensures
            r@ == self@ - earlier@,
    {
        Duration { micros: self.micros - earlier.micros }
    }
}

} // verus!
