//! Saturating Q16.16 fixed-point scalar used for every physical quantity in
//! the crate: angles in radians, voltages, angular velocities, PID gains.
//!
//! A value is `bits / 65536`. All arithmetic widens to 64 bits, truncates the
//! extra fractional bits toward zero, and saturates the result to the 32-bit
//! range, so no operation here can overflow or panic.

use vstd::prelude::*;

verus! {

/// Number of fractional bits is 16, so one whole unit is `1 << 16` bits.
pub const ONE_BITS: i32 = 65536;

/// pi scaled by `ONE_BITS`.
pub const PI_BITS: i32 = 205887;

/// 2 * pi scaled by `ONE_BITS`.
pub const TWO_PI_BITS: i32 = 411775;

/// Saturation of a mathematical integer to the `i32` range.
pub open spec fn sat32(x: int) -> int {
    if x > i32::MAX as int {
        i32::MAX as int
    } else if x < i32::MIN as int {
        i32::MIN as int
    } else {
        x
    }
}

/// Division that truncates toward zero (the behaviour of Rust's `/` on
/// machine integers), written over mathematical integers. Unspecified for
/// `d == 0`.
pub open spec fn div_trunc(x: int, d: int) -> int {
    if x == 0 {
        0
    } else if x > 0 && d > 0 {
        x / d
    } else if x < 0 && d < 0 {
        (x * -1) / (d * -1)
    } else if x < 0 {
        ((x * -1) / d) * -1
    } else {
        (x / (d * -1)) * -1
    }
}

/// Magnitude of an integer.
pub open spec fn abs_v(x: int) -> int {
    if x >= 0 {
        x
    } else {
        -x
    }
}

/// Value of the sum of two fixed-point values.
pub open spec fn fx_add_v(a: int, b: int) -> int {
    sat32(a + b)
}

/// Value of the difference of two fixed-point values.
pub open spec fn fx_sub_v(a: int, b: int) -> int {
    sat32(a - b)
}

/// Value of the product of two fixed-point values: the 64-bit product keeps
/// 16 fractional bits too many, which are truncated toward zero.
pub open spec fn fx_mul_v(a: int, b: int) -> int {
    sat32(div_trunc(a * b, ONE_BITS as int))
}

/// Value of the quotient of two fixed-point values. Unspecified for `b == 0`.
pub open spec fn fx_div_v(a: int, b: int) -> int {
    sat32(div_trunc(a * (ONE_BITS as int), b))
}

/// Clamping into `[lo, hi]`, testing the low bound first as `clamp` does.
pub open spec fn clamp_v(x: int, lo: int, hi: int) -> int {
    if x < lo {
        lo
    } else if x > hi {
        hi
    } else {
        x
    }
}

/// Q16.16 fixed-point number: the represented value is `bits / 65536`.
#[derive(Clone, Copy, Debug, PartialEq, Eq, Structural)]
pub struct Fx {
    pub bits: i32,
}

impl View for Fx {
    type V = int;

    open spec fn view(&self) -> int {
        self.bits as int
    }
}

proof fn lemma_product_fits_i64(a: int, b: int)
    requires
        i32::MIN <= a <= i32::MAX,
        i32::MIN <= b <= i32::MAX,
    ensures
        -0x4000000000000000 <= a * b <= 0x4000000000000000,
{
    assert(-0x4000000000000000 <= a * b <= 0x4000000000000000) by (nonlinear_arith)
        requires
            -0x80000000 <= a <= 0x7fffffff,
            -0x80000000 <= b <= 0x7fffffff,
    ;
}

/// Saturating narrowing of a 64-bit intermediate result.
pub fn sat32_i64(x: i64) -> (r: i32)
    ensures
        r as int == sat32(x as int),
{
    if x > i32::MAX as i64 {
        i32::MAX
    } else if x < i32::MIN as i64 {
        i32::MIN
    } else {
        x as i32
    }
}

/// Truncating 64-bit division, total on the inputs the callers reach.
pub fn div_trunc_i64(x: i64, d: i64) -> (q: i64)
    requires
        d != 0,
        !(x == i64::MIN && d == -1),
        div_trunc(x as int, d as int) <= i64::MAX,
        div_trunc(x as int, d as int) >= i64::MIN,
    ensures
        q == div_trunc(x as int, d as int),
{
    x.checked_div(d).unwrap()
}

impl Fx {
    /// The value whose representation is exactly `bits`.
    pub fn from_bits(bits: i32) -> (r: Fx)
        ensures
            r@ == bits as int,
    {
        Fx { bits }
    }

    /// The whole number `n`.
    pub fn from_int(n: i16) -> (r: Fx)
        ensures
            r@ == n as int * ONE_BITS as int,
    {
        Fx { bits: n as i32 * ONE_BITS }
    }

    /// Zero.
    pub fn zero() -> (r: Fx)
        ensures
            r@ == 0,
    {
        Fx { bits: 0 }
    }

    /// The largest representable value.
    pub fn max_val() -> (r: Fx)
        ensures
            r@ == i32::MAX as int,
    {
        Fx { bits: i32::MAX }
    }

    /// Saturating addition.
    pub fn add(self, other: Fx) -> (r: Fx)
        ensures
            r@ == fx_add_v(self@, other@),
    {
        Fx { bits: sat32_i64(self.bits as i64 + other.bits as i64) }
    }

    /// Saturating subtraction.
    pub fn sub(self, other: Fx) -> (r: Fx)
        ensures
            r@ == fx_sub_v(self@, other@),
    {
        Fx { bits: sat32_i64(self.bits as i64 - other.bits as i64) }
    }

    /// Saturating negation.
    pub fn neg(self) -> (r: Fx)
        ensures
            r@ == sat32(-self@),
    {
        Fx { bits: sat32_i64(-(self.bits as i64)) }
    }

    /// Saturating magnitude.
    pub fn abs(self) -> (r: Fx)
        ensures
            r@ == sat32(abs_v(self@)),
    {
        if self.bits < 0 {
            self.neg()
        } else {
            self
        }
    }

    /// Saturating multiplication, truncating toward zero.
    pub fn mul(self, other: Fx) -> (r: Fx)
        ensures
            r@ == fx_mul_v(self@, other@),
    {
        proof {
            lemma_product_fits_i64(self@, other@);
        }
        let p: i64 = self.bits as i64 * other.bits as i64;
        Fx { bits: sat32_i64(div_trunc_i64(p, ONE_BITS as i64)) }
    }

    /// Saturating division, truncating toward zero.
    pub fn div(self, other: Fx) -> (r: Fx)
        requires
            other@ != 0,
        ensures
            r@ == fx_div_v(self@, other@),
    {
        let n: i64 = self.bits as i64 * ONE_BITS as i64;
        Fx { bits: sat32_i64(div_trunc_i64(n, other.bits as i64)) }
    }

    /// Clamping into `[lo, hi]`; the low bound wins when the bounds cross,
    /// as in a chain of comparisons.
    pub fn clamp(self, lo: Fx, hi: Fx) -> (r: Fx)
        ensures
            r@ == clamp_v(self@, lo@, hi@),
    {
        if self.bits < lo.bits {
            lo
        } else if self.bits > hi.bits {
            hi
        } else {
            self
        }
    }

    /// Smaller of two values.
    pub fn min(self, other: Fx) -> (r: Fx)
        ensures
            r@ == if self@ <= other@ {
                self@
            } else {
                other@
            },
    {
        if self.bits <= other.bits {
            self
        } else {
            other
        }
    }

    /// Larger of two values.
    pub fn max(self, other: Fx) -> (r: Fx)
        ensures
            r@ == if self@ >= other@ {
                self@
            } else {
                other@
            },
    {
        if self.bits >= other.bits {
            self
        } else {
            other
        }
    }

    /// Strict comparison.
    pub fn lt(self, other: Fx) -> (r: bool)
        ensures
            r == (self@ < other@),
    {
        self.bits < other.bits
    }

    /// Non-strict comparison.
    pub fn le(self, other: Fx) -> (r: bool)
        ensures
            r == (self@ <= other@),
    {
        self.bits <= other.bits
    }
}

} // verus!
