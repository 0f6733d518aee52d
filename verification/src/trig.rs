//! The one place where the crate leans on outside arithmetic: sine and
//! cosine of a fixed-point angle, computed by the `cordic` crate on the
//! `fixed` crate's Q16.16 type, which shares its bit layout with [`Fx`].

use vstd::prelude::*;
use crate::fx::Fx;

verus! {

/// The (sine, cosine) pair that `cordic::sin_cos` returns for an angle with
/// the given Q16.16 bit pattern. The algorithm is iterative rotation over
/// the angle alone, so the pair is a pure function of the bits.
pub uninterp spec fn sin_cos_of(angle: int) -> (int, int);

/// Relies on `cordic::sin_cos` over `fixed::types::I16F16`: it reduces the
/// angle by whole turns and runs a fixed rotation schedule, so the result
/// depends on the angle bits alone and no input makes it panic.
#[verifier::external_body]
pub(crate) fn sin_cos(angle: Fx) -> (r: (Fx, Fx))
    ensures
        r.0@ == sin_cos_of(angle@).0,
        r.1@ == sin_cos_of(angle@).1,
{
    let (s, c) = cordic::sin_cos(fixed::types::I16F16::from_bits(angle.bits));
    (Fx { bits: s.to_bits() }, Fx { bits: c.to_bits() })
}

} // verus!
