//! Small input helpers of the cameras.

use vstd::prelude::*;

use crate::codec::spec_negate_bits;
use crate::codec::negate_bits;

verus! {

/// The signed speed a pair of opposing keys asks for: the factor for the
/// positive key alone, its negation for the negative key alone, zero when
/// both or neither is down.  The factor is the bit pattern of a 32-bit
/// float; zero is the pattern of `0.0`.
pub open spec fn spec_speed(pos: bool, neg: bool, speed_factor: u32) -> u32 {
    if pos != neg {
        if pos {
            speed_factor
        } else {
            spec_negate_bits(speed_factor)
        }
    } else {
        0
    }
}

/// Picks the signed speed of one input axis.
pub fn speed(pos: bool, neg: bool, speed_factor: u32) -> (r: u32)
    ensures
        r == spec_speed(pos, neg, speed_factor),
{
    if pos != neg {
        if pos {
            speed_factor
        } else {
            negate_bits(speed_factor)
        }
    } else {
        0
    }
}

} // verus!
