//! Sign handling of the rotor codec's packed output.
//!
//! A rotor and its negation represent the same rotation (the double cover),
//! so the codec must hand on one of the two consistently or interpolation
//! downstream shows sign artifacts.  The pick - the representative whose
//! scalar part is non-negative - is exact on the IEEE-754 bit patterns:
//! negating a 32-bit float flips its sign bit and nothing else.

use vstd::prelude::*;

use crate::vertices::Vec4Bits;

verus! {

/// The sign bit of a 32-bit float's pattern.
pub open spec fn spec_sign_bit(b: u32) -> bool {
    b & 0x8000_0000u32 == 0x8000_0000u32
}

/// Reads the sign bit of a 32-bit float's pattern.
pub fn sign_bit(b: u32) -> (r: bool)
    ensures
        r == spec_sign_bit(b),
{
    b & 0x8000_0000 == 0x8000_0000
}

/// The pattern of the negated float: the sign bit flipped.
pub open spec fn spec_negate_bits(b: u32) -> u32 {
    b ^ 0x8000_0000u32
}

/// Negates a 32-bit float on its pattern.
pub fn negate_bits(b: u32) -> (r: u32)
    ensures
        r == spec_negate_bits(b),
{
    b ^ 0x8000_0000
}

/// The rotor with all four components negated: the other representative of
/// the same rotation.
pub open spec fn spec_negate_rotor(r: Vec4Bits) -> Vec4Bits {
    Vec4Bits {
        x: spec_negate_bits(r.x),
        y: spec_negate_bits(r.y),
        z: spec_negate_bits(r.z),
        w: spec_negate_bits(r.w),
    }
}

/// The representative the codec hands on: of `r` and `-r`, the one whose
/// scalar part (the first component) does not carry the sign bit.
pub open spec fn spec_canonical_rotor(r: Vec4Bits) -> Vec4Bits {
    if spec_sign_bit(r.x) {
        spec_negate_rotor(r)
    } else {
        r
    }
}

/// Picks the double-cover representative with a non-negative scalar part.
pub fn canonicalize_rotor(r: Vec4Bits) -> (c: Vec4Bits)
    ensures
        c == spec_canonical_rotor(r),
        !spec_sign_bit(c.x),
{
    proof {
        assert(forall|b: u32|
            (b & 0x8000_0000u32 == 0x8000_0000u32) ==> !((#[trigger] (b ^ 0x8000_0000u32))
                & 0x8000_0000u32 == 0x8000_0000u32)) by (bit_vector);
    }
    if sign_bit(r.x) {
        Vec4Bits {
            x: negate_bits(r.x),
            y: negate_bits(r.y),
            z: negate_bits(r.z),
            w: negate_bits(r.w),
        }
    } else {
        r
    }
}

/// Law: canonicalization settles the double cover - it never leaves a
/// negative scalar part, it changes nothing but the choice between `r` and
/// `-r`, and both representatives canonicalize to the same rotor.
pub proof fn lemma_canonical_rotor_settles(r: Vec4Bits)
    ensures
        !spec_sign_bit(spec_canonical_rotor(r).x),
        spec_canonical_rotor(r) == r || spec_canonical_rotor(r) == spec_negate_rotor(r),
        spec_canonical_rotor(spec_negate_rotor(r)) == spec_canonical_rotor(r),
{
    assert(forall|b: u32|
        (b & 0x8000_0000u32 == 0x8000_0000u32) ==> !((#[trigger] (b ^ 0x8000_0000u32))
            & 0x8000_0000u32 == 0x8000_0000u32)) by (bit_vector);
    assert(forall|b: u32|
        !(b & 0x8000_0000u32 == 0x8000_0000u32) ==> ((#[trigger] (b ^ 0x8000_0000u32))
            & 0x8000_0000u32 == 0x8000_0000u32)) by (bit_vector);
    assert(forall|b: u32| #[trigger] (b ^ 0x8000_0000u32) ^ 0x8000_0000u32 == b) by (bit_vector);
}

} // verus!
