//! Two- and four-component vectors as the UI layer's wire format.
//!
//! The UI backend exchanges these with native code, so their shape is fixed:
//! two (resp. four) 32-bit scalars.  Each scalar is held as the bit pattern
//! of the 32-bit float the backend reads; the all-zero pattern is the float
//! `0.0`.

use vstd::prelude::*;

verus! {

/// A two-component vector; each field is the IEEE-754 bit pattern of one
/// 32-bit float.
#[derive(Clone, Copy, Debug, PartialEq, Eq, Structural)]
pub struct ImVec2 {
    pub x: u32,
    pub y: u32,
}

impl ImVec2 {
    /// Builds the vector with the given component bit patterns.
    pub fn new(x: u32, y: u32) -> (r: ImVec2)
        ensures
            r == (ImVec2 { x, y }),
    {
        ImVec2 { x, y }
    }

    /// The zero vector: every component is the bit pattern of `0.0`.
    pub fn zero() -> (r: ImVec2)
        ensures
            r == (ImVec2 { x: 0u32, y: 0u32 }),
    {
        ImVec2 { x: 0, y: 0 }
    }
}

/// A four-component vector; each field is the IEEE-754 bit pattern of one
/// 32-bit float.
#[derive(Clone, Copy, Debug, PartialEq, Eq, Structural)]
pub struct ImVec4 {
    pub x: u32,
    pub y: u32,
    pub z: u32,
    pub w: u32,
}

impl ImVec4 {
    /// Builds the vector with the given component bit patterns.
    pub fn new(x: u32, y: u32, z: u32, w: u32) -> (r: ImVec4)
        ensures
            r == (ImVec4 { x, y, z, w }),
    {
        ImVec4 { x, y, z, w }
    }

    /// The zero vector: every component is the bit pattern of `0.0`.
    pub fn zero() -> (r: ImVec4)
        ensures
            r == (ImVec4 { x: 0u32, y: 0u32, z: 0u32, w: 0u32 }),
    {
        ImVec4 { x: 0, y: 0, z: 0, w: 0 }
    }
}

} // verus!
