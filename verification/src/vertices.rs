//! The closed set of vertex formats: one packed record type per tangent-frame
//! encoding, each with its GPU attribute-layout descriptor.
//!
//! A packed record is the exact sequence of 32-bit scalars the GPU reads for
//! one vertex.  Scalars are carried as IEEE-754 bit patterns (`u32`); the
//! host program computes the encodings in floating point and hands the bit
//! patterns over.  The contract every format obeys: the packed record is the
//! concatenation of its fields in declared order, and its byte size equals
//! the sum of the declared attribute slot sizes - the buffer-binding contract
//! the GPU input layout depends on.

use vstd::prelude::*;

use crate::text::str_eq;

verus! {

// ---------------------------------------------------------------------------
// Scalar groups: bit patterns of 2, 3 and 4 packed 32-bit floats.
// ---------------------------------------------------------------------------

/// Bit patterns of two packed 32-bit floats.
#[derive(Clone, Copy, Debug, PartialEq, Eq, Structural)]
pub struct Vec2Bits {
    pub x: u32,
    pub y: u32,
}

/// Bit patterns of three packed 32-bit floats.
#[derive(Clone, Copy, Debug, PartialEq, Eq, Structural)]
pub struct Vec3Bits {
    pub x: u32,
    pub y: u32,
    pub z: u32,
}

/// Bit patterns of four packed 32-bit floats.
#[derive(Clone, Copy, Debug, PartialEq, Eq, Structural)]
pub struct Vec4Bits {
    pub x: u32,
    pub y: u32,
    pub z: u32,
    pub w: u32,
}

/// The eight scalars of a motor, as the two four-scalar halves in the order
/// the shader receives them.
#[derive(Clone, Copy, Debug, PartialEq, Eq, Structural)]
pub struct MotorBits {
    pub first: Vec4Bits,
    pub second: Vec4Bits,
}

/// The six scalars of a motor logarithm: two bivector triples.
#[derive(Clone, Copy, Debug, PartialEq, Eq, Structural)]
pub struct MotorLogBits {
    pub first: Vec3Bits,
    pub second: Vec3Bits,
}

impl Vec2Bits {
    /// The scalars of this group, in packing order.
    pub open spec fn scalars(self) -> Seq<u32> {
        seq![self.x, self.y]
    }
}

impl Vec3Bits {
    /// The scalars of this group, in packing order.
    pub open spec fn scalars(self) -> Seq<u32> {
        seq![self.x, self.y, self.z]
    }
}

impl Vec4Bits {
    /// The scalars of this group, in packing order.
    pub open spec fn scalars(self) -> Seq<u32> {
        seq![self.x, self.y, self.z, self.w]
    }
}

impl MotorBits {
    /// The scalars of this group, in packing order.
    pub open spec fn scalars(self) -> Seq<u32> {
        self.first.scalars() + self.second.scalars()
    }
}

impl MotorLogBits {
    /// The scalars of this group, in packing order.
    pub open spec fn scalars(self) -> Seq<u32> {
        self.first.scalars() + self.second.scalars()
    }
}

fn push_vec2(out: &mut Vec<u32>, v: Vec2Bits)
    ensures
        final(out)@ == old(out)@ + v.scalars(),
{
    out.push(v.x);
    out.push(v.y);
    proof {
        assert(out@ =~= old(out)@ + v.scalars());
    }
}

fn push_vec3(out: &mut Vec<u32>, v: Vec3Bits)
    ensures
        final(out)@ == old(out)@ + v.scalars(),
{
    out.push(v.x);
    out.push(v.y);
    out.push(v.z);
    proof {
        assert(out@ =~= old(out)@ + v.scalars());
    }
}

fn push_vec4(out: &mut Vec<u32>, v: Vec4Bits)
    ensures
        final(out)@ == old(out)@ + v.scalars(),
{
    out.push(v.x);
    out.push(v.y);
    out.push(v.z);
    out.push(v.w);
    proof {
        assert(out@ =~= old(out)@ + v.scalars());
    }
}

fn push_motor(out: &mut Vec<u32>, v: MotorBits)
    ensures
        final(out)@ == old(out)@ + v.scalars(),
{
    push_vec4(out, v.first);
    push_vec4(out, v.second);
    proof {
        assert(out@ =~= old(out)@ + v.scalars());
    }
}

fn push_motor_log(out: &mut Vec<u32>, v: MotorLogBits)
    ensures
        final(out)@ == old(out)@ + v.scalars(),
{
    push_vec3(out, v.first);
    push_vec3(out, v.second);
    proof {
        assert(out@ =~= old(out)@ + v.scalars());
    }
}

// ---------------------------------------------------------------------------
// Attribute layout descriptors.
// ---------------------------------------------------------------------------

/// One typed slot of a GPU vertex input layout.
#[derive(Clone, Copy, Debug, PartialEq, Eq, Structural)]
pub enum GlslDType {
    Vec2,
    Vec3,
    Vec4,
}

impl GlslDType {
    /// The byte size of one slot of this type.
    pub open spec fn spec_byte_size(self) -> nat {
        match self {
            GlslDType::Vec2 => 8,
            GlslDType::Vec3 => 12,
            GlslDType::Vec4 => 16,
        }
    }

    /// The byte size of one slot of this type.
    pub fn byte_size(self) -> (r: usize)
        ensures
            r == self.spec_byte_size(),
    {
        match self {
            GlslDType::Vec2 => 8,
            GlslDType::Vec3 => 12,
            GlslDType::Vec4 => 16,
        }
    }
}

/// The byte size of a whole attribute layout: the sum of its slot sizes.
pub open spec fn layout_bytes(l: Seq<GlslDType>) -> nat
    decreases l.len(),
{
    if l.len() == 0 {
        0
    } else {
        layout_bytes(l.drop_last()) + l.last().spec_byte_size()
    }
}

/// Sums the slot sizes of an attribute layout.
pub fn layout_size(l: &Vec<GlslDType>) -> (r: usize)
    requires
        layout_bytes(l@) <= usize::MAX,
    ensures
        r == layout_bytes(l@),
{
    let mut total: usize = 0;
    let mut i: usize = 0;
    while i < l.len()
        invariant
            i <= l.len(),
            layout_bytes(l@) <= usize::MAX,
            total == layout_bytes(l@.subrange(0, i as int)),
        decreases l.len() - i,
    {
        proof {
            assert(l@.subrange(0, i + 1).drop_last() =~= l@.subrange(0, i as int));
            lemma_layout_bytes_prefix_bound(l@, i + 1);
        }
        total = total + l[i].byte_size();
        i = i + 1;
    }
    proof {
        assert(l@.subrange(0, l@.len() as int) =~= l@);
    }
    total
}

// ---------------------------------------------------------------------------
// The canonical vertex and the packed record of each format.
// ---------------------------------------------------------------------------

/// The canonical per-vertex record every format conversion starts from:
/// position, texture coordinates, normal and tangent.
#[derive(Clone, Copy, Debug, PartialEq, Eq, Structural)]
pub struct PosUVNormTang {
    pub position: Vec3Bits,
    pub uv: Vec2Bits,
    pub normal: Vec3Bits,
    pub tangent: Vec3Bits,
}

impl PosUVNormTang {
    /// The record's scalars in packed order.
    pub open spec fn scalars(self) -> Seq<u32> {
        self.position.scalars() + self.uv.scalars() + self.normal.scalars()
            + self.tangent.scalars()
    }

    /// The declared attribute layout.
    pub open spec fn spec_layout() -> Seq<GlslDType> {
        seq![GlslDType::Vec3, GlslDType::Vec2, GlslDType::Vec3, GlslDType::Vec3]
    }

    /// The attribute layout descriptor handed to the GPU input state.
    pub fn attributes() -> (r: Vec<GlslDType>)
        ensures
            r@ == Self::spec_layout(),
    {
        let r = vec![GlslDType::Vec3, GlslDType::Vec2, GlslDType::Vec3, GlslDType::Vec3];
        proof {
            assert(r@ =~= Self::spec_layout());
        }
        r
    }

    /// Packs the record into its flat scalar sequence.
    pub fn pack(&self) -> (r: Vec<u32>)
        ensures
            r@ == self.scalars(),
    {
        let mut out: Vec<u32> = Vec::new();
        push_vec3(&mut out, self.position);
        push_vec2(&mut out, self.uv);
        push_vec3(&mut out, self.normal);
        push_vec3(&mut out, self.tangent);
        proof {
            assert(out@ =~= self.scalars());
        }
        out
    }
}

/// The packed record byte size of this format equals the byte size of its
/// declared attribute layout.
pub proof fn lemma_normtang_record_matches_layout(v: PosUVNormTang)
    ensures
        4 * v.scalars().len() == layout_bytes(PosUVNormTang::spec_layout()),
{
    assert(v.scalars().len() == 11);
    reveal_with_fuel(layout_bytes, 5);
    assert(layout_bytes(PosUVNormTang::spec_layout()) == 44);
}

/// The packed record of the `all` format: every encoding at once, for
/// exploratory rendering.
#[derive(Clone, Copy, Debug, PartialEq, Eq, Structural)]
pub struct All {
    pub position: Vec3Bits,
    pub uv: Vec2Bits,
    pub normal: Vec3Bits,
    pub tangent: Vec3Bits,
    pub bitangent: Vec3Bits,
    pub rotor: Vec4Bits,
    pub motor: MotorBits,
    pub outer_log_motor: MotorLogBits,
    pub outer_log_rotor: Vec3Bits,
    pub qtang: Vec3Bits,
    pub cayley_motor: MotorLogBits,
    pub cayley_rotor: Vec3Bits,
}

impl All {
    /// The record's scalars in packed order.
    pub open spec fn scalars(self) -> Seq<u32> {
        self.position.scalars() + self.uv.scalars() + self.normal.scalars()
            + self.tangent.scalars() + self.bitangent.scalars() + self.rotor.scalars()
            + self.motor.scalars() + self.outer_log_motor.scalars()
            + self.outer_log_rotor.scalars() + self.qtang.scalars() + self.cayley_motor.scalars()
            + self.cayley_rotor.scalars()
    }

    /// The declared attribute layout.
    pub open spec fn spec_layout() -> Seq<GlslDType> {
        seq![
            GlslDType::Vec3,
            GlslDType::Vec2,
            GlslDType::Vec3,
            GlslDType::Vec3,
            GlslDType::Vec3,
            GlslDType::Vec4,
            GlslDType::Vec4,
            GlslDType::Vec4,
            GlslDType::Vec3,
            GlslDType::Vec3,
            GlslDType::Vec3,
            GlslDType::Vec3,
            GlslDType::Vec3,
            GlslDType::Vec3,
            GlslDType::Vec3,
        ]
    }

    /// The attribute layout descriptor handed to the GPU input state.
    pub fn attributes() -> (r: Vec<GlslDType>)
        ensures
            r@ == Self::spec_layout(),
    {
        let r = vec![
            GlslDType::Vec3,
            GlslDType::Vec2,
            GlslDType::Vec3,
            GlslDType::Vec3,
            GlslDType::Vec3,
            GlslDType::Vec4,
            GlslDType::Vec4,
            GlslDType::Vec4,
            GlslDType::Vec3,
            GlslDType::Vec3,
            GlslDType::Vec3,
            GlslDType::Vec3,
            GlslDType::Vec3,
            GlslDType::Vec3,
            GlslDType::Vec3,
        ];
        proof {
            assert(r@ =~= Self::spec_layout());
        }
        r
    }

    /// Packs the record into its flat scalar sequence.
    pub fn pack(&self) -> (r: Vec<u32>)
        ensures
            r@ == self.scalars(),
    {
        let mut out: Vec<u32> = Vec::new();
        push_vec3(&mut out, self.position);
        push_vec2(&mut out, self.uv);
        push_vec3(&mut out, self.normal);
        push_vec3(&mut out, self.tangent);
        push_vec3(&mut out, self.bitangent);
        push_vec4(&mut out, self.rotor);
        push_motor(&mut out, self.motor);
        push_motor_log(&mut out, self.outer_log_motor);
        push_vec3(&mut out, self.outer_log_rotor);
        push_vec3(&mut out, self.qtang);
        push_motor_log(&mut out, self.cayley_motor);
        push_vec3(&mut out, self.cayley_rotor);
        proof {
            assert(out@ =~= self.scalars());
        }
        out
    }
}

/// The packed record byte size of this format equals the byte size of its
/// declared attribute layout.
pub proof fn lemma_all_record_matches_layout(v: All)
    ensures
        4 * v.scalars().len() == layout_bytes(All::spec_layout()),
{
    assert(v.scalars().len() == 47);
    reveal_with_fuel(layout_bytes, 16);
    assert(layout_bytes(All::spec_layout()) == 188);
}

/// The packed record of the `matrix` format: the tangent frame as three
/// rotation-matrix columns.
#[derive(Clone, Copy, Debug, PartialEq, Eq, Structural)]
pub struct Matrix {
    pub position: Vec3Bits,
    pub uv: Vec2Bits,
    pub normal: Vec3Bits,
    pub tangent: Vec3Bits,
    pub bitangent: Vec3Bits,
}

impl Matrix {
    /// The record's scalars in packed order.
    pub open spec fn scalars(self) -> Seq<u32> {
        self.position.scalars() + self.uv.scalars() + self.normal.scalars()
            + self.tangent.scalars() + self.bitangent.scalars()
    }

    /// The declared attribute layout.
    pub open spec fn spec_layout() -> Seq<GlslDType> {
        seq![GlslDType::Vec3, GlslDType::Vec2, GlslDType::Vec3, GlslDType::Vec3, GlslDType::Vec3]
    }

    /// The attribute layout descriptor handed to the GPU input state.
    pub fn attributes() -> (r: Vec<GlslDType>)
        ensures
            r@ == Self::spec_layout(),
    {
        let r = vec![
            GlslDType::Vec3,
            GlslDType::Vec2,
            GlslDType::Vec3,
            GlslDType::Vec3,
            GlslDType::Vec3,
        ];
        proof {
            assert(r@ =~= Self::spec_layout());
        }
        r
    }

    /// Packs the record into its flat scalar sequence.
    pub fn pack(&self) -> (r: Vec<u32>)
        ensures
            r@ == self.scalars(),
    {
        let mut out: Vec<u32> = Vec::new();
        push_vec3(&mut out, self.position);
        push_vec2(&mut out, self.uv);
        push_vec3(&mut out, self.normal);
        push_vec3(&mut out, self.tangent);
        push_vec3(&mut out, self.bitangent);
        proof {
            assert(out@ =~= self.scalars());
        }
        out
    }
}

/// The packed record byte size of this format equals the byte size of its
/// declared attribute layout.
pub proof fn lemma_matrix_record_matches_layout(v: Matrix)
    ensures
        4 * v.scalars().len() == layout_bytes(Matrix::spec_layout()),
{
    assert(v.scalars().len() == 14);
    reveal_with_fuel(layout_bytes, 6);
    assert(layout_bytes(Matrix::spec_layout()) == 56);
}

/// The packed record of the `rotor` format: the tangent frame as a unit
/// rotor.
#[derive(Clone, Copy, Debug, PartialEq, Eq, Structural)]
pub struct Rotor {
    pub position: Vec3Bits,
    pub uv: Vec2Bits,
    pub rotor: Vec4Bits,
}

impl Rotor {
    /// The record's scalars in packed order.
    pub open spec fn scalars(self) -> Seq<u32> {
        self.position.scalars() + self.uv.scalars() + self.rotor.scalars()
    }

    /// The declared attribute layout.
    pub open spec fn spec_layout() -> Seq<GlslDType> {
        seq![GlslDType::Vec3, GlslDType::Vec2, GlslDType::Vec4]
    }

    /// The attribute layout descriptor handed to the GPU input state.
    pub fn attributes() -> (r: Vec<GlslDType>)
        ensures
            r@ == Self::spec_layout(),
    {
        let r = vec![GlslDType::Vec3, GlslDType::Vec2, GlslDType::Vec4];
        proof {
            assert(r@ =~= Self::spec_layout());
        }
        r
    }

    /// Packs the record into its flat scalar sequence.
    pub fn pack(&self) -> (r: Vec<u32>)
        ensures
            r@ == self.scalars(),
    {
        let mut out: Vec<u32> = Vec::new();
        push_vec3(&mut out, self.position);
        push_vec2(&mut out, self.uv);
        push_vec4(&mut out, self.rotor);
        proof {
            assert(out@ =~= self.scalars());
        }
        out
    }
}

/// The packed record byte size of this format equals the byte size of its
/// declared attribute layout.
pub proof fn lemma_rotor_record_matches_layout(v: Rotor)
    ensures
        4 * v.scalars().len() == layout_bytes(Rotor::spec_layout()),
{
    assert(v.scalars().len() == 9);
    reveal_with_fuel(layout_bytes, 4);
    assert(layout_bytes(Rotor::spec_layout()) == 36);
}

/// The packed record of the `motor` format: the tangent frame and position
/// as a unit motor.
#[derive(Clone, Copy, Debug, PartialEq, Eq, Structural)]
pub struct Motor {
    pub position: Vec3Bits,
    pub uv: Vec2Bits,
    pub motor: MotorBits,
}

impl Motor {
    /// The record's scalars in packed order.
    pub open spec fn scalars(self) -> Seq<u32> {
        self.position.scalars() + self.uv.scalars() + self.motor.scalars()
    }

    /// The declared attribute layout.
    pub open spec fn spec_layout() -> Seq<GlslDType> {
        seq![GlslDType::Vec3, GlslDType::Vec2, GlslDType::Vec4, GlslDType::Vec4]
    }

    /// The attribute layout descriptor handed to the GPU input state.
    pub fn attributes() -> (r: Vec<GlslDType>)
        ensures
            r@ == Self::spec_layout(),
    {
        let r = vec![GlslDType::Vec3, GlslDType::Vec2, GlslDType::Vec4, GlslDType::Vec4];
        proof {
            assert(r@ =~= Self::spec_layout());
        }
        r
    }

    /// Packs the record into its flat scalar sequence.
    pub fn pack(&self) -> (r: Vec<u32>)
        ensures
            r@ == self.scalars(),
    {
        let mut out: Vec<u32> = Vec::new();
        push_vec3(&mut out, self.position);
        push_vec2(&mut out, self.uv);
        push_motor(&mut out, self.motor);
        proof {
            assert(out@ =~= self.scalars());
        }
        out
    }
}

/// The packed record byte size of this format equals the byte size of its
/// declared attribute layout.
pub proof fn lemma_motor_record_matches_layout(v: Motor)
    ensures
        4 * v.scalars().len() == layout_bytes(Motor::spec_layout()),
{
    assert(v.scalars().len() == 13);
    reveal_with_fuel(layout_bytes, 5);
    assert(layout_bytes(Motor::spec_layout()) == 52);
}

/// The packed record of the `qrotor` format: the quaternion-tangent
/// reduction, three scalars with handedness in a sign.
#[derive(Clone, Copy, Debug, PartialEq, Eq, Structural)]
pub struct QRotor {
    pub position: Vec3Bits,
    pub uv: Vec2Bits,
    pub outer_rotor: Vec3Bits,
}

impl QRotor {
    /// The record's scalars in packed order.
    pub open spec fn scalars(self) -> Seq<u32> {
        self.position.scalars() + self.uv.scalars() + self.outer_rotor.scalars()
    }

    /// The declared attribute layout.
    pub open spec fn spec_layout() -> Seq<GlslDType> {
        seq![GlslDType::Vec3, GlslDType::Vec2, GlslDType::Vec3]
    }

    /// The attribute layout descriptor handed to the GPU input state.
    pub fn attributes() -> (r: Vec<GlslDType>)
        ensures
            r@ == Self::spec_layout(),
    {
        let r = vec![GlslDType::Vec3, GlslDType::Vec2, GlslDType::Vec3];
        proof {
            assert(r@ =~= Self::spec_layout());
        }
        r
    }

    /// Packs the record into its flat scalar sequence.
    pub fn pack(&self) -> (r: Vec<u32>)
        ensures
            r@ == self.scalars(),
    {
        let mut out: Vec<u32> = Vec::new();
        push_vec3(&mut out, self.position);
        push_vec2(&mut out, self.uv);
        push_vec3(&mut out, self.outer_rotor);
        proof {
            assert(out@ =~= self.scalars());
        }
        out
    }
}

/// The packed record byte size of this format equals the byte size of its
/// declared attribute layout.
pub proof fn lemma_qrotor_record_matches_layout(v: QRotor)
    ensures
        4 * v.scalars().len() == layout_bytes(QRotor::spec_layout()),
{
    assert(v.scalars().len() == 8);
    reveal_with_fuel(layout_bytes, 4);
    assert(layout_bytes(QRotor::spec_layout()) == 32);
}

/// The packed record of the `cayleyrotor` format: the rotor's Cayley
/// logarithm, three scalars.
#[derive(Clone, Copy, Debug, PartialEq, Eq, Structural)]
pub struct CayleyRotor {
    pub position: Vec3Bits,
    pub uv: Vec2Bits,
    pub cayley_rotor: Vec3Bits,
}

impl CayleyRotor {
    /// The record's scalars in packed order.
    pub open spec fn scalars(self) -> Seq<u32> {
        self.position.scalars() + self.uv.scalars() + self.cayley_rotor.scalars()
    }

    /// The declared attribute layout.
    pub open spec fn spec_layout() -> Seq<GlslDType> {
        seq![GlslDType::Vec3, GlslDType::Vec2, GlslDType::Vec3]
    }

    /// The attribute layout descriptor handed to the GPU input state.
    pub fn attributes() -> (r: Vec<GlslDType>)
        ensures
            r@ == Self::spec_layout(),
    {
        let r = vec![GlslDType::Vec3, GlslDType::Vec2, GlslDType::Vec3];
        proof {
            assert(r@ =~= Self::spec_layout());
        }
        r
    }

    /// Packs the record into its flat scalar sequence.
    pub fn pack(&self) -> (r: Vec<u32>)
        ensures
            r@ == self.scalars(),
    {
        let mut out: Vec<u32> = Vec::new();
        push_vec3(&mut out, self.position);
        push_vec2(&mut out, self.uv);
        push_vec3(&mut out, self.cayley_rotor);
        proof {
            assert(out@ =~= self.scalars());
        }
        out
    }
}

/// The packed record byte size of this format equals the byte size of its
/// declared attribute layout.
pub proof fn lemma_cayleyrotor_record_matches_layout(v: CayleyRotor)
    ensures
        4 * v.scalars().len() == layout_bytes(CayleyRotor::spec_layout()),
{
    assert(v.scalars().len() == 8);
    reveal_with_fuel(layout_bytes, 4);
    assert(layout_bytes(CayleyRotor::spec_layout()) == 32);
}

/// The packed record of the `outerrotor` format: the rotor's
/// outer-exponential logarithm, three scalars.
#[derive(Clone, Copy, Debug, PartialEq, Eq, Structural)]
pub struct OuterRotor {
    pub position: Vec3Bits,
    pub uv: Vec2Bits,
    pub outer_rotor: Vec3Bits,
}

impl OuterRotor {
    /// The record's scalars in packed order.
    pub open spec fn scalars(self) -> Seq<u32> {
        self.position.scalars() + self.uv.scalars() + self.outer_rotor.scalars()
    }

    /// The declared attribute layout.
    pub open spec fn spec_layout() -> Seq<GlslDType> {
        seq![GlslDType::Vec3, GlslDType::Vec2, GlslDType::Vec3]
    }

    /// The attribute layout descriptor handed to the GPU input state.
    pub fn attributes() -> (r: Vec<GlslDType>)
        ensures
            r@ == Self::spec_layout(),
    {
        let r = vec![GlslDType::Vec3, GlslDType::Vec2, GlslDType::Vec3];
        proof {
            assert(r@ =~= Self::spec_layout());
        }
        r
    }

    /// Packs the record into its flat scalar sequence.
    pub fn pack(&self) -> (r: Vec<u32>)
        ensures
            r@ == self.scalars(),
    {
        let mut out: Vec<u32> = Vec::new();
        push_vec3(&mut out, self.position);
        push_vec2(&mut out, self.uv);
        push_vec3(&mut out, self.outer_rotor);
        proof {
            assert(out@ =~= self.scalars());
        }
        out
    }
}

/// The packed record byte size of this format equals the byte size of its
/// declared attribute layout.
pub proof fn lemma_outerrotor_record_matches_layout(v: OuterRotor)
    ensures
        4 * v.scalars().len() == layout_bytes(OuterRotor::spec_layout()),
{
    assert(v.scalars().len() == 8);
    reveal_with_fuel(layout_bytes, 4);
    assert(layout_bytes(OuterRotor::spec_layout()) == 32);
}

/// The packed record of the `cayleymotor` format: the motor's Cayley
/// logarithm, two bivector triples.
#[derive(Clone, Copy, Debug, PartialEq, Eq, Structural)]
pub struct CayleyMotor {
    pub position: Vec3Bits,
    pub uv: Vec2Bits,
    pub cayley_motor: MotorLogBits,
}

impl CayleyMotor {
    /// The record's scalars in packed order.
    pub open spec fn scalars(self) -> Seq<u32> {
        self.position.scalars() + self.uv.scalars() + self.cayley_motor.scalars()
    }

    /// The declared attribute layout.
    pub open spec fn spec_layout() -> Seq<GlslDType> {
        seq![GlslDType::Vec3, GlslDType::Vec2, GlslDType::Vec3, GlslDType::Vec3]
    }

    /// The attribute layout descriptor handed to the GPU input state.
    pub fn attributes() -> (r: Vec<GlslDType>)
        ensures
            r@ == Self::spec_layout(),
    {
        let r = vec![GlslDType::Vec3, GlslDType::Vec2, GlslDType::Vec3, GlslDType::Vec3];
        proof {
            assert(r@ =~= Self::spec_layout());
        }
        r
    }

    /// Packs the record into its flat scalar sequence.
    pub fn pack(&self) -> (r: Vec<u32>)
        ensures
            r@ == self.scalars(),
    {
        let mut out: Vec<u32> = Vec::new();
        push_vec3(&mut out, self.position);
        push_vec2(&mut out, self.uv);
        push_motor_log(&mut out, self.cayley_motor);
        proof {
            assert(out@ =~= self.scalars());
        }
        out
    }
}

/// The packed record byte size of this format equals the byte size of its
/// declared attribute layout.
pub proof fn lemma_cayleymotor_record_matches_layout(v: CayleyMotor)
    ensures
        4 * v.scalars().len() == layout_bytes(CayleyMotor::spec_layout()),
{
    assert(v.scalars().len() == 11);
    reveal_with_fuel(layout_bytes, 5);
    assert(layout_bytes(CayleyMotor::spec_layout()) == 44);
}

/// The packed record of the `outermotor` format: the motor's
/// outer-exponential logarithm, two bivector triples.
#[derive(Clone, Copy, Debug, PartialEq, Eq, Structural)]
pub struct OuterMotor {
    pub position: Vec3Bits,
    pub uv: Vec2Bits,
    pub outer_motor: MotorLogBits,
}

impl OuterMotor {
    /// The record's scalars in packed order.
    pub open spec fn scalars(self) -> Seq<u32> {
        self.position.scalars() + self.uv.scalars() + self.outer_motor.scalars()
    }

    /// The declared attribute layout.
    pub open spec fn spec_layout() -> Seq<GlslDType> {
        seq![GlslDType::Vec3, GlslDType::Vec2, GlslDType::Vec3, GlslDType::Vec3]
    }

    /// The attribute layout descriptor handed to the GPU input state.
    pub fn attributes() -> (r: Vec<GlslDType>)
        ensures
            r@ == Self::spec_layout(),
    {
        let r = vec![GlslDType::Vec3, GlslDType::Vec2, GlslDType::Vec3, GlslDType::Vec3];
        proof {
            assert(r@ =~= Self::spec_layout());
        }
        r
    }

    /// Packs the record into its flat scalar sequence.
    pub fn pack(&self) -> (r: Vec<u32>)
        ensures
            r@ == self.scalars(),
    {
        let mut out: Vec<u32> = Vec::new();
        push_vec3(&mut out, self.position);
        push_vec2(&mut out, self.uv);
        push_motor_log(&mut out, self.outer_motor);
        proof {
            assert(out@ =~= self.scalars());
        }
        out
    }
}

/// The packed record byte size of this format equals the byte size of its
/// declared attribute layout.
pub proof fn lemma_outermotor_record_matches_layout(v: OuterMotor)
    ensures
        4 * v.scalars().len() == layout_bytes(OuterMotor::spec_layout()),
{
    assert(v.scalars().len() == 11);
    reveal_with_fuel(layout_bytes, 5);
    assert(layout_bytes(OuterMotor::spec_layout()) == 44);
}

/// A position-and-normal record, used for gizmo geometry.
#[derive(Clone, Copy, Debug, PartialEq, Eq, Structural)]
pub struct PosNorm {
    pub position: Vec3Bits,
    pub normal: Vec3Bits,
}

impl PosNorm {
    /// The record's scalars in packed order.
    pub open spec fn scalars(self) -> Seq<u32> {
        self.position.scalars() + self.normal.scalars()
    }

    /// The declared attribute layout.
    pub open spec fn spec_layout() -> Seq<GlslDType> {
        seq![GlslDType::Vec3, GlslDType::Vec3]
    }

    /// The attribute layout descriptor handed to the GPU input state.
    pub fn attributes() -> (r: Vec<GlslDType>)
        ensures
            r@ == Self::spec_layout(),
    {
        let r = vec![GlslDType::Vec3, GlslDType::Vec3];
        proof {
            assert(r@ =~= Self::spec_layout());
        }
        r
    }

    /// Packs the record into its flat scalar sequence.
    pub fn pack(&self) -> (r: Vec<u32>)
        ensures
            r@ == self.scalars(),
    {
        let mut out: Vec<u32> = Vec::new();
        push_vec3(&mut out, self.position);
        push_vec3(&mut out, self.normal);
        proof {
            assert(out@ =~= self.scalars());
        }
        out
    }
}

/// The packed record byte size of this format equals the byte size of its
/// declared attribute layout.
pub proof fn lemma_posnorm_record_matches_layout(v: PosNorm)
    ensures
        4 * v.scalars().len() == layout_bytes(PosNorm::spec_layout()),
{
    assert(v.scalars().len() == 6);
    reveal_with_fuel(layout_bytes, 3);
    assert(layout_bytes(PosNorm::spec_layout()) == 24);
}

/// A position, texture-coordinate and colour record, used for UI geometry.
#[derive(Clone, Copy, Debug, PartialEq, Eq, Structural)]
pub struct PosUVCol {
    pub position: Vec2Bits,
    pub uv: Vec2Bits,
    pub color: Vec4Bits,
}

impl PosUVCol {
    /// The record's scalars in packed order.
    pub open spec fn scalars(self) -> Seq<u32> {
        self.position.scalars() + self.uv.scalars() + self.color.scalars()
    }

    /// The declared attribute layout.
    pub open spec fn spec_layout() -> Seq<GlslDType> {
        seq![GlslDType::Vec2, GlslDType::Vec2, GlslDType::Vec4]
    }

    /// The attribute layout descriptor handed to the GPU input state.
    pub fn attributes() -> (r: Vec<GlslDType>)
        ensures
            r@ == Self::spec_layout(),
    {
        let r = vec![GlslDType::Vec2, GlslDType::Vec2, GlslDType::Vec4];
        proof {
            assert(r@ =~= Self::spec_layout());
        }
        r
    }

    /// Packs the record into its flat scalar sequence.
    pub fn pack(&self) -> (r: Vec<u32>)
        ensures
            r@ == self.scalars(),
    {
        let mut out: Vec<u32> = Vec::new();
        push_vec2(&mut out, self.position);
        push_vec2(&mut out, self.uv);
        push_vec4(&mut out, self.color);
        proof {
            assert(out@ =~= self.scalars());
        }
        out
    }
}

/// The packed record byte size of this format equals the byte size of its
/// declared attribute layout.
pub proof fn lemma_posuvcol_record_matches_layout(v: PosUVCol)
    ensures
        4 * v.scalars().len() == layout_bytes(PosUVCol::spec_layout()),
{
    assert(v.scalars().len() == 8);
    reveal_with_fuel(layout_bytes, 4);
    assert(layout_bytes(PosUVCol::spec_layout()) == 32);
}

// ---------------------------------------------------------------------------
// The format registry: a closed set of named variants.
// ---------------------------------------------------------------------------

/// The closed set of vertex formats the renderer and the benchmark know.
#[derive(Clone, Copy, Debug, PartialEq, Eq, Structural)]
pub enum VertexFormat {
    All,
    Matrix,
    NormTang,
    Rotor,
    OuterRotor,
    QRotor,
    Motor,
    OuterMotor,
    CayleyMotor,
    CayleyRotor,
}

/// The format a selector name stands for; `None` for an unknown name, which
/// callers must treat as a fatal configuration error.
pub open spec fn spec_parse_format(name: Seq<char>) -> Option<VertexFormat> {
    if name == "all"@ {
        Some(VertexFormat::All)
    } else if name == "matrix"@ {
        Some(VertexFormat::Matrix)
    } else if name == "normtang"@ {
        Some(VertexFormat::NormTang)
    } else if name == "rotor"@ {
        Some(VertexFormat::Rotor)
    } else if name == "outerrotor"@ {
        Some(VertexFormat::OuterRotor)
    } else if name == "qrotor"@ {
        Some(VertexFormat::QRotor)
    } else if name == "motor"@ {
        Some(VertexFormat::Motor)
    } else if name == "outermotor"@ {
        Some(VertexFormat::OuterMotor)
    } else if name == "cayleymotor"@ {
        Some(VertexFormat::CayleyMotor)
    } else if name == "cayleyrotor"@ {
        Some(VertexFormat::CayleyRotor)
    } else {
        None
    }
}

/// Looks a selector name up in the registry.
pub fn parse_format(name: &str) -> (r: Option<VertexFormat>)
    ensures
        r == spec_parse_format(name@),
{
    if str_eq(name, "all") {
        Some(VertexFormat::All)
    } else if str_eq(name, "matrix") {
        Some(VertexFormat::Matrix)
    } else if str_eq(name, "normtang") {
        Some(VertexFormat::NormTang)
    } else if str_eq(name, "rotor") {
        Some(VertexFormat::Rotor)
    } else if str_eq(name, "outerrotor") {
        Some(VertexFormat::OuterRotor)
    } else if str_eq(name, "qrotor") {
        Some(VertexFormat::QRotor)
    } else if str_eq(name, "motor") {
        Some(VertexFormat::Motor)
    } else if str_eq(name, "outermotor") {
        Some(VertexFormat::OuterMotor)
    } else if str_eq(name, "cayleymotor") {
        Some(VertexFormat::CayleyMotor)
    } else if str_eq(name, "cayleyrotor") {
        Some(VertexFormat::CayleyRotor)
    } else {
        None
    }
}

/// The preprocessor define that selects this format's attribute block in a
/// shader source.
pub open spec fn spec_attr_define(f: VertexFormat) -> Seq<char> {
    match f {
        VertexFormat::All => "ALL"@,
        VertexFormat::Matrix => "MATRIX_ATTRIBUTES"@,
        VertexFormat::NormTang => "NORMTANG_ATTRIBUTES"@,
        VertexFormat::Rotor => "ROTOR_ATTRIBUTES"@,
        VertexFormat::OuterRotor => "OUTER_ROTOR_ATTRIBUTES"@,
        VertexFormat::QRotor => "QROTOR_ATTRIBUTES"@,
        VertexFormat::Motor => "MOTOR_ATTRIBUTES"@,
        VertexFormat::OuterMotor => "OUTER_MOTOR_ATTRIBUTES"@,
        VertexFormat::CayleyMotor => "CAYLEY_MOTOR_ATTRIBUTES"@,
        VertexFormat::CayleyRotor => "CAYLEY_ROTOR_ATTRIBUTES"@,
    }
}

/// The preprocessor define that selects this format's attribute block in a
/// shader source.
pub fn attr_define(f: VertexFormat) -> (r: &'static str)
    ensures
        r@ == spec_attr_define(f),
{
    match f {
        VertexFormat::All => "ALL",
        VertexFormat::Matrix => "MATRIX_ATTRIBUTES",
        VertexFormat::NormTang => "NORMTANG_ATTRIBUTES",
        VertexFormat::Rotor => "ROTOR_ATTRIBUTES",
        VertexFormat::OuterRotor => "OUTER_ROTOR_ATTRIBUTES",
        VertexFormat::QRotor => "QROTOR_ATTRIBUTES",
        VertexFormat::Motor => "MOTOR_ATTRIBUTES",
        VertexFormat::OuterMotor => "OUTER_MOTOR_ATTRIBUTES",
        VertexFormat::CayleyMotor => "CAYLEY_MOTOR_ATTRIBUTES",
        VertexFormat::CayleyRotor => "CAYLEY_ROTOR_ATTRIBUTES",
    }
}

/// The declared attribute layout of a format.
pub open spec fn spec_layout_of(f: VertexFormat) -> Seq<GlslDType> {
    match f {
        VertexFormat::All => All::spec_layout(),
        VertexFormat::Matrix => Matrix::spec_layout(),
        VertexFormat::NormTang => PosUVNormTang::spec_layout(),
        VertexFormat::Rotor => Rotor::spec_layout(),
        VertexFormat::OuterRotor => OuterRotor::spec_layout(),
        VertexFormat::QRotor => QRotor::spec_layout(),
        VertexFormat::Motor => Motor::spec_layout(),
        VertexFormat::OuterMotor => OuterMotor::spec_layout(),
        VertexFormat::CayleyMotor => CayleyMotor::spec_layout(),
        VertexFormat::CayleyRotor => CayleyRotor::spec_layout(),
    }
}

/// The attribute layout descriptor of a format.
pub fn attributes_of(f: VertexFormat) -> (r: Vec<GlslDType>)
    ensures
        r@ == spec_layout_of(f),
{
    match f {
        VertexFormat::All => All::attributes(),
        VertexFormat::Matrix => Matrix::attributes(),
        VertexFormat::NormTang => PosUVNormTang::attributes(),
        VertexFormat::Rotor => Rotor::attributes(),
        VertexFormat::OuterRotor => OuterRotor::attributes(),
        VertexFormat::QRotor => QRotor::attributes(),
        VertexFormat::Motor => Motor::attributes(),
        VertexFormat::OuterMotor => OuterMotor::attributes(),
        VertexFormat::CayleyMotor => CayleyMotor::attributes(),
        VertexFormat::CayleyRotor => CayleyRotor::attributes(),
    }
}

/// How many 32-bit scalars one packed record of this format holds.
pub open spec fn spec_scalar_count(f: VertexFormat) -> nat {
    match f {
        VertexFormat::All => 47,
        VertexFormat::Matrix => 14,
        VertexFormat::NormTang => 11,
        VertexFormat::Rotor => 9,
        VertexFormat::OuterRotor => 8,
        VertexFormat::QRotor => 8,
        VertexFormat::Motor => 13,
        VertexFormat::OuterMotor => 11,
        VertexFormat::CayleyMotor => 11,
        VertexFormat::CayleyRotor => 8,
    }
}

/// How many 32-bit scalars one packed record of this format holds.
pub fn scalar_count(f: VertexFormat) -> (r: usize)
    ensures
        r == spec_scalar_count(f),
{
    match f {
        VertexFormat::All => 47,
        VertexFormat::Matrix => 14,
        VertexFormat::NormTang => 11,
        VertexFormat::Rotor => 9,
        VertexFormat::OuterRotor => 8,
        VertexFormat::QRotor => 8,
        VertexFormat::Motor => 13,
        VertexFormat::OuterMotor => 11,
        VertexFormat::CayleyMotor => 11,
        VertexFormat::CayleyRotor => 8,
    }
}

/// Law: for every format in the registry, the packed record's byte size -
/// four bytes per scalar - equals the sum of its declared attribute-layout
/// slot sizes.  This is the buffer-binding contract of the GPU input state.
pub proof fn lemma_record_size_matches_layout(f: VertexFormat)
    ensures
        layout_bytes(spec_layout_of(f)) == 4 * spec_scalar_count(f),
{
    reveal_with_fuel(layout_bytes, 16);
    match f {
        VertexFormat::All => assert(layout_bytes(All::spec_layout()) == 188),
        VertexFormat::Matrix => assert(layout_bytes(Matrix::spec_layout()) == 56),
        VertexFormat::NormTang => assert(layout_bytes(PosUVNormTang::spec_layout()) == 44),
        VertexFormat::Rotor => assert(layout_bytes(Rotor::spec_layout()) == 36),
        VertexFormat::OuterRotor => assert(layout_bytes(OuterRotor::spec_layout()) == 32),
        VertexFormat::QRotor => assert(layout_bytes(QRotor::spec_layout()) == 32),
        VertexFormat::Motor => assert(layout_bytes(Motor::spec_layout()) == 52),
        VertexFormat::OuterMotor => assert(layout_bytes(OuterMotor::spec_layout()) == 44),
        VertexFormat::CayleyMotor => assert(layout_bytes(CayleyMotor::spec_layout()) == 44),
        VertexFormat::CayleyRotor => assert(layout_bytes(CayleyRotor::spec_layout()) == 32),
    }
}

/// The byte size of one packed record of this format.
pub fn record_byte_size(f: VertexFormat) -> (r: usize)
    ensures
        r == layout_bytes(spec_layout_of(f)),
        r == 4 * spec_scalar_count(f),
{
    proof {
        lemma_record_size_matches_layout(f);
    }
    let l = attributes_of(f);
    layout_size(&l)
}

/// The byte size of a prefix of a layout is at most the byte size of the
/// whole layout.
proof fn lemma_layout_bytes_prefix_bound(l: Seq<GlslDType>, n: int)
    requires
        0 <= n <= l.len(),
    ensures
        layout_bytes(l.subrange(0, n)) <= layout_bytes(l),
    decreases l.len() - n,
{
    if n == l.len() {
        assert(l.subrange(0, n) =~= l);
    } else {
        lemma_layout_bytes_prefix_bound(l, n + 1);
        assert(l.subrange(0, n + 1).drop_last() =~= l.subrange(0, n));
    }
}

} // verus!
