//! The transform primitives that the host offers to guest modules.
//!
//! This is the library's own statement of the engine's transform entry
//! points (`transform_identity`, `transform_from_pos`,
//! `transform_get_position`, `transform_set_position`); nothing here calls
//! into the engine. The engine's identity has unit axes, zero translation and
//! unit scale, and a transform's position is the last column of its offset
//! matrix. The primitives only move lanes between fields, so they are exact
//! on bit patterns: no float arithmetic is involved.

use vstd::prelude::*;
use crate::layout::{GlmVec3, GlmMat4x3, Transform, transform_bytes, transform_at};

verus! {

/// Bit pattern of the f32 value 1.0.
pub const ONE_BITS: u32 = 0x3f80_0000;

/// Bit pattern of the f32 value +0.0.
pub const ZERO_BITS: u32 = 0;

/// A vector given by three lane bit patterns.
pub open spec fn lanes(x: u32, y: u32, z: u32) -> GlmVec3 {
    GlmVec3 { x, y, z }
}

/// The identity transform: unit axes, zero translation, unit scale.
pub open spec fn identity_spec() -> Transform {
    Transform {
        offset: GlmMat4x3 {
            c0: lanes(ONE_BITS, ZERO_BITS, ZERO_BITS),
            c1: lanes(ZERO_BITS, ONE_BITS, ZERO_BITS),
            c2: lanes(ZERO_BITS, ZERO_BITS, ONE_BITS),
            c3: lanes(ZERO_BITS, ZERO_BITS, ZERO_BITS),
        },
        scale: lanes(ONE_BITS, ONE_BITS, ONE_BITS),
    }
}

/// The translation of a transform: the last column of its offset matrix.
pub open spec fn position_spec(t: Transform) -> GlmVec3 {
    t.offset.c3
}

/// `t` with its translation replaced by `pos`.
pub open spec fn with_position_spec(t: Transform, pos: GlmVec3) -> Transform {
    Transform { offset: GlmMat4x3 { c3: pos, ..t.offset }, ..t }
}

/// The identity transform moved to `pos`.
pub open spec fn from_pos_spec(pos: GlmVec3) -> Transform {
    with_position_spec(identity_spec(), pos)
}

fn vec3(x: u32, y: u32, z: u32) -> (r: GlmVec3)
    ensures
        r == lanes(x, y, z),
{
    GlmVec3 { x, y, z }
}

/// The identity transform.
pub fn transform_identity() -> (r: Transform)
    ensures
        r == identity_spec(),
{
    Transform {
        offset: GlmMat4x3 {
            c0: vec3(ONE_BITS, ZERO_BITS, ZERO_BITS),
            c1: vec3(ZERO_BITS, ONE_BITS, ZERO_BITS),
            c2: vec3(ZERO_BITS, ZERO_BITS, ONE_BITS),
            c3: vec3(ZERO_BITS, ZERO_BITS, ZERO_BITS),
        },
        scale: vec3(ONE_BITS, ONE_BITS, ONE_BITS),
    }
}

/// The identity transform translated to `pos`.
pub fn transform_from_pos(pos: &GlmVec3) -> (r: Transform)
    ensures
        r == from_pos_spec(*pos),
{
    let t = transform_identity();
    transform_set_position(&t, pos)
}

/// The translation of `t`.
pub fn transform_get_position(t: &Transform) -> (r: GlmVec3)
    ensures
        r == position_spec(*t),
{
    t.offset.c3
}

/// `t` with its translation replaced by `pos`; every other lane is kept.
pub fn transform_set_position(t: &Transform, pos: &GlmVec3) -> (r: Transform)
    ensures
        r == with_position_spec(*t, *pos),
{
    let mut r = *t;
    r.offset.c3 = *pos;
    r
}

/// Building a transform from a position and reading its position back gives
/// the same position, also when the transform travels through guest memory
/// at any offset.
pub proof fn lemma_position_round_trip(pos: GlmVec3, pre: Seq<u8>, post: Seq<u8>)
    ensures
        position_spec(from_pos_spec(pos)) == pos,
        position_spec(transform_at(pre + transform_bytes(from_pos_spec(pos)) + post, pre.len() as int))
            == pos,
{
    crate::layout::lemma_transform_round_trip(from_pos_spec(pos), pre, post);
}

/// Two identity transforms are identical down to their bytes.
pub proof fn lemma_identity_deterministic(a: Transform, b: Transform)
    requires
        a == identity_spec(),
        b == identity_spec(),
    ensures
        transform_bytes(a) == transform_bytes(b),
{
}

/// Setting a position and reading it back gives that position; setting the
/// position read from a transform leaves it unchanged.
pub proof fn lemma_set_get_position(t: Transform, pos: GlmVec3)
    ensures
        position_spec(with_position_spec(t, pos)) == pos,
        with_position_spec(t, position_spec(t)) == t,
        with_position_spec(with_position_spec(t, pos), pos) == with_position_spec(t, pos),
{
}

} // verus!
