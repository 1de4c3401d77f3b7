//! The binary shape of the values that cross the guest boundary.
//!
//! Each float lane is held as its IEEE-754 bit pattern, so values are copied
//! bit for bit and never reinterpreted. All multi-byte quantities are
//! little-endian, as WebAssembly linear memory is, and no value has padding.

use vstd::prelude::*;

verus! {

/// Size in bytes of a `GlmVec3`.
pub const VEC3_SIZE: usize = 12;

/// Size in bytes of a `GlmMat4x3`.
pub const MAT4X3_SIZE: usize = 48;

/// Size in bytes of a `Transform`, agreed with the engine and the guest builds.
pub const TRANSFORM_SIZE: usize = 60;

/// A 3-component float vector; each lane is an f32 bit pattern.
#[derive(Clone, Copy, Debug, PartialEq, Eq, Structural)]
pub struct GlmVec3 {
    pub x: u32,
    pub y: u32,
    pub z: u32,
}

/// A column-major 4x3 matrix: four columns of three lanes.
#[derive(Clone, Copy, Debug, PartialEq, Eq, Structural)]
pub struct GlmMat4x3 {
    pub c0: GlmVec3,
    pub c1: GlmVec3,
    pub c2: GlmVec3,
    pub c3: GlmVec3,
}

/// An affine offset matrix followed by a scale vector.
#[derive(Clone, Copy, Debug, PartialEq, Eq, Structural)]
pub struct Transform {
    pub offset: GlmMat4x3,
    pub scale: GlmVec3,
}

/// The four little-endian bytes of `v`.
pub open spec fn u32_le(v: u32) -> Seq<u8> {
    seq![
        (v & 0xff) as u8,
        ((v >> 8u32) & 0xff) as u8,
        ((v >> 16u32) & 0xff) as u8,
        ((v >> 24u32) & 0xff) as u8,
    ]
}

/// The value of four little-endian bytes.
pub open spec fn u32_of_le(b0: u8, b1: u8, b2: u8, b3: u8) -> u32 {
    (b0 as u32) | ((b1 as u32) << 8u32) | ((b2 as u32) << 16u32) | ((b3 as u32) << 24u32)
}

/// The `u32` stored little-endian at `b[at..at + 4]`.
pub open spec fn u32_at(b: Seq<u8>, at: int) -> u32 {
    u32_of_le(b[at], b[at + 1], b[at + 2], b[at + 3])
}

pub open spec fn vec3_bytes(v: GlmVec3) -> Seq<u8> {
    u32_le(v.x) + u32_le(v.y) + u32_le(v.z)
}

pub open spec fn mat4x3_bytes(m: GlmMat4x3) -> Seq<u8> {
    vec3_bytes(m.c0) + vec3_bytes(m.c1) + vec3_bytes(m.c2) + vec3_bytes(m.c3)
}

/// The guest-visible bytes of a transform: the offset matrix, then the scale.
pub open spec fn transform_bytes(t: Transform) -> Seq<u8> {
    mat4x3_bytes(t.offset) + vec3_bytes(t.scale)
}

/// The vector stored at `b[at..at + 12]`.
pub open spec fn vec3_at(b: Seq<u8>, at: int) -> GlmVec3 {
    GlmVec3 { x: u32_at(b, at), y: u32_at(b, at + 4), z: u32_at(b, at + 8) }
}

/// The matrix stored at `b[at..at + 48]`.
pub open spec fn mat4x3_at(b: Seq<u8>, at: int) -> GlmMat4x3 {
    GlmMat4x3 {
        c0: vec3_at(b, at),
        c1: vec3_at(b, at + 12),
        c2: vec3_at(b, at + 24),
        c3: vec3_at(b, at + 36),
    }
}

/// The transform stored at `b[at..at + 60]`.
pub open spec fn transform_at(b: Seq<u8>, at: int) -> Transform {
    Transform { offset: mat4x3_at(b, at), scale: vec3_at(b, at + 48) }
}

proof fn lemma_u32_le_round_trip(v: u32)
    ensures
        u32_of_le(u32_le(v)[0], u32_le(v)[1], u32_le(v)[2], u32_le(v)[3]) == v,
{
    let b0 = (v & 0xff) as u8;
    let b1 = ((v >> 8u32) & 0xff) as u8;
    let b2 = ((v >> 16u32) & 0xff) as u8;
    let b3 = ((v >> 24u32) & 0xff) as u8;
    assert((b0 as u32) | ((b1 as u32) << 8u32) | ((b2 as u32) << 16u32) | ((b3 as u32) << 24u32)
        == v) by (bit_vector)
        requires
            b0 == (v & 0xff) as u8,
            b1 == ((v >> 8u32) & 0xff) as u8,
            b2 == ((v >> 16u32) & 0xff) as u8,
            b3 == ((v >> 24u32) & 0xff) as u8,
    ;
}

proof fn lemma_le_u32_round_trip(b0: u8, b1: u8, b2: u8, b3: u8)
    ensures
        u32_le(u32_of_le(b0, b1, b2, b3)) == seq![b0, b1, b2, b3],
{
    let v = u32_of_le(b0, b1, b2, b3);
    assert((v & 0xff) as u8 == b0 && ((v >> 8u32) & 0xff) as u8 == b1 && ((v >> 16u32)
        & 0xff) as u8 == b2 && ((v >> 24u32) & 0xff) as u8 == b3) by (bit_vector)
        requires
            v == (b0 as u32) | ((b1 as u32) << 8u32) | ((b2 as u32) << 16u32) | ((b3 as u32)
                << 24u32),
    ;
    assert(u32_le(v) =~= seq![b0, b1, b2, b3]);
}

/// Decoding the bytes of a vector at any position gives the vector back.
pub proof fn lemma_vec3_round_trip(v: GlmVec3, pre: Seq<u8>, post: Seq<u8>)
    ensures
        vec3_at(pre + vec3_bytes(v) + post, pre.len() as int) == v,
{
    let b = pre + vec3_bytes(v) + post;
    let p = pre.len() as int;
    lemma_u32_le_round_trip(v.x);
    lemma_u32_le_round_trip(v.y);
    lemma_u32_le_round_trip(v.z);
    assert(b[p] == u32_le(v.x)[0] && b[p + 1] == u32_le(v.x)[1] && b[p + 2] == u32_le(v.x)[2]
        && b[p + 3] == u32_le(v.x)[3]);
    assert(b[p + 4] == u32_le(v.y)[0] && b[p + 5] == u32_le(v.y)[1] && b[p + 6] == u32_le(v.y)[2]
        && b[p + 7] == u32_le(v.y)[3]);
    assert(b[p + 8] == u32_le(v.z)[0] && b[p + 9] == u32_le(v.z)[1] && b[p + 10]
        == u32_le(v.z)[2] && b[p + 11] == u32_le(v.z)[3]);
}

/// Encoding the vector stored at any position gives those bytes back.
pub proof fn lemma_vec3_bytes_of_decoded(b: Seq<u8>, at: int)
    requires
        0 <= at,
        at + 12 <= b.len(),
    ensures
        vec3_bytes(vec3_at(b, at)) == b.subrange(at, at + 12),
{
    lemma_le_u32_round_trip(b[at], b[at + 1], b[at + 2], b[at + 3]);
    lemma_le_u32_round_trip(b[at + 4], b[at + 5], b[at + 6], b[at + 7]);
    lemma_le_u32_round_trip(b[at + 8], b[at + 9], b[at + 10], b[at + 11]);
    assert(vec3_bytes(vec3_at(b, at)) =~= b.subrange(at, at + 12));
}

/// A vector occupies `VEC3_SIZE` bytes.
pub proof fn lemma_vec3_size(v: GlmVec3)
    ensures
        vec3_bytes(v).len() == VEC3_SIZE,
{
}

/// The encoded sizes are fixed: a transform is exactly its matrix followed by
/// its scale vector, with no padding, and occupies `TRANSFORM_SIZE` bytes.
pub proof fn lemma_layout_sizes(t: Transform)
    ensures
        vec3_bytes(t.scale).len() == VEC3_SIZE,
        mat4x3_bytes(t.offset).len() == MAT4X3_SIZE,
        transform_bytes(t).len() == TRANSFORM_SIZE,
        TRANSFORM_SIZE == VEC3_SIZE + MAT4X3_SIZE,
        MAT4X3_SIZE == 4 * VEC3_SIZE,
{
}

/// Decoding the bytes of a transform at any position gives the transform back.
pub proof fn lemma_transform_round_trip(t: Transform, pre: Seq<u8>, post: Seq<u8>)
    ensures
        transform_at(pre + transform_bytes(t) + post, pre.len() as int) == t,
{
    let b = pre + transform_bytes(t) + post;
    let v0 = vec3_bytes(t.offset.c0);
    let v1 = vec3_bytes(t.offset.c1);
    let v2 = vec3_bytes(t.offset.c2);
    let v3 = vec3_bytes(t.offset.c3);
    let s = vec3_bytes(t.scale);
    assert(b =~= pre + v0 + (v1 + v2 + v3 + s + post));
    lemma_vec3_round_trip(t.offset.c0, pre, v1 + v2 + v3 + s + post);
    assert(b =~= (pre + v0) + v1 + (v2 + v3 + s + post));
    lemma_vec3_round_trip(t.offset.c1, pre + v0, v2 + v3 + s + post);
    assert(b =~= (pre + v0 + v1) + v2 + (v3 + s + post));
    lemma_vec3_round_trip(t.offset.c2, pre + v0 + v1, v3 + s + post);
    assert(b =~= (pre + v0 + v1 + v2) + v3 + (s + post));
    lemma_vec3_round_trip(t.offset.c3, pre + v0 + v1 + v2, s + post);
    assert(b =~= (pre + v0 + v1 + v2 + v3) + s + post);
    lemma_vec3_round_trip(t.scale, pre + v0 + v1 + v2 + v3, post);
}

/// Encoding the transform stored at any position gives those bytes back.
pub proof fn lemma_transform_bytes_of_decoded(b: Seq<u8>, at: int)
    requires
        0 <= at,
        at + 60 <= b.len(),
    ensures
        transform_bytes(transform_at(b, at)) == b.subrange(at, at + 60),
{
    lemma_vec3_bytes_of_decoded(b, at);
    lemma_vec3_bytes_of_decoded(b, at + 12);
    lemma_vec3_bytes_of_decoded(b, at + 24);
    lemma_vec3_bytes_of_decoded(b, at + 36);
    lemma_vec3_bytes_of_decoded(b, at + 48);
    assert(transform_bytes(transform_at(b, at)) =~= b.subrange(at, at + 60));
}

fn push_u32_le(buf: &mut Vec<u8>, v: u32)
    ensures
        final(buf)@ == old(buf)@ + u32_le(v),
{
    buf.push((v & 0xff) as u8);
    buf.push(((v >> 8u32) & 0xff) as u8);
    buf.push(((v >> 16u32) & 0xff) as u8);
    buf.push(((v >> 24u32) & 0xff) as u8);
    assert(final(buf)@ =~= old(buf)@ + u32_le(v));
}

fn read_u32_le(b: &[u8], at: usize) -> (r: u32)
    requires
        at + 4 <= b.len(),
    ensures
        r == u32_at(b@, at as int),
{
    (b[at] as u32) | ((b[at + 1] as u32) << 8u32) | ((b[at + 2] as u32) << 16u32) | ((b[at
        + 3] as u32) << 24u32)
}

impl GlmVec3 {
    /// Appends the guest-visible bytes of this vector to `buf`.
    pub fn write_bytes(&self, buf: &mut Vec<u8>)
        ensures
            final(buf)@ == old(buf)@ + vec3_bytes(*self),
    {
        push_u32_le(buf, self.x);
        push_u32_le(buf, self.y);
        push_u32_le(buf, self.z);
        assert(final(buf)@ =~= old(buf)@ + vec3_bytes(*self));
    }

    /// The guest-visible bytes of this vector.
    pub fn to_bytes(&self) -> (r: Vec<u8>)
        ensures
            r@ == vec3_bytes(*self),
    {
        let mut buf: Vec<u8> = Vec::new();
        self.write_bytes(&mut buf);
        assert(buf@ =~= vec3_bytes(*self));
        buf
    }

    /// The vector stored at `b[at..at + 12]`.
    pub fn read_from(b: &[u8], at: usize) -> (r: GlmVec3)
        requires
            at + VEC3_SIZE <= b.len(),
        ensures
            r == vec3_at(b@, at as int),
    {
        GlmVec3 { x: read_u32_le(b, at), y: read_u32_le(b, at + 4), z: read_u32_le(b, at + 8) }
    }
}

impl GlmMat4x3 {
    /// Appends the guest-visible bytes of this matrix to `buf`.
    pub fn write_bytes(&self, buf: &mut Vec<u8>)
        ensures
            final(buf)@ == old(buf)@ + mat4x3_bytes(*self),
    {
        self.c0.write_bytes(buf);
        self.c1.write_bytes(buf);
        self.c2.write_bytes(buf);
        self.c3.write_bytes(buf);
        assert(final(buf)@ =~= old(buf)@ + mat4x3_bytes(*self));
    }

    /// The matrix stored at `b[at..at + 48]`.
    pub fn read_from(b: &[u8], at: usize) -> (r: GlmMat4x3)
        requires
            at + MAT4X3_SIZE <= b.len(),
        ensures
            r == mat4x3_at(b@, at as int),
    {
        GlmMat4x3 {
            c0: GlmVec3::read_from(b, at),
            c1: GlmVec3::read_from(b, at + 12),
            c2: GlmVec3::read_from(b, at + 24),
            c3: GlmVec3::read_from(b, at + 36),
        }
    }
}

impl Transform {
    /// Appends the guest-visible bytes of this transform to `buf`.
    pub fn write_bytes(&self, buf: &mut Vec<u8>)
        ensures
            final(buf)@ == old(buf)@ + transform_bytes(*self),
    {
        self.offset.write_bytes(buf);
        self.scale.write_bytes(buf);
        assert(final(buf)@ =~= old(buf)@ + transform_bytes(*self));
    }

    /// The guest-visible bytes of this transform.
    pub fn to_bytes(&self) -> (r: Vec<u8>)
        ensures
            r@ == transform_bytes(*self),
            r@.len() == TRANSFORM_SIZE,
    {
        let mut buf: Vec<u8> = Vec::new();
        self.write_bytes(&mut buf);
        assert(buf@ =~= transform_bytes(*self));
        buf
    }

    /// The transform stored at `b[at..at + 60]`.
    pub fn read_from(b: &[u8], at: usize) -> (r: Transform)
        requires
            at + TRANSFORM_SIZE <= b.len(),
        ensures
            r == transform_at(b@, at as int),
    {
        Transform { offset: GlmMat4x3::read_from(b, at), scale: GlmVec3::read_from(b, at + 48) }
    }
}

} // verus!
