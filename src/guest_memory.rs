//! Bounds-checked, typed access to a guest module's linear memory.
//!
//! Guest pointers are offsets into the linear memory, never host addresses.
//! Every access goes through the runtime's checked `read`/`write`, which
//! refuse any range that does not lie wholly inside the memory; a view is
//! used for the span of one host call only, since growing the memory
//! invalidates it.

use vstd::prelude::*;
use vstd::utf8::{valid_utf8, decode_utf8};
use wasmer::{MemoryView, MemoryAccessError, WasmPtr};
use crate::layout::{
    GlmVec3, Transform, VEC3_SIZE, TRANSFORM_SIZE, vec3_bytes, transform_bytes, vec3_at,
    transform_at, lemma_vec3_round_trip, lemma_transform_round_trip, lemma_vec3_size, lemma_layout_sizes,
};

verus! {

#[verifier::external_type_specification]
#[verifier::external_body]
pub struct ExMemoryView<'a>(MemoryView<'a>);

#[verifier::external_type_specification]
#[verifier::external_body]
pub struct ExMemoryAccessError(MemoryAccessError);

/// The bytes of the linear memory that a view covers. While the library
/// holds a view, during one host call on the one thread that runs the guest,
/// nothing but `view_write` through that view changes them.
pub uninterp spec fn view_bytes(v: MemoryView) -> Seq<u8>;

/// Relies on wasmer::MemoryView::read: it fills the whole buffer with the
/// memory's bytes at `offset`, or fails when the range passes the end.
#[verifier::external_body]
fn view_read(v: &MemoryView, offset: u64, len: usize) -> (r: Result<Vec<u8>, MemoryAccessError>)
    ensures
        r is Ok <==> offset + len <= view_bytes(*v).len(),
        r matches Ok(b) ==> b@ == view_bytes(*v).subrange(offset as int, offset + len),
{
    let mut buf = vec![0u8; len];
    v.read(offset, &mut buf).map(|_| buf)
}

/// Relies on wasmer::MemoryView::write: it copies `data` into the memory at
/// `offset`, or fails and writes nothing when the range passes the end.
#[verifier::external_body]
fn view_write(v: &mut MemoryView, offset: u64, data: &[u8]) -> (r: Result<(), MemoryAccessError>)
    ensures
        r is Ok <==> offset + data@.len() <= view_bytes(*old(v)).len(),
        r is Ok ==> view_bytes(*final(v)) == splice(view_bytes(*old(v)), offset as int, data@),
        r is Err ==> view_bytes(*final(v)) == view_bytes(*old(v)),
{
    v.write(offset, data)
}

/// Relies on wasmer::WasmPtr::read_utf8_string_with_nul: it reads the bytes
/// from `ptr` up to the first NUL byte, which must lie inside the memory, and
/// decodes them as UTF-8.
#[verifier::external_body]
pub(crate) fn view_read_c_str(v: &MemoryView, ptr: u32) -> (r: Result<String, MemoryAccessError>)
    ensures
        r is Ok <==> readable_c_str(view_bytes(*v), ptr as int),
        r matches Ok(s) ==> s@ == c_str_chars(view_bytes(*v), ptr as int),
{
    WasmPtr::<u8>::new(ptr).read_utf8_string_with_nul(v)
}

/// `mem` with `data` written over it from `at` on.
pub open spec fn splice(mem: Seq<u8>, at: int, data: Seq<u8>) -> Seq<u8> {
    mem.subrange(0, at) + data + mem.subrange(at + data.len(), mem.len() as int)
}

/// The `size` bytes from `ptr` on lie inside the memory.
pub open spec fn fits(mem: Seq<u8>, ptr: u32, size: nat) -> bool {
    ptr + size <= mem.len()
}

/// `end` holds the first NUL byte at or after `ptr`, inside the memory.
pub open spec fn nul_at(mem: Seq<u8>, ptr: int, end: int) -> bool {
    &&& ptr <= end < mem.len()
    &&& mem[end] == 0
    &&& forall|i: int| ptr <= i < end ==> mem[i] != 0
}

/// A NUL byte follows `ptr` inside the memory, and the bytes before it are
/// valid UTF-8.
pub open spec fn readable_c_str(mem: Seq<u8>, ptr: int) -> bool {
    exists|end: int| nul_at(mem, ptr, end) && valid_utf8(mem.subrange(ptr, end))
}

/// The characters of the NUL-terminated string at `ptr`.
pub open spec fn c_str_chars(mem: Seq<u8>, ptr: int) -> Seq<char> {
    decode_utf8(mem.subrange(ptr, choose|end: int| nul_at(mem, ptr, end)))
}

/// Writing a region and reading it back gives the written bytes; the memory
/// keeps its length.
pub proof fn lemma_splice_read_back(mem: Seq<u8>, at: int, data: Seq<u8>)
    requires
        0 <= at,
        at + data.len() <= mem.len(),
    ensures
        splice(mem, at, data).len() == mem.len(),
        splice(mem, at, data).subrange(at, at + data.len()) == data,
{
    assert(splice(mem, at, data).subrange(at, at + data.len()) =~= data);
}

/// Writing a region leaves every byte outside it as it was.
pub proof fn lemma_splice_keeps(mem: Seq<u8>, at: int, data: Seq<u8>, lo: int, hi: int)
    requires
        0 <= at,
        at + data.len() <= mem.len(),
        0 <= lo <= hi <= mem.len(),
        hi <= at || at + data.len() <= lo,
    ensures
        splice(mem, at, data).subrange(lo, hi) == mem.subrange(lo, hi),
{
    assert(splice(mem, at, data).subrange(lo, hi) =~= mem.subrange(lo, hi));
}

/// A transform written at `at` reads back as the same transform.
pub proof fn lemma_transform_read_after_write(mem: Seq<u8>, at: u32, t: Transform)
    requires
        fits(mem, at, 60),
    ensures
        transform_at(splice(mem, at as int, transform_bytes(t)), at as int) == t,
{
    let pre = mem.subrange(0, at as int);
    let post = mem.subrange(at + 60, mem.len() as int);
    lemma_layout_sizes(t);
    let w = splice(mem, at as int, transform_bytes(t));
    assert(w == pre + transform_bytes(t) + post);
    lemma_transform_round_trip(t, pre, post);
}

/// A vector written at `at` reads back as the same vector.
pub proof fn lemma_vec3_read_after_write(mem: Seq<u8>, at: u32, v: GlmVec3)
    requires
        fits(mem, at, 12),
    ensures
        vec3_at(splice(mem, at as int, vec3_bytes(v)), at as int) == v,
{
    let pre = mem.subrange(0, at as int);
    let post = mem.subrange(at + 12, mem.len() as int);
    lemma_vec3_size(v);
    let w = splice(mem, at as int, vec3_bytes(v));
    assert(w == pre + vec3_bytes(v) + post);
    lemma_vec3_round_trip(v, pre, post);
}

/// Why a marshaled guest call could not complete.
#[derive(Clone, Copy, Debug, PartialEq, Eq, Structural)]
pub enum GuestError {
    /// The `size` bytes at guest pointer `ptr` do not lie inside the memory.
    PointerResolution { ptr: u32, size: usize },
}

/// The error for the `size` bytes at `ptr`.
pub open spec fn unresolved(ptr: u32, size: usize) -> Result<(), GuestError> {
    Err(GuestError::PointerResolution { ptr, size })
}

/// Reads the vector at guest pointer `ptr`.
pub fn read_vec3(v: &MemoryView, ptr: u32) -> (r: Result<GlmVec3, GuestError>)
    ensures
        fits(view_bytes(*v), ptr, 12) ==> r == Ok::<GlmVec3, GuestError>(
            vec3_at(view_bytes(*v), ptr as int),
        ),
        !fits(view_bytes(*v), ptr, 12) ==> r == Err::<GlmVec3, GuestError>(
            GuestError::PointerResolution { ptr, size: VEC3_SIZE },
        ),
{
    match view_read(v, ptr as u64, VEC3_SIZE) {
        Ok(b) => Ok(GlmVec3::read_from(b.as_slice(), 0)),
        Err(_) => Err(GuestError::PointerResolution { ptr, size: VEC3_SIZE }),
    }
}

/// Reads the transform at guest pointer `ptr`.
pub fn read_transform(v: &MemoryView, ptr: u32) -> (r: Result<Transform, GuestError>)
    ensures
        fits(view_bytes(*v), ptr, 60) ==> r == Ok::<Transform, GuestError>(
            transform_at(view_bytes(*v), ptr as int),
        ),
        !fits(view_bytes(*v), ptr, 60) ==> r == Err::<Transform, GuestError>(
            GuestError::PointerResolution { ptr, size: TRANSFORM_SIZE },
        ),
{
    match view_read(v, ptr as u64, TRANSFORM_SIZE) {
        Ok(b) => Ok(Transform::read_from(b.as_slice(), 0)),
        Err(_) => Err(GuestError::PointerResolution { ptr, size: TRANSFORM_SIZE }),
    }
}

/// Writes `val` at guest pointer `ptr`; nothing is written when it does not fit.
pub fn write_vec3(v: &mut MemoryView, ptr: u32, val: &GlmVec3) -> (r: Result<(), GuestError>)
    ensures
        fits(view_bytes(*old(v)), ptr, 12) ==> r is Ok && view_bytes(*final(v)) == splice(
            view_bytes(*old(v)),
            ptr as int,
            vec3_bytes(*val),
        ),
        !fits(view_bytes(*old(v)), ptr, 12) ==> r == unresolved(ptr, VEC3_SIZE) && view_bytes(
            *final(v),
        ) == view_bytes(*old(v)),
{
    let bytes = val.to_bytes();
    match view_write(v, ptr as u64, bytes.as_slice()) {
        Ok(()) => Ok(()),
        Err(_) => Err(GuestError::PointerResolution { ptr, size: VEC3_SIZE }),
    }
}

/// Writes `val` at guest pointer `ptr`; nothing is written when it does not fit.
pub fn write_transform(v: &mut MemoryView, ptr: u32, val: &Transform) -> (r: Result<(), GuestError>)
    ensures
        fits(view_bytes(*old(v)), ptr, 60) ==> r is Ok && view_bytes(*final(v)) == splice(
            view_bytes(*old(v)),
            ptr as int,
            transform_bytes(*val),
        ),
        !fits(view_bytes(*old(v)), ptr, 60) ==> r == unresolved(ptr, TRANSFORM_SIZE)
            && view_bytes(*final(v)) == view_bytes(*old(v)),
{
    let bytes = val.to_bytes();
    match view_write(v, ptr as u64, bytes.as_slice()) {
        Ok(()) => Ok(()),
        Err(_) => Err(GuestError::PointerResolution { ptr, size: TRANSFORM_SIZE }),
    }
}

} // verus!
