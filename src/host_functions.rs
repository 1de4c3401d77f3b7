//! The host functions that every guest module may import.
//!
//! Each marshaled primitive resolves its guest pointer arguments against the
//! current memory view, copies the pointees into host values, runs the host
//! primitive, and writes the result back through the output pointer. A
//! pointer that does not resolve ends the call with an error and leaves the
//! memory untouched.

use vstd::prelude::*;
use wasmer::MemoryView;
use crate::layout::{GlmVec3, Transform, vec3_at, transform_at, vec3_bytes, transform_bytes};
use crate::guest_memory::{
    GuestError, view_bytes, fits, splice, readable_c_str, c_str_chars, read_vec3,
    read_transform, write_vec3, write_transform, view_read_c_str, lemma_splice_read_back,
    lemma_splice_keeps, lemma_transform_read_after_write, lemma_vec3_read_after_write,
};
use crate::primitives::{
    identity_spec, from_pos_spec, position_spec, with_position_spec, transform_identity,
    transform_from_pos, transform_get_position, transform_set_position,
};

verus! {

/// A function offered to guest modules under the import module `env`.
#[derive(Clone, Copy, Debug, PartialEq, Eq, Structural)]
pub enum HostImport {
    PrintStr,
    PrintTransform,
    TransformIdentity,
    TransformFromPos,
    TransformGetPosition,
    TransformSetPosition,
}

/// The import name under which the guest sees `f`.
pub open spec fn import_name(f: HostImport) -> Seq<char> {
    match f {
        HostImport::PrintStr => "print_str"@,
        HostImport::PrintTransform => "print_transform"@,
        HostImport::TransformIdentity => "transform_identity"@,
        HostImport::TransformFromPos => "transform_from_pos"@,
        HostImport::TransformGetPosition => "transform_get_position"@,
        HostImport::TransformSetPosition => "transform_set_position"@,
    }
}

/// How many guest pointers `f` takes; it returns nothing to the guest.
pub open spec fn import_arity(f: HostImport) -> nat {
    match f {
        HostImport::PrintStr | HostImport::PrintTransform | HostImport::TransformIdentity => 1,
        _ => 2,
    }
}

impl HostImport {
    /// The import name under which the guest sees this function.
    pub fn name(&self) -> (r: &'static str)
        ensures
            r@ == import_name(*self),
    {
        match self {
            HostImport::PrintStr => "print_str",
            HostImport::PrintTransform => "print_transform",
            HostImport::TransformIdentity => "transform_identity",
            HostImport::TransformFromPos => "transform_from_pos",
            HostImport::TransformGetPosition => "transform_get_position",
            HostImport::TransformSetPosition => "transform_set_position",
        }
    }

    /// How many guest pointers this function takes.
    pub fn arity(&self) -> (r: usize)
        ensures
            r == import_arity(*self),
    {
        match self {
            HostImport::PrintStr | HostImport::PrintTransform | HostImport::TransformIdentity => 1,
            _ => 2,
        }
    }
}

/// Every host function, each once, in registration order.
pub fn host_imports() -> (r: Vec<HostImport>)
    ensures
        r@ == seq![
            HostImport::PrintStr,
            HostImport::PrintTransform,
            HostImport::TransformIdentity,
            HostImport::TransformFromPos,
            HostImport::TransformGetPosition,
            HostImport::TransformSetPosition,
        ],
{
    let mut r: Vec<HostImport> = Vec::new();
    r.push(HostImport::PrintStr);
    r.push(HostImport::PrintTransform);
    r.push(HostImport::TransformIdentity);
    r.push(HostImport::TransformFromPos);
    r.push(HostImport::TransformGetPosition);
    r.push(HostImport::TransformSetPosition);
    r
}

/// The text that `print_str` logs: the NUL-terminated UTF-8 string at `ptr`,
/// or `invalid ptr` when there is none there.
pub fn print_str(v: &MemoryView, ptr: u32) -> (r: String)
    ensures
        readable_c_str(view_bytes(*v), ptr as int) ==> r@ == c_str_chars(view_bytes(*v), ptr as int),
        !readable_c_str(view_bytes(*v), ptr as int) ==> r@ == "invalid ptr"@,
{
    match view_read_c_str(v, ptr) {
        Ok(s) => s,
        Err(_) => "invalid ptr".to_owned(),
    }
}

/// The transform that `print_transform` logs.
pub fn print_transform(v: &MemoryView, ptr: u32) -> (r: Result<Transform, GuestError>)
    ensures
        fits(view_bytes(*v), ptr, 60) ==> r == Ok::<Transform, GuestError>(
            transform_at(view_bytes(*v), ptr as int),
        ),
        !fits(view_bytes(*v), ptr, 60) ==> r == Err::<Transform, GuestError>(
            GuestError::PointerResolution { ptr, size: 60 },
        ),
{
    read_transform(v, ptr)
}

/// `transform_identity(out)`: writes the identity transform to `out`.
pub fn call_transform_identity(v: &mut MemoryView, out: u32) -> (r: Result<Transform, GuestError>)
    ensures
        fits(view_bytes(*old(v)), out, 60) ==> r == Ok::<Transform, GuestError>(identity_spec())
            && view_bytes(*final(v)) == splice(
            view_bytes(*old(v)),
            out as int,
            transform_bytes(identity_spec()),
        ),
        !fits(view_bytes(*old(v)), out, 60) ==> r == Err::<Transform, GuestError>(
            GuestError::PointerResolution { ptr: out, size: 60 },
        ) && view_bytes(*final(v)) == view_bytes(*old(v)),
{
    let t = transform_identity();
    match write_transform(v, out, &t) {
        Ok(()) => Ok(t),
        Err(e) => Err(e),
    }
}

/// `transform_from_pos(out, pos)`: writes to `out` the identity transform
/// moved to the vector at `pos`.
pub fn call_transform_from_pos(v: &mut MemoryView, out: u32, pos: u32) -> (r: Result<
    Transform,
    GuestError,
>)
    ensures
        ({
            let mem = view_bytes(*old(v));
            let t = from_pos_spec(vec3_at(mem, pos as int));
            fits(mem, pos, 12) && fits(mem, out, 60) ==> r == Ok::<Transform, GuestError>(t)
                && view_bytes(*final(v)) == splice(mem, out as int, transform_bytes(t))
        }),
        !fits(view_bytes(*old(v)), pos, 12) ==> r == Err::<Transform, GuestError>(
            GuestError::PointerResolution { ptr: pos, size: 12 },
        ) && view_bytes(*final(v)) == view_bytes(*old(v)),
        fits(view_bytes(*old(v)), pos, 12) && !fits(view_bytes(*old(v)), out, 60) ==> r == Err::<
            Transform,
            GuestError,
        >(GuestError::PointerResolution { ptr: out, size: 60 }) && view_bytes(*final(v))
            == view_bytes(*old(v)),
{
    let p = match read_vec3(v, pos) {
        Ok(p) => p,
        Err(e) => return Err(e),
    };
    let t = transform_from_pos(&p);
    match write_transform(v, out, &t) {
        Ok(()) => Ok(t),
        Err(e) => Err(e),
    }
}

/// `transform_get_position(out, t)`: writes to `out` the translation of the
/// transform at `t`.
pub fn call_transform_get_position(v: &mut MemoryView, out: u32, t: u32) -> (r: Result<
    GlmVec3,
    GuestError,
>)
    ensures
        ({
            let mem = view_bytes(*old(v));
            let p = position_spec(transform_at(mem, t as int));
            fits(mem, t, 60) && fits(mem, out, 12) ==> r == Ok::<GlmVec3, GuestError>(p)
                && view_bytes(*final(v)) == splice(mem, out as int, vec3_bytes(p))
        }),
        !fits(view_bytes(*old(v)), t, 60) ==> r == Err::<GlmVec3, GuestError>(
            GuestError::PointerResolution { ptr: t, size: 60 },
        ) && view_bytes(*final(v)) == view_bytes(*old(v)),
        fits(view_bytes(*old(v)), t, 60) && !fits(view_bytes(*old(v)), out, 12) ==> r == Err::<
            GlmVec3,
            GuestError,
        >(GuestError::PointerResolution { ptr: out, size: 12 }) && view_bytes(*final(v))
            == view_bytes(*old(v)),
{
    let tr = match read_transform(v, t) {
        Ok(tr) => tr,
        Err(e) => return Err(e),
    };
    let p = transform_get_position(&tr);
    match write_vec3(v, out, &p) {
        Ok(()) => Ok(p),
        Err(e) => Err(e),
    }
}

/// `transform_set_position(out, pos)`: replaces the translation of the
/// transform at `out` by the vector at `pos`, keeping its other lanes.
pub fn call_transform_set_position(v: &mut MemoryView, out: u32, pos: u32) -> (r: Result<
    Transform,
    GuestError,
>)
    ensures
        ({
            let mem = view_bytes(*old(v));
            let t = with_position_spec(transform_at(mem, out as int), vec3_at(mem, pos as int));
            fits(mem, out, 60) && fits(mem, pos, 12) ==> r == Ok::<Transform, GuestError>(t)
                && view_bytes(*final(v)) == splice(mem, out as int, transform_bytes(t))
        }),
        !fits(view_bytes(*old(v)), out, 60) ==> r == Err::<Transform, GuestError>(
            GuestError::PointerResolution { ptr: out, size: 60 },
        ) && view_bytes(*final(v)) == view_bytes(*old(v)),
        fits(view_bytes(*old(v)), out, 60) && !fits(view_bytes(*old(v)), pos, 12) ==> r == Err::<
            Transform,
            GuestError,
        >(GuestError::PointerResolution { ptr: pos, size: 12 }) && view_bytes(*final(v))
            == view_bytes(*old(v)),
{
    let cur = match read_transform(v, out) {
        Ok(cur) => cur,
        Err(e) => return Err(e),
    };
    let p = match read_vec3(v, pos) {
        Ok(p) => p,
        Err(e) => return Err(e),
    };
    let t = transform_set_position(&cur, &p);
    match write_transform(v, out, &t) {
        Ok(()) => Ok(t),
        Err(e) => Err(e),
    }
}

/// Marshaled round trip: `transform_from_pos(out, pos)` followed by
/// `transform_get_position(dst, out)` leaves at `dst` the vector that was at
/// `pos`, for all guest pointers that resolve.
pub proof fn lemma_marshaled_position_round_trip(mem: Seq<u8>, out: u32, pos: u32, dst: u32)
    requires
        fits(mem, pos, 12),
        fits(mem, out, 60),
        fits(mem, dst, 12),
    ensures
        ({
            let t = from_pos_spec(vec3_at(mem, pos as int));
            let mem1 = splice(mem, out as int, transform_bytes(t));
            let p = position_spec(transform_at(mem1, out as int));
            let mem2 = splice(mem1, dst as int, vec3_bytes(p));
            &&& p == vec3_at(mem, pos as int)
            &&& vec3_at(mem2, dst as int) == vec3_at(mem, pos as int)
        }),
{
    let t = from_pos_spec(vec3_at(mem, pos as int));
    let mem1 = splice(mem, out as int, transform_bytes(t));
    lemma_splice_read_back(mem, out as int, transform_bytes(t));
    lemma_transform_read_after_write(mem, out, t);
    let p = position_spec(transform_at(mem1, out as int));
    lemma_vec3_read_after_write(mem1, dst, p);
}

/// Two `transform_identity` calls on separate output pointers leave two
/// byte-identical transforms, whatever the memory held before.
pub proof fn lemma_identity_writes_identical(mem: Seq<u8>, a: u32, b: u32)
    requires
        fits(mem, a, 60),
        fits(mem, b, 60),
        a + 60 <= b || b + 60 <= a,
    ensures
        ({
            let i = transform_bytes(identity_spec());
            let mem2 = splice(splice(mem, a as int, i), b as int, i);
            &&& mem2.subrange(a as int, a + 60) == i
            &&& mem2.subrange(b as int, b + 60) == i
        }),
{
    let i = transform_bytes(identity_spec());
    let mem1 = splice(mem, a as int, i);
    lemma_splice_read_back(mem, a as int, i);
    lemma_splice_read_back(mem1, b as int, i);
    lemma_splice_keeps(mem1, b as int, i, a as int, a + 60);
}

} // verus!
