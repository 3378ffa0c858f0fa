//! Trusted declarations for the two outside crates that back the arena:
//! `typed_arena` supplies the append-only block store, `bytes` supplies the
//! byte buffers. Each wrapper states, over the uninterpreted content
//! functions below, what the outside source shows of the one call it makes.

use vstd::prelude::*;
use bytes::Bytes;
use bytes::BytesMut;
use typed_arena::Arena;

verus! {

#[verifier::external_type_specification]
#[verifier::external_body]
pub struct ExBytes(Bytes);

#[verifier::external_type_specification]
#[verifier::external_body]
pub struct ExBytesMut(BytesMut);

#[verifier::external_type_specification]
#[verifier::external_body]
#[verifier::reject_recursive_types(T)]
pub struct ExArena<T>(Arena<T>);

/// The bytes held by an immutable buffer, in order.
pub uninterp spec fn bytes_view(b: Bytes) -> Seq<u8>;

/// The bytes held by a mutable buffer, in order.
pub uninterp spec fn bytes_mut_view(b: BytesMut) -> Seq<u8>;

/// The buffers an arena holds, in allocation order.
pub uninterp spec fn arena_view(a: Arena<Bytes>) -> Seq<Seq<u8>>;

/// Relies on typed_arena::Arena::new: a fresh arena holds no values.
#[verifier::external_body]
pub(crate) fn arena_new() -> (r: Arena<Bytes>)
    ensures
        arena_view(r) == Seq::<Seq<u8>>::empty(),
{
    Arena::new()
}

/// Relies on typed_arena::Arena::len: the number of values allocated so far.
#[verifier::external_body]
pub(crate) fn arena_len(a: &Arena<Bytes>) -> (r: usize)
    ensures
        r == arena_view(*a).len(),
{
    a.len()
}

/// Relies on typed_arena::Arena::alloc: the value is stored after all the
/// values allocated before it, and none of those move.
#[verifier::external_body]
pub(crate) fn arena_alloc(a: &mut Arena<Bytes>, value: Bytes)
    ensures
        arena_view(*final(a)) == arena_view(*old(a)).push(bytes_view(value)),
{
    a.alloc(value);
}

/// Relies on typed_arena::Arena::into_vec: the stored values, in allocation
/// order.
#[verifier::external_body]
pub(crate) fn arena_into_vec(a: Arena<Bytes>) -> (r: Vec<Bytes>)
    ensures
        r@.len() == arena_view(a).len(),
        forall|i: int| 0 <= i < r@.len() ==> bytes_view(r@[i]) == arena_view(a)[i],
{
    a.into_vec()
}

/// Relies on bytes::Bytes::len: the number of bytes in the buffer.
#[verifier::external_body]
pub(crate) fn bytes_len(b: &Bytes) -> (r: usize)
    ensures
        r == bytes_view(*b).len(),
{
    b.len()
}

/// Relies on bytes::BytesMut::with_capacity: the returned buffer is empty;
/// the capacity is only an allocation hint.
#[verifier::external_body]
pub(crate) fn bytes_mut_with_capacity(capacity: usize) -> (r: BytesMut)
    ensures
        bytes_mut_view(r) == Seq::<u8>::empty(),
{
    BytesMut::with_capacity(capacity)
}

/// Relies on bytes::BytesMut::extend_from_slice: the slice's bytes are
/// appended at the end, and the bytes already held do not change.
#[verifier::external_body]
pub(crate) fn bytes_mut_extend(target: &mut BytesMut, block: &Bytes)
    ensures
        bytes_mut_view(*final(target)) == bytes_mut_view(*old(target)) + bytes_view(*block),
{
    target.extend_from_slice(block)
}

/// Relies on bytes::BytesMut::freeze: the same bytes, now immutable.
#[verifier::external_body]
pub(crate) fn bytes_mut_freeze(b: BytesMut) -> (r: Bytes)
    ensures
        bytes_view(r) == bytes_mut_view(b),
{
    b.freeze()
}

} // verus!
