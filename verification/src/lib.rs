//! A bounded, append-only byte-block arena.
//!
//! A [`ByteArena`] accumulates immutable byte buffers ("blocks") under two
//! admission limits fixed at construction: `limit`, the largest number of
//! blocks it will ever accept, and `size`, the largest byte length allowed
//! for any single block. Once admitted, a block is never mutated, moved or
//! removed. The arena is consumed by one of two terminal conversions: into
//! one contiguous buffer holding the concatenation of all blocks, or into
//! the ordered sequence of the blocks themselves.

use vstd::prelude::*;
use bytes::Bytes;
use bytes::BytesMut;

pub mod backing;

use crate::backing::arena_alloc;
use crate::backing::arena_into_vec;
use crate::backing::arena_len;
use crate::backing::arena_new;
use crate::backing::arena_view;
use crate::backing::bytes_len;
use crate::backing::bytes_mut_extend;
use crate::backing::bytes_mut_freeze;
use crate::backing::bytes_mut_with_capacity;
use crate::backing::bytes_mut_view;
use crate::backing::bytes_view;
use typed_arena::Arena;

verus! {

/// Cap, in bytes, on the capacity hint used when concatenating the blocks
/// into one contiguous buffer: a heuristic against over-reserving when
/// `limit * size` is huge, never a bound on the result's length.
const CONTIGUOUS_CAPACITY_CAP: usize = 1_024_000;

/// The two ways an append can be refused. The arena is unchanged on either.
#[derive(Clone, Copy, Debug, PartialEq, Eq, Structural)]
pub enum ByteArenaError {
    /// The arena already holds `limit` blocks.
    TooManyBlocks,
    /// The block is longer than `size` bytes.
    BlockTooLarge,
}

/// An append-only store of immutable byte blocks, bounded in block count by
/// `limit` and in single-block byte length by `size`.
pub struct ByteArena {
    arena: Arena<Bytes>,
    limit: usize,
    size: usize,
}

/// Collects a `limit` and a `size` for a [`ByteArena`]; both default to
/// `usize::MAX`, which stands for "unbounded".
pub struct ByteArenaBuilder {
    /// The block-count bound the arena will be built with.
    pub limit: usize,
    /// The single-block byte-length bound the arena will be built with.
    pub size: usize,
}

impl ByteArena {
    /// The blocks admitted so far, in insertion order, each as its byte
    /// sequence.
    pub closed spec fn blocks(&self) -> Seq<Seq<u8>> {
        arena_view(self.arena)
    }

    /// The largest number of blocks this arena will ever accept.
    pub closed spec fn block_limit(&self) -> usize {
        self.limit
    }

    /// The largest byte length allowed for any single block.
    pub closed spec fn block_size(&self) -> usize {
        self.size
    }

    /// The arena's invariant: never more than `limit` blocks, none longer
    /// than `size` bytes.
    pub open spec fn wf(&self) -> bool {
        &&& self.blocks().len() <= self.block_limit()
        &&& forall|i: int|
            0 <= i < self.blocks().len() ==> (#[trigger] self.blocks()[i]).len()
                <= self.block_size()
    }

    /// Allocates a fresh, empty, mutable scratch buffer, pre-sized with
    /// capacity `size` as a hint. It touches neither the blocks nor the
    /// bounds, however often it is called, and the buffer may still be
    /// filled past `size` — the later `append` is what rejects that.
    pub fn allocate(&mut self) -> (r: BytesMut)
        ensures
            *final(self) == *old(self),
            bytes_mut_view(r) == Seq::<u8>::empty(),
    {
        bytes_mut_with_capacity(self.size)
    }

    /// Admits `value` as the next block, checking the two bounds in a fixed
    /// order: first the block count against `limit` (so an arena at its
    /// limit answers `TooManyBlocks` whatever the value's length), then the
    /// value's byte length against `size`. On success the value is stored
    /// after every earlier block and its index is returned; on failure the
    /// arena is unchanged and the value is discarded.
    pub fn append(&mut self, value: Bytes) -> (r: Result<usize, ByteArenaError>)
        requires
            old(self).wf(),
        ensures
            final(self).wf(),
            final(self).block_limit() == old(self).block_limit(),
            final(self).block_size() == old(self).block_size(),
            old(self).blocks().len() == old(self).block_limit() ==> r == Err::<
                usize,
                ByteArenaError,
            >(ByteArenaError::TooManyBlocks) && final(self).blocks() == old(self).blocks(),
            old(self).blocks().len() != old(self).block_limit() && bytes_view(value).len() > old(
                self,
            ).block_size() ==> r == Err::<usize, ByteArenaError>(ByteArenaError::BlockTooLarge)
                && final(self).blocks() == old(self).blocks(),
            old(self).blocks().len() != old(self).block_limit() && bytes_view(value).len() <= old(
                self,
            ).block_size() ==> r == Ok::<usize, ByteArenaError>(old(self).blocks().len() as usize)
                && final(self).blocks() == old(self).blocks().push(bytes_view(value)),
    {
        let stored = arena_len(&self.arena);
        if stored == self.limit {
            return Err(ByteArenaError::TooManyBlocks);
        }
        if bytes_len(&value) > self.size {
            return Err(ByteArenaError::BlockTooLarge);
        }
        arena_alloc(&mut self.arena, value);
        Ok(stored)
    }

    /// Consumes the arena and concatenates all its blocks, in insertion
    /// order, into one immutable buffer with fresh storage. An empty arena
    /// yields an empty buffer; the operation cannot fail. The buffer's
    /// capacity is pre-reserved as `min(count * size, cap)` for a fixed cap,
    /// a hint with no effect on the result's contents.
    pub fn into_contiguous(self) -> (r: Bytes)
        ensures
            bytes_view(r) == self.blocks().flatten(),
    {
        let ghost all_blocks: Seq<Seq<u8>> = self.blocks();
        let ByteArena { arena, limit: _, size } = self;
        let blocks: Vec<Bytes> = arena_into_vec(arena);
        let n = blocks.len();
        let cap: usize = match n.checked_mul(size) {
            Some(product) => if product < CONTIGUOUS_CAPACITY_CAP {
                product
            } else {
                CONTIGUOUS_CAPACITY_CAP
            },
            None => CONTIGUOUS_CAPACITY_CAP,
        };
        let mut target: BytesMut = bytes_mut_with_capacity(cap);
        proof {
            assert(all_blocks.take(0) =~= Seq::<Seq<u8>>::empty());
        }
        let mut i: usize = 0;
        while i < n
            invariant
                n == blocks@.len(),
                i <= n,
                all_blocks.len() == blocks@.len(),
                forall|j: int| 0 <= j < blocks@.len() ==> bytes_view(blocks@[j]) == all_blocks[j],
                bytes_mut_view(target) == all_blocks.take(i as int).flatten(),
            decreases n - i,
        {
            bytes_mut_extend(&mut target, &blocks[i]);
            proof {
                assert(all_blocks.take(i as int + 1) =~= all_blocks.take(i as int).push(
                    all_blocks[i as int],
                ));
                lemma_concatenation_extends(all_blocks.take(i as int), all_blocks[i as int]);
            }
            i = i + 1;
        }
        proof {
            assert(all_blocks.take(n as int) =~= all_blocks);
        }
        bytes_mut_freeze(target)
    }

    /// Consumes the arena and hands out its blocks as an owned vector, in
    /// insertion order, each byte-equal to the value admitted; nothing is
    /// copied or concatenated, and the operation cannot fail.
    pub fn into_sequence(self) -> (r: Vec<Bytes>)
        ensures
            r@.len() == self.blocks().len(),
            forall|i: int| 0 <= i < r@.len() ==> bytes_view(r@[i]) == self.blocks()[i],
    {
        let ByteArena { arena, limit: _, size: _ } = self;
        arena_into_vec(arena)
    }

    /// Starts a builder whose limits default to "unbounded".
    pub fn builder() -> (r: ByteArenaBuilder)
        ensures
            r.limit == usize::MAX,
            r.size == usize::MAX,
    {
        ByteArenaBuilder { limit: usize::MAX, size: usize::MAX }
    }
}

impl ByteArenaBuilder {
    /// Sets the block-count bound.
    pub fn limit(self, limit: usize) -> (r: Self)
        ensures
            r.limit == limit,
            r.size == self.size,
    {
        ByteArenaBuilder { limit, size: self.size }
    }

    /// Sets the single-block byte-length bound.
    pub fn size(self, size: usize) -> (r: Self)
        ensures
            r.limit == self.limit,
            r.size == size,
    {
        ByteArenaBuilder { limit: self.limit, size }
    }

    /// Builds an empty arena with the collected bounds.
    pub fn build(self) -> (r: ByteArena)
        ensures
            r.block_limit() == self.limit,
            r.block_size() == self.size,
            r.blocks() == Seq::<Seq<u8>>::empty(),
            r.wf(),
    {
        ByteArena { arena: arena_new(), limit: self.limit, size: self.size }
    }
}

/// Concatenation follows admission order: growing a block sequence by one
/// more block and then flattening appends exactly that block's bytes at the
/// end. Applied once per successful append, this says the contiguous buffer
/// of an arena holding `v1, ..., vn` is byte-for-byte `v1 ++ ... ++ vn`.
pub proof fn lemma_concatenation_extends(blocks: Seq<Seq<u8>>, v: Seq<u8>)
    ensures
        blocks.push(v).flatten() == blocks.flatten() + v,
{
    blocks.lemma_flatten_push(v);
}

impl Default for ByteArena {
    /// An empty arena with both bounds "unbounded".
    fn default() -> (r: Self)
        ensures
            r.block_limit() == usize::MAX,
            r.block_size() == usize::MAX,
            r.blocks() == Seq::<Seq<u8>>::empty(),
            r.wf(),
    {
        ByteArena { arena: arena_new(), limit: usize::MAX, size: usize::MAX }
    }
}

} // verus!
