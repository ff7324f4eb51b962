//! Buffer pools: reusable serialization buffers and reusable transaction builders.

use vstd::prelude::*;

use crossbeam_queue::ArrayQueue;

use crate::token_accounts::Instruction;
use crate::system_ix::ix_views;
use crate::transaction::{copy_instruction, ix_view_of};

verus! {

/// The buffers waiting in a buffer queue, oldest first.
pub uninterp spec fn buffer_queue_items(q: ArrayQueue<Vec<u8>>) -> Seq<Vec<u8>>;

/// The number of buffers a buffer queue can hold.
pub uninterp spec fn buffer_queue_capacity(q: ArrayQueue<Vec<u8>>) -> nat;

/// Calls `ArrayQueue::new(cap)`: an empty queue of capacity `cap` (the crate panics on
/// a zero capacity and on one whose lap size overflows).
#[verifier::external_body]
pub(crate) fn new_buffer_queue(cap: usize) -> (r: ArrayQueue<Vec<u8>>)
    requires
        0 < cap <= isize::MAX,
    ensures
        buffer_queue_items(r) == Seq::<Vec<u8>>::empty(),
        buffer_queue_capacity(r) == cap,
{
    ArrayQueue::new(cap)
}

/// Calls `ArrayQueue::push`: appends the buffer unless the queue is full, in which
/// case it comes back.
#[verifier::external_body]
pub(crate) fn push_buffer(q: &mut ArrayQueue<Vec<u8>>, buffer: Vec<u8>) -> (r: Result<(), Vec<u8>>)
    ensures
        buffer_queue_capacity(*final(q)) == buffer_queue_capacity(*old(q)),
        buffer_queue_items(*old(q)).len() < buffer_queue_capacity(*old(q)) ==> r is Ok
            && buffer_queue_items(*final(q)) == buffer_queue_items(*old(q)).push(buffer),
        buffer_queue_items(*old(q)).len() >= buffer_queue_capacity(*old(q)) ==> (r matches Err(b)
            && b == buffer) && buffer_queue_items(*final(q)) == buffer_queue_items(*old(q)),
{
    q.push(buffer)
}

/// Calls `ArrayQueue::pop`: takes the oldest buffer, if any.
#[verifier::external_body]
pub(crate) fn pop_buffer(q: &mut ArrayQueue<Vec<u8>>) -> (r: Option<Vec<u8>>)
    ensures
        buffer_queue_capacity(*final(q)) == buffer_queue_capacity(*old(q)),
        buffer_queue_items(*old(q)).len() == 0 ==> r is None && buffer_queue_items(*final(q))
            == buffer_queue_items(*old(q)),
        buffer_queue_items(*old(q)).len() > 0 ==> r == Some(buffer_queue_items(*old(q))[0])
            && buffer_queue_items(*final(q)) == buffer_queue_items(*old(q)).skip(1),
{
    q.pop()
}

/// Calls `ArrayQueue::len`: the number of waiting buffers, which never exceeds the
/// capacity (the crate computes it from head and tail indices within one lap).
#[verifier::external_body]
pub(crate) fn buffer_queue_len(q: &ArrayQueue<Vec<u8>>) -> (r: usize)
    ensures
        r == buffer_queue_items(*q).len(),
        r <= buffer_queue_capacity(*q),
{
    q.len()
}

/// Calls `ArrayQueue::capacity`.
#[verifier::external_body]
pub(crate) fn buffer_queue_cap(q: &ArrayQueue<Vec<u8>>) -> (r: usize)
    ensures
        r == buffer_queue_capacity(*q),
{
    q.capacity()
}

/// Hands out serialization buffers from a fixed pool, making a fresh one when the
/// pool is empty, and takes them back.
pub struct ZeroAllocSerializer {
    buffer_pool: ArrayQueue<Vec<u8>>,
    buffer_size: usize,
}

/// Buffers in the default pool.
pub const DEFAULT_POOL_SIZE: usize = 10000;

/// Bytes each default buffer is sized for (256 KiB).
pub const DEFAULT_BUFFER_SIZE: usize = 262144;

impl ZeroAllocSerializer {
    /// The pooled buffers, oldest first.
    pub closed spec fn pooled(&self) -> Seq<Vec<u8>> {
        buffer_queue_items(self.buffer_pool)
    }

    /// How many buffers the pool holds at most.
    pub closed spec fn capacity(&self) -> nat {
        buffer_queue_capacity(self.buffer_pool)
    }

    /// Bytes each buffer is sized for.
    pub closed spec fn spec_buffer_size(&self) -> usize {
        self.buffer_size
    }

    /// A pool of `pool_size` empty buffers, each with room for `buffer_size` bytes.
    pub fn new(pool_size: usize, buffer_size: usize) -> (r: Self)
        requires
            0 < pool_size <= isize::MAX,
        ensures
            r.capacity() == pool_size,
            r.pooled().len() == pool_size,
            forall|i: int| 0 <= i < pool_size ==> (#[trigger] r.pooled()[i])@ == Seq::<u8>::empty(),
            r.spec_buffer_size() == buffer_size,
    {
        let mut pool = new_buffer_queue(pool_size);
        let mut i: usize = 0;
        while i < pool_size
            invariant
                i <= pool_size,
                buffer_queue_capacity(pool) == pool_size,
                buffer_queue_items(pool).len() == i,
                forall|j: int| 0 <= j < i ==> (#[trigger] buffer_queue_items(pool)[j])@ == Seq::<u8>::empty(),
            decreases pool_size - i,
        {
            let buffer: Vec<u8> = Vec::with_capacity(buffer_size);
            let _ = push_buffer(&mut pool, buffer);
            i = i + 1;
        }
        ZeroAllocSerializer { buffer_pool: pool, buffer_size }
    }

    /// The default pool: 10000 buffers of 256 KiB.
    pub fn with_default_pool() -> (r: Self)
        ensures
            r.capacity() == DEFAULT_POOL_SIZE,
            r.pooled().len() == DEFAULT_POOL_SIZE,
            r.spec_buffer_size() == DEFAULT_BUFFER_SIZE,
    {
        Self::new(DEFAULT_POOL_SIZE, DEFAULT_BUFFER_SIZE)
    }

    /// A buffer holding `serialized`: the oldest pooled buffer, refilled, or a fresh one
    /// when the pool is empty.
    pub fn serialize_zero_alloc(&mut self, serialized: &[u8]) -> (r: Vec<u8>)
        ensures
            r@ == serialized@,
            final(self).capacity() == old(self).capacity(),
            final(self).spec_buffer_size() == old(self).spec_buffer_size(),
            final(self).pooled() == if old(self).pooled().len() > 0 {
                old(self).pooled().skip(1)
            } else {
                old(self).pooled()
            },
    {
        let mut buffer = match pop_buffer(&mut self.buffer_pool) {
            Some(b) => b,
            None => Vec::with_capacity(self.buffer_size),
        };
        buffer.clear();
        buffer.extend_from_slice(serialized);
        assert(buffer@ =~= serialized@);
        buffer
    }

    /// Puts a buffer back in the pool; a full pool drops it.
    pub fn return_buffer(&mut self, buffer: Vec<u8>)
        ensures
            final(self).capacity() == old(self).capacity(),
            final(self).spec_buffer_size() == old(self).spec_buffer_size(),
            final(self).pooled() == if old(self).pooled().len() < old(self).capacity() {
                old(self).pooled().push(buffer)
            } else {
                old(self).pooled()
            },
    {
        let _ = push_buffer(&mut self.buffer_pool, buffer);
    }

    /// Pooled buffers and pool capacity.
    pub fn get_pool_stats(&self) -> (r: (usize, usize))
        ensures
            r.0 == self.pooled().len(),
            r.1 == self.capacity(),
            r.0 <= r.1,
    {
        (buffer_queue_len(&self.buffer_pool), buffer_queue_cap(&self.buffer_pool))
    }
}

/// Puts a buffer back in the serializer's pool.
pub fn return_serialization_buffer(serializer: &mut ZeroAllocSerializer, buffer: Vec<u8>)
    ensures
        final(serializer).capacity() == old(serializer).capacity(),
        final(serializer).pooled() == if old(serializer).pooled().len() < old(serializer).capacity() {
            old(serializer).pooled().push(buffer)
        } else {
            old(serializer).pooled()
        },
{
    serializer.return_buffer(buffer);
}

/// Pooled buffers and pool capacity of the serializer.
pub fn get_serializer_stats(serializer: &ZeroAllocSerializer) -> (r: (usize, usize))
    ensures
        r.0 == serializer.pooled().len(),
        r.1 == serializer.capacity(),
        r.0 <= r.1,
{
    serializer.get_pool_stats()
}

/// A serialized transaction in a pooled buffer; `release` gives the buffer back.
pub struct PooledTxBufGuard(pub Vec<u8>);

impl PooledTxBufGuard {
    /// The serialized bytes.
    pub fn as_bytes(&self) -> (r: &[u8])
        ensures
            r@ == self.0@,
    {
        self.0.as_slice()
    }

    /// Gives the buffer back to the pool, unless it is empty.
    pub fn release(self, serializer: &mut ZeroAllocSerializer)
        ensures
            final(serializer).capacity() == old(serializer).capacity(),
            final(serializer).pooled() == if self.0@.len() > 0 && old(serializer).pooled().len()
                < old(serializer).capacity() {
                old(serializer).pooled().push(self.0)
            } else {
                old(serializer).pooled()
            },
    {
        if self.0.len() > 0 {
            serializer.return_buffer(self.0);
        }
    }
}

// ----------------------------------------------------------------------------
// Transaction builders

/// Instruction list reused from one transaction to the next.
pub struct PreallocatedTxBuilder {
    instructions: Vec<Instruction>,
}

impl PreallocatedTxBuilder {
    /// The staged instructions.
    pub closed spec fn staged(&self) -> Seq<Instruction> {
        self.instructions@
    }

    /// An empty builder with room for 32 instructions.
    pub fn new() -> (r: Self)
        ensures
            r.staged() == Seq::<Instruction>::empty(),
    {
        PreallocatedTxBuilder { instructions: Vec::with_capacity(32) }
    }

    /// Empties the builder, keeping its room.
    pub fn reset(&mut self)
        ensures
            final(self).staged() == Seq::<Instruction>::empty(),
    {
        self.instructions.clear();
    }

    /// Replaces the staged instructions with copies of `instructions`.
    pub fn stage(&mut self, instructions: &[Instruction])
        ensures
            final(self).staged().len() == instructions@.len(),
            ix_views(final(self).staged()) == ix_views(instructions@),
    {
        self.reset();
        let mut i: usize = 0;
        while i < instructions.len()
            invariant
                i <= instructions@.len(),
                ix_views(self.instructions@) == ix_views(instructions@.take(i as int)),
            decreases instructions@.len() - i,
        {
            let copy = copy_instruction(&instructions[i]);
            self.instructions.push(copy);
            proof {
                assert(instructions@.take(i + 1) =~= instructions@.take(i as int).push(instructions@[i as int]));
                assert(ix_views(self.instructions@) =~= ix_views(instructions@.take(i as int)).push(
                    ix_view_of(instructions@[i as int]),
                ));
                assert(ix_views(instructions@.take(i + 1)) =~= ix_views(instructions@.take(i as int)).push(
                    ix_view_of(instructions@[i as int]),
                ));
            }
            i = i + 1;
        }
        assert(instructions@.take(instructions@.len() as int) =~= instructions@);
    }
}

/// The builders waiting in a builder queue, oldest first.
pub uninterp spec fn builder_queue_items(q: ArrayQueue<PreallocatedTxBuilder>) -> Seq<PreallocatedTxBuilder>;

/// The number of builders a builder queue can hold.
pub uninterp spec fn builder_queue_capacity(q: ArrayQueue<PreallocatedTxBuilder>) -> nat;

/// Calls `ArrayQueue::new(cap)`: an empty queue of capacity `cap` (the crate panics on
/// a zero capacity and on one whose lap size overflows).
#[verifier::external_body]
fn new_builder_queue(cap: usize) -> (r: ArrayQueue<PreallocatedTxBuilder>)
    requires
        0 < cap <= isize::MAX,
    ensures
        builder_queue_items(r) == Seq::<PreallocatedTxBuilder>::empty(),
        builder_queue_capacity(r) == cap,
{
    ArrayQueue::new(cap)
}

/// Calls `ArrayQueue::push`: appends the builder unless the queue is full, in which
/// case it comes back.
#[verifier::external_body]
fn push_builder(q: &mut ArrayQueue<PreallocatedTxBuilder>, builder: PreallocatedTxBuilder) -> (r: Result<
    (),
    PreallocatedTxBuilder,
>)
    ensures
        builder_queue_capacity(*final(q)) == builder_queue_capacity(*old(q)),
        builder_queue_items(*old(q)).len() < builder_queue_capacity(*old(q)) ==> r is Ok
            && builder_queue_items(*final(q)) == builder_queue_items(*old(q)).push(builder),
        builder_queue_items(*old(q)).len() >= builder_queue_capacity(*old(q)) ==> (r matches Err(b) && b == builder)
            && builder_queue_items(*final(q)) == builder_queue_items(*old(q)),
{
    q.push(builder)
}

/// Calls `ArrayQueue::pop`: takes the oldest builder, if any.
#[verifier::external_body]
fn pop_builder(q: &mut ArrayQueue<PreallocatedTxBuilder>) -> (r: Option<PreallocatedTxBuilder>)
    ensures
        builder_queue_capacity(*final(q)) == builder_queue_capacity(*old(q)),
        builder_queue_items(*old(q)).len() == 0 ==> r is None && builder_queue_items(*final(q))
            == builder_queue_items(*old(q)),
        builder_queue_items(*old(q)).len() > 0 ==> r == Some(builder_queue_items(*old(q))[0])
            && builder_queue_items(*final(q)) == builder_queue_items(*old(q)).skip(1),
{
    q.pop()
}

/// Calls `ArrayQueue::len`: the number of waiting builders, which never exceeds the
/// capacity (the crate computes it from head and tail indices within one lap).
#[verifier::external_body]
fn builder_queue_len(q: &ArrayQueue<PreallocatedTxBuilder>) -> (r: usize)
    ensures
        r == builder_queue_items(*q).len(),
        r <= builder_queue_capacity(*q),
{
    q.len()
}

/// Calls `ArrayQueue::capacity`.
#[verifier::external_body]
fn builder_queue_cap(q: &ArrayQueue<PreallocatedTxBuilder>) -> (r: usize)
    ensures
        r == builder_queue_capacity(*q),
{
    q.capacity()
}

/// Reusable transaction builders: a pool of capacity 1000, 100 of them ready.
pub struct TxBuilderPool {
    pool: ArrayQueue<PreallocatedTxBuilder>,
}

impl TxBuilderPool {
    /// The waiting builders, oldest first.
    pub closed spec fn waiting(&self) -> Seq<PreallocatedTxBuilder> {
        builder_queue_items(self.pool)
    }

    /// How many builders the pool holds at most.
    pub closed spec fn capacity(&self) -> nat {
        builder_queue_capacity(self.pool)
    }

    /// A pool of capacity 1000 holding 100 empty builders.
    pub fn new() -> (r: Self)
        ensures
            r.capacity() == 1000,
            r.waiting().len() == 100,
    {
        let mut pool = new_builder_queue(1000);
        let mut i: usize = 0;
        while i < 100
            invariant
                i <= 100,
                builder_queue_capacity(pool) == 1000,
                builder_queue_items(pool).len() == i,
            decreases 100 - i,
        {
            let _ = push_builder(&mut pool, PreallocatedTxBuilder::new());
            i = i + 1;
        }
        TxBuilderPool { pool }
    }

    /// The oldest waiting builder, or a new one when none waits.
    pub fn acquire_builder(&mut self) -> (r: PreallocatedTxBuilder)
        ensures
            final(self).capacity() == old(self).capacity(),
            old(self).waiting().len() > 0 ==> r == old(self).waiting()[0] && final(self).waiting()
                == old(self).waiting().skip(1),
            old(self).waiting().len() == 0 ==> r.staged() == Seq::<Instruction>::empty()
                && final(self).waiting() == old(self).waiting(),
    {
        match pop_builder(&mut self.pool) {
            Some(b) => b,
            None => PreallocatedTxBuilder::new(),
        }
    }

    /// Empties a builder and puts it back; a full pool drops it.
    pub fn release_builder(&mut self, builder: PreallocatedTxBuilder)
        ensures
            final(self).capacity() == old(self).capacity(),
            old(self).waiting().len() < old(self).capacity() ==> final(self).waiting().len()
                == old(self).waiting().len() + 1 && final(self).waiting().last().staged()
                == Seq::<Instruction>::empty(),
            old(self).waiting().len() >= old(self).capacity() ==> final(self).waiting()
                == old(self).waiting(),
    {
        let mut builder = builder;
        builder.reset();
        let _ = push_builder(&mut self.pool, builder);
    }
}

/// Waiting builders and pool capacity.
pub fn get_pool_stats(pool: &TxBuilderPool) -> (r: (usize, usize))
    ensures
        r.0 == pool.waiting().len(),
        r.1 == pool.capacity(),
        r.0 <= r.1,
{
    (builder_queue_len(&pool.pool), builder_queue_cap(&pool.pool))
}

} // verus!
