//! Hardware-oriented helpers: a cache-line-aligned counter, branch hints and a
//! single-producer/single-consumer ring buffer indexed by masking.

use vstd::prelude::*;
use vstd::arithmetic::power2::{lemma_pow2_pos, lemma_pow2_strictly_increases, lemma_pow2_unfold, lemma2_to64, pow2};
use vstd::bits::{lemma_u64_low_bits_mask_is_mod, low_bits_mask};
use vstd::layout::spec_align_of_val;

use crossbeam_utils::CachePadded;

verus! {

/// Typical CPU cache line size in bytes.
pub const CACHE_LINE_SIZE: usize = 64;

#[verifier::external_type_specification]
#[verifier::external_body]
#[verifier::reject_recursive_types(T)]
pub struct ExCachePadded<T>(CachePadded<T>);

/// Calls `crossbeam_utils::CachePadded::new(())`: an empty value whose type is aligned
/// to (at least) a cache line, used to align the structure that holds it.
#[verifier::external_body]
fn cache_line_pad() -> CachePadded<()> {
    CachePadded::new(())
}

/// Counter placed on its own cache line.
pub struct CacheAlignedCounter {
    value: u64,
    _pad: CachePadded<()>,
}

impl View for CacheAlignedCounter {
    type V = u64;

    closed spec fn view(&self) -> u64 {
        self.value
    }
}

impl CacheAlignedCounter {
    /// Creates a counter holding `initial`.
    pub fn new(initial: u64) -> (r: Self)
        ensures
            r@ == initial,
    {
        CacheAlignedCounter { value: initial, _pad: cache_line_pad() }
    }

    /// Adds one (wrapping at 2^64) and returns the previous value.
    pub fn increment(&mut self) -> (r: u64)
        ensures
            r == old(self)@,
            final(self)@ == (if old(self)@ == u64::MAX { 0 } else { old(self)@ + 1 }),
    {
        let prev = self.value;
        self.value = self.value.wrapping_add(1);
        prev
    }

    /// The current value.
    pub fn load(&self) -> (r: u64)
        ensures
            r == self@,
    {
        self.value
    }

    /// Replaces the value.
    pub fn store(&mut self, val: u64)
        ensures
            final(self)@ == val,
    {
        self.value = val;
    }

}

/// Data laid out on cache-line boundaries, with a hint to load it into the cache.
pub trait CacheLineAligned {
    /// Whether the value starts a cache line.
    fn ensure_cache_aligned(&self) -> bool;

    /// Hint that the value is about to be read. It changes nothing that can be observed.
    fn prefetch_data(&self);
}

impl CacheLineAligned for CacheAlignedCounter {
    /// True exactly when the alignment of the counter's type is a multiple of the cache
    /// line size, since every value of a type lies at a multiple of that type's alignment.
    /// The padding field gives the type crossbeam's `CachePadded` alignment, which the
    /// crate sets per target (128 bytes on x86_64 and aarch64, 32 on 32-bit arm).
    fn ensure_cache_aligned(&self) -> (r: bool)
        ensures
            r == (spec_align_of_val(self) as usize % CACHE_LINE_SIZE == 0),
    {
        core::mem::align_of_val(self) % CACHE_LINE_SIZE == 0
    }

    fn prefetch_data(&self) {
    }
}

/// Branch hint helpers.
pub struct BranchOptimizer;

impl BranchOptimizer {
    /// Hint that `condition` is usually true; returns it unchanged.
    pub fn likely(condition: bool) -> (r: bool)
        ensures
            r == condition,
    {
        condition
    }

    /// Hint that `condition` is usually false; returns it unchanged.
    pub fn unlikely(condition: bool) -> (r: bool)
        ensures
            r == condition,
    {
        condition
    }
}

/// `n` is a power of two.
pub open spec fn is_power_of_two(n: nat) -> bool {
    exists|k: nat| pow2(k) == n
}

proof fn lemma_between_powers_not_power(n: nat, k: nat)
    requires
        pow2(k) < n < pow2(k + 1),
    ensures
        !is_power_of_two(n),
{
    assert forall|j: nat| pow2(j) != n by {
        if j <= k {
            if j < k {
                lemma_pow2_strictly_increases(j, k);
            }
        } else {
            if j > k + 1 {
                lemma_pow2_strictly_increases(k + 1, j);
            }
        }
    }
}

/// Whether `n` is a power of two.
pub fn check_power_of_two(n: usize) -> (r: bool)
    ensures
        r == is_power_of_two(n as nat),
{
    if n == 0 {
        proof {
            assert forall|j: nat| pow2(j) != 0 by {
                lemma_pow2_pos(j);
            }
        }
        return false;
    }
    let mut p: usize = 1;
    let ghost mut k: nat = 0;
    proof {
        lemma2_to64();
    }
    while p < n
        invariant
            p as nat == pow2(k),
            1 <= p,
            k == 0 || pow2((k - 1) as nat) < n,
            n > 0,
        decreases usize::MAX - p,
    {
        if p > usize::MAX / 2 {
            proof {
                lemma_pow2_unfold(k + 1);
                lemma_between_powers_not_power(n as nat, k);
            }
            return false;
        }
        p = p * 2;
        proof {
            lemma_pow2_unfold(k + 1);
            k = k + 1;
        }
    }
    if p == n {
        return true;
    }
    proof {
        lemma_pow2_unfold(k);
        lemma_between_powers_not_power(n as nat, (k - 1) as nat);
    }
    false
}

/// For a power-of-two `cap`, masking with `cap - 1` is reduction modulo `cap`.
proof fn lemma_mask_is_mod(x: u64, cap: usize)
    requires
        is_power_of_two(cap as nat),
    ensures
        x & ((cap - 1) as u64) == x % (cap as u64),
        cap > 0,
{
    let k = choose|k: nat| pow2(k) == cap as nat;
    lemma_pow2_pos(k);
    lemma2_to64();
    if k >= 64 {
        if k > 64 {
            lemma_pow2_strictly_increases(64, k);
        }
        assert(false);
    }
    lemma_u64_low_bits_mask_is_mod(x, k);
    assert(low_bits_mask(k) == cap - 1);
}

/// Residues modulo `c` of two numbers less than `c` apart differ unless the numbers are equal.
pub proof fn lemma_mod_distinct_pub(a: int, b: int, c: int)
    requires
        c > 0,
        0 <= a <= b < a + c,
    ensures
        (a % c == b % c) <==> a == b,
{
    lemma_mod_distinct(a, b, c);
}

proof fn lemma_mod_distinct(a: int, b: int, c: int)
    requires
        c > 0,
        0 <= a <= b < a + c,
    ensures
        (a % c == b % c) <==> a == b,
{
    assert((a % c == b % c) ==> a == b) by (nonlinear_arith)
        requires
            c > 0,
            0 <= a <= b < a + c,
    {
        let qa = a / c;
        let qb = b / c;
        assert(a == qa * c + a % c);
        assert(b == qb * c + b % c);
        if a % c == b % c {
            assert((qb - qa) * c == b - a);
            assert(0 <= b - a < c);
            if qb - qa >= 1 {
                assert((qb - qa) * c >= c);
            }
            if qb - qa <= -1 {
                assert((qb - qa) * c <= -c);
            }
        }
    }
}

/// Cache-friendly single-producer/single-consumer ring buffer. The capacity is a power of
/// two and one slot stays free, so it holds at most `capacity - 1` items.
pub struct CacheOptimizedRingBuffer<T> {
    buffer: Vec<T>,
    producer_head: u64,
    consumer_tail: u64,
    capacity: usize,
    mask: usize,
    _pad: CachePadded<()>,
}

impl<T: Copy> View for CacheOptimizedRingBuffer<T> {
    type V = Seq<T>;

    /// The queued items, oldest first.
    closed spec fn view(&self) -> Seq<T> {
        Seq::new(
            (self.producer_head - self.consumer_tail) as nat,
            |i: int| self.buffer@[((self.consumer_tail + i) % (self.capacity as int))],
        )
    }
}

impl<T: Copy + Default> CacheOptimizedRingBuffer<T> {
    /// Internal consistency of the counters and the storage.
    pub closed spec fn well_formed(&self) -> bool {
        &&& self.buffer@.len() == self.capacity
        &&& is_power_of_two(self.capacity as nat)
        &&& self.mask == self.capacity - 1
        &&& self.consumer_tail <= self.producer_head
        &&& self.producer_head - self.consumer_tail < self.capacity
    }

    /// The capacity the buffer was created with.
    pub closed spec fn spec_capacity(&self) -> nat {
        self.capacity as nat
    }

    /// Number of items pushed so far.
    pub closed spec fn pushed(&self) -> nat {
        self.producer_head as nat
    }

    /// Creates an empty ring buffer; the capacity must be a power of two.
    pub fn new(capacity: usize) -> (r: Result<Self, String>)
        ensures
            !is_power_of_two(capacity as nat) ==> (r matches Err(e)
                && e@ == "Capacity must be a power of 2"@),
            is_power_of_two(capacity as nat) ==> (r matches Ok(b) && {
                &&& b.well_formed()
                &&& b@ == Seq::<T>::empty()
                &&& b.spec_capacity() == capacity
                &&& b.pushed() == 0
            }),
    {
        if !check_power_of_two(capacity) {
            return Err("Capacity must be a power of 2".to_owned());
        }
        let mut buffer: Vec<T> = Vec::new();
        let mut i: usize = 0;
        while i < capacity
            invariant
                i <= capacity,
                buffer@.len() == i,
            decreases capacity - i,
        {
            buffer.push(T::default());
            i = i + 1;
        }
        proof {
            lemma_mask_is_mod(0, capacity);
        }
        let r = CacheOptimizedRingBuffer {
            buffer,
            producer_head: 0,
            consumer_tail: 0,
            capacity,
            mask: capacity - 1,
            _pad: cache_line_pad(),
        };
        assert(r@ =~= Seq::<T>::empty());
        Ok(r)
    }

    /// Appends `item` unless the buffer already holds `capacity - 1` items; returns
    /// whether it was appended.
    pub fn try_push(&mut self, item: T) -> (r: bool)
        requires
            old(self).well_formed(),
            old(self).pushed() < u64::MAX,
        ensures
            final(self).well_formed(),
            final(self).spec_capacity() == old(self).spec_capacity(),
            r == (old(self)@.len() + 1 < old(self).spec_capacity()),
            r ==> final(self)@ == old(self)@.push(item) && final(self).pushed() == old(self).pushed() + 1,
            !r ==> final(self)@ == old(self)@ && final(self).pushed() == old(self).pushed(),
    {
        let current_head = self.producer_head;
        let current_tail = self.consumer_tail;
        let mask = self.mask as u64;
        proof {
            lemma_mask_is_mod((current_head + 1) as u64, self.capacity);
            lemma_mask_is_mod(current_tail, self.capacity);
            lemma_mask_is_mod(current_head, self.capacity);
            let c = self.capacity as int;
            // wrapping positions coincide exactly when the buffer is one short of full
            assert(((current_head + 1) as int % c == current_tail as int % c) <==> (current_head + 1 - current_tail == c)) by {
                if current_head + 1 - current_tail < c {
                    lemma_mod_distinct(current_tail as int, current_head + 1, c);
                } else {
                    assert((current_tail as int + c) % c == current_tail as int % c) by (nonlinear_arith)
                        requires
                            c > 0,
                            current_tail >= 0,
                    ;
                }
            }
        }
        if (current_head + 1) & mask == current_tail & mask {
            return false;
        }
        let index = current_head & mask;
        let ghost old_view = self@;
        self.buffer.set(index as usize, item);
        self.producer_head = current_head + 1;
        proof {
            let c = self.capacity as int;
            assert forall|i: int| 0 <= i < old_view.len() implies #[trigger] self@[i] == old_view[i] by {
                lemma_mod_distinct(current_tail + i, current_head as int, c);
                assert(((current_tail + i) % c) != (current_head as int % c));
            }
            assert(self@ =~= old_view.push(item));
        }
        true
    }

    /// Removes and returns the oldest item, or `None` when empty.
    pub fn try_pop(&mut self) -> (r: Option<T>)
        requires
            old(self).well_formed(),
        ensures
            final(self).well_formed(),
            final(self).spec_capacity() == old(self).spec_capacity(),
            final(self).pushed() == old(self).pushed(),
            old(self)@.len() == 0 ==> r is None && final(self)@ == old(self)@,
            old(self)@.len() > 0 ==> r == Some(old(self)@[0]) && final(self)@ == old(self)@.drop_first(),
    {
        let current_tail = self.consumer_tail;
        let current_head = self.producer_head;
        if current_tail == current_head {
            return None;
        }
        let mask = self.mask as u64;
        proof {
            lemma_mask_is_mod(current_tail, self.capacity);
        }
        let index = current_tail & mask;
        let item = self.buffer[index as usize];
        let ghost old_view = self@;
        self.consumer_tail = current_tail + 1;
        proof {
            assert(self@ =~= old_view.drop_first());
        }
        Some(item)
    }

    /// Number of queued items.
    pub fn len(&self) -> (r: usize)
        requires
            self.well_formed(),
        ensures
            r == self@.len(),
    {
        (self.producer_head - self.consumer_tail) as usize
    }

    /// Whether no item is queued.
    pub fn is_empty(&self) -> (r: bool)
        requires
            self.well_formed(),
        ensures
            r == (self@.len() == 0),
    {
        self.producer_head == self.consumer_tail
    }
}

impl<T> CacheLineAligned for CacheOptimizedRingBuffer<T> {
    /// True exactly when the alignment of the buffer's type is a multiple of the cache
    /// line size.
    fn ensure_cache_aligned(&self) -> (r: bool)
        ensures
            r == (spec_align_of_val(self) as usize % CACHE_LINE_SIZE == 0),
    {
        core::mem::align_of_val(self) % CACHE_LINE_SIZE == 0
    }

    fn prefetch_data(&self) {
    }
}

/// Which reordering a fence forbids.
pub enum FenceKind {
    /// Later reads and writes stay after it.
    Acquire,
    /// Earlier reads and writes stay before it.
    Release,
    /// Both, with one total order over all such fences.
    SeqCst,
}

/// Calls `std::sync::atomic::fence` with the ordering that `kind` names. A fence
/// changes no value, so nothing is stated of it.
#[verifier::external_body]
fn atomic_fence(kind: FenceKind) {
    std::sync::atomic::fence(match kind {
        FenceKind::Acquire => std::sync::atomic::Ordering::Acquire,
        FenceKind::Release => std::sync::atomic::Ordering::Release,
        FenceKind::SeqCst => std::sync::atomic::Ordering::SeqCst,
    });
}

/// Calls `std::sync::atomic::compiler_fence(SeqCst)`: the compiler may not move memory
/// accesses across it. It changes no value, so nothing is stated of it.
#[verifier::external_body]
fn compiler_fence_seqcst() {
    std::sync::atomic::compiler_fence(std::sync::atomic::Ordering::SeqCst);
}

/// Memory barrier helpers.
pub struct MemoryBarriers;

impl MemoryBarriers {
    /// Compiler barrier only: no reordering by the compiler across it.
    pub fn compiler_barrier() {
        compiler_fence_seqcst();
    }

    /// Light barrier (acquire).
    pub fn memory_barrier_light() {
        atomic_fence(FenceKind::Acquire);
    }

    /// Full sequentially consistent barrier.
    pub fn memory_barrier_heavy() {
        atomic_fence(FenceKind::SeqCst);
    }

    /// Store barrier (release): earlier writes become visible before later ones.
    pub fn store_barrier() {
        atomic_fence(FenceKind::Release);
    }

    /// Load barrier (acquire): later reads are not moved before it.
    pub fn load_barrier() {
        atomic_fence(FenceKind::Acquire);
    }
}

/// The first `n` bytes of `s`.
pub open spec fn byte_prefix(s: Seq<u8>, n: usize) -> Seq<u8> {
    s.subrange(0, n as int)
}

proof fn lemma_prefixes_differ(a: Seq<u8>, b: Seq<u8>, len: usize, i: usize)
    requires
        i < len,
        len <= a.len(),
        len <= b.len(),
        a[i as int] != b[i as int],
    ensures
        byte_prefix(a, len) != byte_prefix(b, len),
{
    assert(byte_prefix(a, len)[i as int] != byte_prefix(b, len)[i as int]);
}

/// Byte-block operations on slices.
pub struct SIMDMemoryOps;

impl SIMDMemoryOps {
    /// Copies the first `len` bytes of `src` over the first `len` bytes of `dst`.
    pub fn memcpy_simd_optimized(dst: &mut [u8], src: &[u8], len: usize)
        requires
            len <= old(dst)@.len(),
            len <= src@.len(),
        ensures
            final(dst)@ == src@.subrange(0, len as int) + old(dst)@.subrange(len as int, old(dst)@.len() as int),
    {
        let mut i: usize = 0;
        while i < len
            invariant
                len <= dst@.len(),
                len <= src@.len(),
                dst@.len() == old(dst)@.len(),
                i <= len,
                forall|j: int| 0 <= j < i ==> dst@[j] == src@[j],
                forall|j: int| i <= j < dst@.len() ==> dst@[j] == old(dst)@[j],
            decreases len - i,
        {
            dst[i] = src[i];
            i = i + 1;
        }
        assert(dst@ =~= src@.subrange(0, len as int) + old(dst)@.subrange(len as int, old(dst)@.len() as int));
    }

    /// Whether the first `len` bytes of `a` and `b` agree.
    pub fn memcmp_simd_optimized(a: &[u8], b: &[u8], len: usize) -> (r: bool)
        requires
            len <= a@.len(),
            len <= b@.len(),
        ensures
            r == (byte_prefix(a@, len) == byte_prefix(b@, len)),
    {
        let mut i: usize = 0;
        while i < len
            invariant
                len <= a@.len(),
                len <= b@.len(),
                i <= len,
                forall|j: int| 0 <= j < i ==> a@[j] == b@[j],
            decreases len - i,
        {
            if a[i] != b[i] {
                proof {
                    lemma_prefixes_differ(a@, b@, len, i);
                }
                return false;
            }
            i = i + 1;
        }
        assert(byte_prefix(a@, len) =~= byte_prefix(b@, len));
        true
    }

    /// Zeroes the first `len` bytes of `buf`.
    pub fn memzero_simd_optimized(buf: &mut [u8], len: usize)
        requires
            len <= old(buf)@.len(),
        ensures
            final(buf)@.len() == old(buf)@.len(),
            forall|j: int| 0 <= j < len ==> final(buf)@[j] == 0,
            forall|j: int| len <= j < old(buf)@.len() ==> final(buf)@[j] == old(buf)@[j],
    {
        let mut i: usize = 0;
        while i < len
            invariant
                len <= buf@.len(),
                buf@.len() == old(buf)@.len(),
                i <= len,
                forall|j: int| 0 <= j < i ==> buf@[j] == 0,
                forall|j: int| i <= j < buf@.len() ==> buf@[j] == old(buf)@[j],
            decreases len - i,
        {
            buf[i] = 0;
            i = i + 1;
        }
    }
}

} // verus!
