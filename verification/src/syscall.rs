//! System-call avoidance: batched requests, a cached clock, simulated batched writes,
//! a bump allocator, and the counters over them.

use vstd::prelude::*;

use crossbeam_queue::ArrayQueue;
use std::time::Instant;

use crate::trading::parse_token_amount;

verus! {

/// Which system-call avoidance to use.
#[derive(Debug, Clone, Copy, PartialEq, Eq, Structural)]
pub struct SyscallBypassConfig {
    pub enable_batch_processing: bool,
    pub batch_size: usize,
    pub enable_fast_time: bool,
    pub enable_vdso: bool,
    pub enable_io_uring: bool,
    pub enable_mmap_optimization: bool,
    pub enable_userspace_impl: bool,
    pub syscall_cache_size: usize,
}

impl Default for SyscallBypassConfig {
    /// Everything enabled, batches of 100, a cache of 1000.
    fn default() -> (r: Self)
        ensures
            r == (SyscallBypassConfig {
                enable_batch_processing: true,
                batch_size: 100,
                enable_fast_time: true,
                enable_vdso: true,
                enable_io_uring: true,
                enable_mmap_optimization: true,
                enable_userspace_impl: true,
                syscall_cache_size: 1000,
            }),
    {
        SyscallBypassConfig {
            enable_batch_processing: true,
            batch_size: 100,
            enable_fast_time: true,
            enable_vdso: true,
            enable_io_uring: true,
            enable_mmap_optimization: true,
            enable_userspace_impl: true,
            syscall_cache_size: 1000,
        }
    }
}

/// A system call to run in a batch.
#[derive(Debug, Clone, PartialEq, Eq)]
pub enum SyscallRequest {
    Write { fd: i32, data: Vec<u8> },
    Read { fd: i32, size: usize },
    Send { socket: i32, data: Vec<u8> },
    Recv { socket: i32, size: usize },
    GetTime,
    MemAlloc { size: usize },
    MemFree { ptr: usize },
}

/// The requests waiting in a batch queue, oldest first.
pub uninterp spec fn request_queue_items(q: ArrayQueue<SyscallRequest>) -> Seq<SyscallRequest>;

/// The number of requests a batch queue can hold.
pub uninterp spec fn request_queue_capacity(q: ArrayQueue<SyscallRequest>) -> nat;

/// Calls `ArrayQueue::new(cap)`: an empty queue of capacity `cap` (the crate panics on
/// a zero capacity and on one whose lap size overflows).
#[verifier::external_body]
fn new_request_queue(cap: usize) -> (r: ArrayQueue<SyscallRequest>)
    requires
        0 < cap <= isize::MAX,
    ensures
        request_queue_items(r) == Seq::<SyscallRequest>::empty(),
        request_queue_capacity(r) == cap,
{
    ArrayQueue::new(cap)
}

/// Calls `ArrayQueue::push`: appends `item` unless the queue is full, in which case the
/// item comes back.
#[verifier::external_body]
fn push_request(q: &mut ArrayQueue<SyscallRequest>, item: SyscallRequest) -> (r: Result<(), SyscallRequest>)
    ensures
        request_queue_capacity(*final(q)) == request_queue_capacity(*old(q)),
        request_queue_items(*old(q)).len() <= request_queue_capacity(*old(q)) ==> request_queue_items(
            *final(q),
        ).len() <= request_queue_capacity(*final(q)),
        request_queue_items(*old(q)).len() < request_queue_capacity(*old(q)) ==> r is Ok
            && request_queue_items(*final(q)) == request_queue_items(*old(q)).push(item),
        request_queue_items(*old(q)).len() >= request_queue_capacity(*old(q)) ==> (r matches Err(x)
            && x == item) && request_queue_items(*final(q)) == request_queue_items(*old(q)),
{
    q.push(item)
}

/// Calls `ArrayQueue::pop`: takes the oldest request, if any.
#[verifier::external_body]
fn pop_request(q: &mut ArrayQueue<SyscallRequest>) -> (r: Option<SyscallRequest>)
    ensures
        request_queue_capacity(*final(q)) == request_queue_capacity(*old(q)),
        request_queue_items(*old(q)).len() == 0 ==> r is None && request_queue_items(*final(q))
            == request_queue_items(*old(q)),
        request_queue_items(*old(q)).len() > 0 ==> r == Some(request_queue_items(*old(q))[0])
            && request_queue_items(*final(q)) == request_queue_items(*old(q)).skip(1),
{
    q.pop()
}

/// Largest number of requests one batch runs.
pub const MAX_BATCH: usize = 100;

/// Error of a request that does not fit the queue.
pub open spec fn queue_full_error() -> Seq<char> {
    "Batch queue full"@
}

/// The writes, reads and sends of a batch, in order (other requests are not grouped).
pub open spec fn writes_of(reqs: Seq<SyscallRequest>) -> Seq<(i32, Vec<u8>)>
    decreases reqs.len(),
{
    if reqs.len() == 0 {
        Seq::empty()
    } else {
        writes_of(reqs.drop_last()) + match reqs.last() {
            SyscallRequest::Write { fd, data } => seq![(fd, data)],
            _ => Seq::empty(),
        }
    }
}

/// The reads of a batch, in order.
pub open spec fn reads_of(reqs: Seq<SyscallRequest>) -> Seq<(i32, usize)>
    decreases reqs.len(),
{
    if reqs.len() == 0 {
        Seq::empty()
    } else {
        reads_of(reqs.drop_last()) + match reqs.last() {
            SyscallRequest::Read { fd, size } => seq![(fd, size)],
            _ => Seq::empty(),
        }
    }
}

/// The sends of a batch, in order.
pub open spec fn sends_of(reqs: Seq<SyscallRequest>) -> Seq<(i32, Vec<u8>)>
    decreases reqs.len(),
{
    if reqs.len() == 0 {
        Seq::empty()
    } else {
        sends_of(reqs.drop_last()) + match reqs.last() {
            SyscallRequest::Send { socket, data } => seq![(socket, data)],
            _ => Seq::empty(),
        }
    }
}

/// The elements of `v` in reverse order.
fn reversed<T>(v: Vec<T>) -> (r: Vec<T>)
    ensures
        r@.len() == v@.len(),
        forall|i: int| 0 <= i < v@.len() ==> #[trigger] r@[i] == v@[v@.len() - 1 - i],
{
    let ghost orig = v@;
    let mut v = v;
    let mut r: Vec<T> = Vec::new();
    while v.len() > 0
        invariant
            v@ == orig.take(v@.len() as int),
            v@.len() <= orig.len(),
            r@.len() == orig.len() - v@.len(),
            forall|i: int| 0 <= i < r@.len() ==> #[trigger] r@[i] == orig[orig.len() - 1 - i],
        decreases v@.len(),
    {
        let ghost n = v@.len();
        let x = v.pop().unwrap();
        proof {
            assert(x == orig[n - 1]);
            assert(v@ =~= orig.take(n - 1));
        }
        r.push(x);
    }
    r
}

/// The requests of a batch grouped by kind: writes, reads and sends.
pub struct GroupedRequests {
    pub writes: Vec<(i32, Vec<u8>)>,
    pub reads: Vec<(i32, usize)>,
    pub sends: Vec<(i32, Vec<u8>)>,
}

/// Groups a batch into writes, reads and sends, keeping their order; other requests
/// are left out.
pub fn group_requests(batch: Vec<SyscallRequest>) -> (r: GroupedRequests)
    ensures
        r.writes@ == writes_of(batch@),
        r.reads@ == reads_of(batch@),
        r.sends@ == sends_of(batch@),
{
    let ghost all = batch@;
    let total = batch.len();
    let mut writes: Vec<(i32, Vec<u8>)> = Vec::new();
    let mut reads: Vec<(i32, usize)> = Vec::new();
    let mut sends: Vec<(i32, Vec<u8>)> = Vec::new();
    // Take requests from the front, one at a time.
    let mut rest = reversed(batch);
    let mut done: usize = 0;
    while rest.len() > 0
        invariant
            all.len() == total,
            done + rest@.len() == total,
            forall|i: int| 0 <= i < rest@.len() ==> #[trigger] rest@[i] == all[total - 1 - i],
            writes@ == writes_of(all.take(done as int)),
            reads@ == reads_of(all.take(done as int)),
            sends@ == sends_of(all.take(done as int)),
        decreases rest@.len(),
    {
        let ghost k = rest@.len();
        let req = rest.pop().unwrap();
        proof {
            assert(req == all[done as int]);
            assert(all.take(done + 1).drop_last() =~= all.take(done as int));
            assert(all.take(done + 1).last() == all[done as int]);
        }
        match req {
            SyscallRequest::Write { fd, data } => {
                writes.push((fd, data));
            },
            SyscallRequest::Read { fd, size } => {
                reads.push((fd, size));
            },
            SyscallRequest::Send { socket, data } => {
                sends.push((socket, data));
            },
            _ => {},
        }
        proof {
            assert(writes@ =~= writes_of(all.take(done + 1)));
            assert(reads@ =~= reads_of(all.take(done + 1)));
            assert(sends@ =~= sends_of(all.take(done + 1)));
        }
        done = done + 1;
    }
    assert(all.take(done as int) =~= all);
    GroupedRequests { writes, reads, sends }
}

/// Queues system calls and runs them in batches of at most 100.
pub struct SyscallBatchProcessor {
    pending_calls: ArrayQueue<SyscallRequest>,
    batch_stats: u64,
}

impl SyscallBatchProcessor {
    /// The queue never holds more than its capacity.
    pub closed spec fn well_formed(&self) -> bool {
        request_queue_items(self.pending_calls).len() <= request_queue_capacity(self.pending_calls)
    }

    /// The waiting requests, oldest first.
    pub closed spec fn pending(&self) -> Seq<SyscallRequest> {
        request_queue_items(self.pending_calls)
    }

    /// How many requests can wait.
    pub closed spec fn capacity(&self) -> nat {
        request_queue_capacity(self.pending_calls)
    }

    /// Number of batches run (wrapping).
    pub closed spec fn batches(&self) -> u64 {
        self.batch_stats
    }

    /// A processor whose queue holds ten batches.
    pub fn new(batch_size: usize) -> (r: Result<Self, String>)
        requires
            0 < batch_size,
            batch_size * 10 <= isize::MAX,
        ensures
            r matches Ok(p) && p.well_formed() && p.pending() == Seq::<SyscallRequest>::empty()
                && p.capacity() == batch_size * 10 && p.batches() == 0,
    {
        Ok(SyscallBatchProcessor { pending_calls: new_request_queue(batch_size * 10), batch_stats: 0 })
    }

    /// Queues a request; a full queue refuses it.
    pub fn submit_request(&mut self, request: SyscallRequest) -> (r: Result<(), String>)
        requires
            old(self).well_formed(),
        ensures
            final(self).well_formed(),
            final(self).capacity() == old(self).capacity(),
            final(self).batches() == old(self).batches(),
            old(self).pending().len() < old(self).capacity() ==> r is Ok && final(self).pending()
                == old(self).pending().push(request),
            old(self).pending().len() >= old(self).capacity() ==> (r matches Err(e) && e@
                == queue_full_error()) && final(self).pending() == old(self).pending(),
    {
        match push_request(&mut self.pending_calls, request) {
            Ok(()) => Ok(()),
            Err(_) => Err("Batch queue full".to_owned()),
        }
    }

    /// Takes up to 100 waiting requests, oldest first, groups them by kind and runs
    /// them; counts the batch when it was not empty. Returns how many were taken.
    pub fn execute_batch(&mut self) -> (r: Result<usize, String>)
        requires
            old(self).well_formed(),
        ensures
            final(self).well_formed(),
            ({
                let n = if old(self).pending().len() < MAX_BATCH {
                    old(self).pending().len()
                } else {
                    MAX_BATCH as nat
                };
                &&& r == Ok::<usize, String>(n as usize)
                &&& final(self).pending() == old(self).pending().skip(n as int)
                &&& final(self).capacity() == old(self).capacity()
                &&& final(self).batches() == if n == 0 {
                    old(self).batches()
                } else {
                    vstd::wrapping::u64_specs::wrapping_add(old(self).batches(), 1)
                }
            }),
    {
        let ghost start = request_queue_items(self.pending_calls);
        let mut batch: Vec<SyscallRequest> = Vec::new();
        loop
            invariant_except_break
                batch@.len() <= MAX_BATCH,
                batch@.len() <= start.len(),
                batch@ == start.take(batch@.len() as int),
                request_queue_items(self.pending_calls) == start.skip(batch@.len() as int),
                request_queue_capacity(self.pending_calls) == request_queue_capacity(old(self).pending_calls),
                self.batch_stats == old(self).batch_stats,
                start == request_queue_items(old(self).pending_calls),
            ensures
                batch@.len() == (if start.len() < MAX_BATCH {
                    start.len()
                } else {
                    MAX_BATCH as nat
                }),
                batch@ == start.take(batch@.len() as int),
                request_queue_items(self.pending_calls) == start.skip(batch@.len() as int),
                request_queue_capacity(self.pending_calls) == request_queue_capacity(old(self).pending_calls),
                self.batch_stats == old(self).batch_stats,
            decreases MAX_BATCH - batch@.len(),
        {
            if batch.len() >= MAX_BATCH {
                break;
            }
            let ghost before = request_queue_items(self.pending_calls);
            match pop_request(&mut self.pending_calls) {
                Some(request) => {
                    proof {
                        assert(request == start[batch@.len() as int]);
                        assert(start.take((batch@.len() + 1) as int) =~= start.take(batch@.len() as int).push(
                            request,
                        ));
                        assert(start.skip((batch@.len() + 1) as int) =~= before.skip(1));
                    }
                    batch.push(request);
                },
                None => {
                    break;
                },
            }
        }
        if batch.len() == 0 {
            return Ok(0);
        }
        let batch_size = batch.len();
        let _groups = group_requests(batch);
        self.batch_stats = self.batch_stats.wrapping_add(1);
        Ok(batch_size)
    }
}

// ----------------------------------------------------------------------------
// Cached clock

/// Calls `std::time::Instant::now()`.
#[verifier::external_body]
fn monotonic_now() -> Instant {
    Instant::now()
}

/// Calls `Instant::elapsed` and `Duration::as_nanos`: nanoseconds since `i`, truncated
/// to 64 bits; nothing is claimed of the value.
#[verifier::external_body]
fn monotonic_nanos_since(i: &Instant) -> u64 {
    i.elapsed().as_nanos() as u64
}

/// Calls `std::time::SystemTime::now().duration_since(UNIX_EPOCH)`: nanoseconds since
/// the epoch truncated to 64 bits, or none when the clock reads before the epoch.
#[verifier::external_body]
fn epoch_nanos() -> Option<u64> {
    match std::time::SystemTime::now().duration_since(std::time::UNIX_EPOCH) {
        Ok(d) => Some(d.as_nanos() as u64),
        Err(_) => None,
    }
}

/// Error of a system clock set before the Unix epoch.
pub open spec fn clock_before_epoch_error() -> Seq<char> {
    "second time provided was later than self"@
}

/// Timestamps without a system call per reading: the direct clock when `vdso` is set,
/// else a cached wall-clock time refreshed once a millisecond has passed.
pub struct FastTimeProvider {
    monotonic_start: Instant,
    time_cache: u64,
    cache_update_interval_ns: u64,
    last_update: u64,
    vdso_enabled: bool,
}

impl FastTimeProvider {
    /// The cached wall-clock time.
    pub closed spec fn spec_cache(&self) -> u64 {
        self.time_cache
    }

    /// When the cache was last refreshed (nanoseconds since start).
    pub closed spec fn spec_last_update(&self) -> u64 {
        self.last_update
    }

    /// Whether readings go straight to the clock.
    pub closed spec fn spec_vdso(&self) -> bool {
        self.vdso_enabled
    }

    /// Nanoseconds between cache refreshes.
    pub closed spec fn spec_interval(&self) -> u64 {
        self.cache_update_interval_ns
    }

    /// A provider with the cache filled now and a one-millisecond refresh interval;
    /// fails when the system clock reads before the Unix epoch.
    pub fn new(enable_vdso: bool) -> (r: Result<Self, String>)
        ensures
            r matches Ok(p) ==> p.spec_vdso() == enable_vdso && p.spec_interval() == 1_000_000,
            r matches Err(e) ==> e@ == clock_before_epoch_error(),
    {
        let now = match epoch_nanos() {
            Some(n) => n,
            None => {
                return Err("second time provided was later than self".to_owned());
            },
        };
        let start = monotonic_now();
        let last = monotonic_nanos_since(&start);
        Ok(
            FastTimeProvider {
                monotonic_start: start,
                time_cache: now,
                cache_update_interval_ns: 1_000_000,
                last_update: last,
                vdso_enabled: enable_vdso,
            },
        )
    }

    /// Refreshes the cache from the system clock (kept, with its refresh time, when the
    /// clock reads before the epoch). Returns the reading.
    fn update_time_cache(&mut self) -> (r: Option<u64>)
        ensures
            final(self).spec_vdso() == old(self).spec_vdso(),
            final(self).spec_interval() == old(self).spec_interval(),
            r matches Some(n) ==> final(self).spec_cache() == n,
            r is None ==> final(self).spec_cache() == old(self).spec_cache() && final(self).spec_last_update()
                == old(self).spec_last_update(),
    {
        let reading = epoch_nanos();
        if let Some(nanos) = reading {
            self.time_cache = nanos;
            self.last_update = monotonic_nanos_since(&self.monotonic_start);
        }
        reading
    }

    /// Whether a cached time read `now_mono` nanoseconds after start is stale.
    pub open spec fn stale(&self, now_mono: u64) -> bool {
        (if now_mono >= self.spec_last_update() {
            now_mono - self.spec_last_update()
        } else {
            0
        }) > self.spec_interval()
    }

    /// Current time in nanoseconds: read from the clock when `vdso` is set; otherwise
    /// the cached time, refreshed first when more than the interval has passed.
    pub fn fast_now_nanos(&mut self) -> (r: u64)
        ensures
            final(self).spec_vdso() == old(self).spec_vdso(),
            final(self).spec_interval() == old(self).spec_interval(),
            !old(self).spec_vdso() ==> r == final(self).spec_cache(),
    {
        if self.vdso_enabled {
            return self.vdso_time_nanos();
        }
        let now_mono = monotonic_nanos_since(&self.monotonic_start);
        if now_mono.saturating_sub(self.last_update) > self.cache_update_interval_ns {
            let _ = self.update_time_cache();
        }
        self.time_cache
    }

    /// A reading of the system clock, or the cached time when it reads before the epoch.
    fn vdso_time_nanos(&self) -> u64 {
        match epoch_nanos() {
            Some(n) => n,
            None => self.time_cache,
        }
    }

    /// Current time in microseconds.
    pub fn fast_now_micros(&mut self) -> (r: u64)
        ensures
            final(self).spec_vdso() == old(self).spec_vdso(),
            final(self).spec_interval() == old(self).spec_interval(),
            r <= u64::MAX / 1000,
            !old(self).spec_vdso() ==> r == final(self).spec_cache() / 1000,
    {
        self.fast_now_nanos() / 1000
    }

    /// Current time in milliseconds.
    pub fn fast_now_millis(&mut self) -> (r: u64)
        ensures
            final(self).spec_vdso() == old(self).spec_vdso(),
            final(self).spec_interval() == old(self).spec_interval(),
            r <= u64::MAX / 1_000_000,
            !old(self).spec_vdso() ==> r == final(self).spec_cache() / 1_000_000,
    {
        self.fast_now_nanos() / 1_000_000
    }
}

// ----------------------------------------------------------------------------
// I/O

/// Counters of simulated asynchronous I/O.
#[derive(Debug, Clone, Copy, PartialEq, Eq, Structural)]
pub struct AsyncIOStats {
    pub operations_queued: u64,
    pub operations_completed: u64,
    pub bytes_transferred: u64,
    pub syscalls_avoided: u64,
}

/// All I/O counters at zero.
pub open spec fn zero_io_stats() -> AsyncIOStats {
    AsyncIOStats { operations_queued: 0, operations_completed: 0, bytes_transferred: 0, syscalls_avoided: 0 }
}

/// A memory-mapped file region.
#[derive(Debug, Clone, Copy, PartialEq, Eq, Structural)]
pub struct MemoryMappedRegion {
    pub address: usize,
    pub size: usize,
    pub file_descriptor: i32,
}

/// Whether a kernel release (the output of `uname -r`) supports io_uring: its major
/// version, the text before the first dot, parses as a `u32` of at least 5.
pub open spec fn spec_io_uring_release(release: Seq<char>) -> bool {
    let major = major_field(release);
    crate::trading::spec_parse_u64(major) matches Some(v) && v <= u32::MAX && v >= 5
}

/// The text before the first dot (all of it without a dot).
pub open spec fn major_field(s: Seq<char>) -> Seq<char> {
    if exists|i: int| 0 <= i < s.len() && s[i] == '.' {
        s.take(choose|i: int| 0 <= i < s.len() && s[i] == '.' && forall|j: int| 0 <= j < i ==> s[j] != '.')
    } else {
        s
    }
}

/// Whether a kernel release supports io_uring (see `spec_io_uring_release`).
pub fn io_uring_release(release: &str) -> (r: bool)
    ensures
        r == spec_io_uring_release(release@),
{
    let n = release.unicode_len();
    let mut i: usize = 0;
    while i < n && release.get_char(i) != '.'
        invariant
            n == release@.len(),
            i <= n,
            forall|j: int| 0 <= j < i ==> release@[j] != '.',
        decreases n - i,
    {
        i = i + 1;
    }
    let major = release.substring_char(0, i);
    proof {
        if i < n {
            assert(release@[i as int] == '.');
            let c = choose|k: int|
                0 <= k < release@.len() && release@[k] == '.' && forall|j: int| 0 <= j < k ==> release@[j] != '.';
            assert(c == i) by {
                if c < i {
                    assert(release@[c] != '.');
                } else if c > i {
                    assert(release@[i as int] != '.');
                }
            }
            assert(major_field(release@) == release@.take(i as int));
        } else {
            assert(major_field(release@) =~= release@) by {
                if exists|k: int| 0 <= k < release@.len() && release@[k] == '.' {
                    let k = choose|k: int| 0 <= k < release@.len() && release@[k] == '.';
                    assert(release@[k] != '.');
                }
            }
        }
        assert(major@ =~= major_field(release@));
    }
    match parse_token_amount(major) {
        Some(v) => v <= 4294967295 && v >= 5,
        None => false,
    }
}

/// Writes in batches (simulated: each write is taken to succeed in full) and counts
/// them, using io_uring when the kernel has it.
pub struct IOOptimizer {
    io_uring_available: bool,
    async_io_stats: AsyncIOStats,
    mmap_regions: Vec<MemoryMappedRegion>,
}

/// Total length of a list of buffers.
pub open spec fn total_len(datas: Seq<Vec<u8>>) -> int
    decreases datas.len(),
{
    if datas.len() == 0 {
        0
    } else {
        total_len(datas.drop_last()) + datas.last()@.len()
    }
}

impl IOOptimizer {
    /// Whether io_uring is used.
    pub closed spec fn spec_io_uring(&self) -> bool {
        self.io_uring_available
    }

    /// The counters.
    pub closed spec fn spec_stats(&self) -> AsyncIOStats {
        self.async_io_stats
    }

    /// The mapped regions, in the order they were recorded.
    pub closed spec fn regions(&self) -> Seq<MemoryMappedRegion> {
        self.mmap_regions@
    }

    /// An optimizer that uses io_uring as `io_uring_available` says, counters at zero.
    pub fn with_io_uring(_config: &SyscallBypassConfig, io_uring_available: bool) -> (r: Result<Self, String>)
        ensures
            r matches Ok(o) && o.spec_io_uring() == io_uring_available && o.spec_stats()
                == zero_io_stats() && o.regions() == Seq::<MemoryMappedRegion>::empty(),
    {
        Ok(
            IOOptimizer {
                io_uring_available,
                async_io_stats: AsyncIOStats {
                    operations_queued: 0,
                    operations_completed: 0,
                    bytes_transferred: 0,
                    syscalls_avoided: 0,
                },
                mmap_regions: Vec::new(),
            },
        )
    }

    /// An optimizer that does not use io_uring (the kernel is not asked here; see
    /// `with_io_uring` and `io_uring_release`).
    pub fn new(config: &SyscallBypassConfig) -> (r: Result<Self, String>)
        ensures
            r matches Ok(o) && !o.spec_io_uring() && o.spec_stats() == zero_io_stats() && o.regions()
                == Seq::<MemoryMappedRegion>::empty(),
    {
        Self::with_io_uring(config, false)
    }

    /// "Writes" each buffer and reports its full length; with io_uring and more than
    /// one request every write is queued and completed in one submission, which saves
    /// all but one system call. Counters wrap as atomics do.
    pub fn batch_async_write(&mut self, datas: &Vec<Vec<u8>>) -> (r: Result<Vec<usize>, String>)
        ensures
            r matches Ok(v) && v@.len() == datas@.len() && forall|i: int|
                0 <= i < datas@.len() ==> v@[i] == datas@[i]@.len(),
            final(self).spec_io_uring() == old(self).spec_io_uring(),
            final(self).regions() == old(self).regions(),
    {
        let uring = self.io_uring_available && datas.len() > 1;
        let mut results: Vec<usize> = Vec::new();
        let mut i: usize = 0;
        while i < datas.len()
            invariant
                i <= datas@.len(),
                results@.len() == i,
                forall|j: int| 0 <= j < i ==> results@[j] == datas@[j]@.len(),
                self.io_uring_available == old(self).io_uring_available,
                self.mmap_regions == old(self).mmap_regions,
            decreases datas@.len() - i,
        {
            let len = datas[i].len();
            if uring {
                self.async_io_stats.operations_queued = self.async_io_stats.operations_queued.wrapping_add(1);
            }
            results.push(len);
            self.async_io_stats.bytes_transferred = self.async_io_stats.bytes_transferred.wrapping_add(
                len as u64,
            );
            if uring {
                self.async_io_stats.operations_completed =
                    self.async_io_stats.operations_completed.wrapping_add(1);
            }
            i = i + 1;
        }
        if uring {
            self.async_io_stats.syscalls_avoided = self.async_io_stats.syscalls_avoided.wrapping_add(
                (datas.len() - 1) as u64,
            );
        }
        Ok(results)
    }

    /// Records a region mapped by the caller; returns its address.
    pub fn record_mapped_region(&mut self, address: usize, size: usize, file_descriptor: i32) -> (r: usize)
        ensures
            r == address,
            final(self).regions() == old(self).regions().push(
                MemoryMappedRegion { address, size, file_descriptor },
            ),
            final(self).spec_stats() == old(self).spec_stats(),
            final(self).spec_io_uring() == old(self).spec_io_uring(),
    {
        self.mmap_regions.push(MemoryMappedRegion { address, size, file_descriptor });
        address
    }

    /// A copy of the counters.
    pub fn get_stats(&self) -> (r: AsyncIOStats)
        ensures
            r == self.spec_stats(),
    {
        self.async_io_stats
    }
}

// ----------------------------------------------------------------------------
// Bump allocator

/// Bytes in the bump allocator's pool (1 MiB).
pub const USERSPACE_POOL_SIZE: usize = 1048576;

/// Error of a pool with no room left.
pub open spec fn pool_exhausted_error() -> Seq<char> {
    "Memory pool exhausted"@
}

/// `n` rounded up to a multiple of 8.
pub open spec fn round8(n: int) -> int {
    (n + 7) / 8 * 8
}

/// Hands out 8-byte-aligned pieces of a 1 MiB pool, never taking them back.
pub struct UserspaceArena {
    offset: usize,
}

impl UserspaceArena {
    /// Where the next piece starts.
    pub closed spec fn spec_offset(&self) -> usize {
        self.offset
    }

    /// An empty pool.
    pub fn new() -> (r: Self)
        ensures
            r.spec_offset() == 0,
    {
        UserspaceArena { offset: 0 }
    }

    /// The offset of a fresh piece of `size` bytes; refused when it does not fit.
    /// The next piece starts `size` rounded up to 8 bytes further.
    pub fn allocate(&mut self, size: usize) -> (r: Result<usize, String>)
        requires
            old(self).spec_offset() + size <= usize::MAX,
        ensures
            old(self).spec_offset() + size > USERSPACE_POOL_SIZE ==> (r matches Err(e) && e@
                == pool_exhausted_error()) && final(self).spec_offset() == old(self).spec_offset(),
            old(self).spec_offset() + size <= USERSPACE_POOL_SIZE ==> r == Ok::<usize, String>(
                old(self).spec_offset(),
            ) && final(self).spec_offset() == old(self).spec_offset() + round8(size as int),
    {
        if self.offset + size > USERSPACE_POOL_SIZE {
            return Err("Memory pool exhausted".to_owned());
        }
        let r = self.offset;
        let x = size + 7;
        let step = x & !7usize;
        assert(step == x - x % 8) by (bit_vector)
            requires
                step == x & !7usize,
        ;
        assert(step == round8(size as int)) by {
            vstd::arithmetic::div_mod::lemma_fundamental_div_mod(x as int, 8);
        }
        self.offset = self.offset + step;
        Ok(r)
    }
}

// ----------------------------------------------------------------------------
// Manager

/// Counters of the bypass manager.
#[derive(Debug, Clone, Copy, PartialEq, Eq, Structural)]
pub struct SyscallBypassStats {
    pub syscalls_bypassed: u64,
    pub syscalls_batched: u64,
    pub time_calls_cached: u64,
    pub io_operations_optimized: u64,
    pub memory_operations_avoided: u64,
}

/// All bypass counters at zero.
pub open spec fn zero_bypass_stats() -> SyscallBypassStats {
    SyscallBypassStats {
        syscalls_bypassed: 0,
        syscalls_batched: 0,
        time_calls_cached: 0,
        io_operations_optimized: 0,
        memory_operations_avoided: 0,
    }
}

/// A copy of the bypass counters.
#[derive(Debug, Clone, Copy, PartialEq, Eq, Structural)]
pub struct SyscallBypassStatsSnapshot {
    pub syscalls_bypassed: u64,
    pub syscalls_batched: u64,
    pub time_calls_cached: u64,
    pub io_operations_optimized: u64,
    pub memory_operations_avoided: u64,
}

impl SyscallBypassStatsSnapshot {
    /// Optimizations of every kind together: bypassed calls, cached time reads,
    /// optimized I/O and avoided memory operations.
    pub fn total_optimizations(&self) -> (r: u128)
        ensures
            r == self.syscalls_bypassed + self.time_calls_cached + self.io_operations_optimized
                + self.memory_operations_avoided,
    {
        self.syscalls_bypassed as u128 + self.time_calls_cached as u128 + self.io_operations_optimized as u128
            + self.memory_operations_avoided as u128
    }
}

/// Where a fast allocation came from.
#[derive(Debug)]
pub enum FastAllocation {
    /// A piece of the bump allocator's pool, at this offset.
    Pool { offset: usize },
    /// A fresh zeroed heap block.
    Heap { block: Vec<u8> },
}

/// Error of an allocation the pool refuses.
pub open spec fn batch_disabled_error() -> Seq<char> {
    "Batch processing disabled"@
}

/// Batches system calls, serves cached timestamps and bump allocations, and counts it.
pub struct SystemCallBypassManager {
    config: SyscallBypassConfig,
    batch_processor: SyscallBatchProcessor,
    fast_time_provider: FastTimeProvider,
    io_optimizer: IOOptimizer,
    arena: UserspaceArena,
    stats: SyscallBypassStats,
}

impl SystemCallBypassManager {
    /// The configuration in use.
    pub closed spec fn spec_config(&self) -> SyscallBypassConfig {
        self.config
    }

    /// The counters.
    pub closed spec fn spec_stats(&self) -> SyscallBypassStats {
        self.stats
    }

    /// The batch queue.
    pub closed spec fn spec_processor(&self) -> SyscallBatchProcessor {
        self.batch_processor
    }

    /// The bump allocator.
    pub closed spec fn spec_arena(&self) -> UserspaceArena {
        self.arena
    }

    /// The batch queue stays within its capacity.
    pub closed spec fn well_formed(&self) -> bool {
        self.batch_processor.well_formed()
    }

    /// A manager for `config`: a queue of ten batches, a fast clock, an I/O optimizer
    /// without io_uring, an empty pool and zero counters; fails when the system clock
    /// reads before the Unix epoch.
    pub fn new(config: SyscallBypassConfig) -> (r: Result<Self, String>)
        requires
            0 < config.batch_size,
            config.batch_size * 10 <= isize::MAX,
        ensures
            r matches Ok(m) ==> {
                &&& m.well_formed()
                &&& m.spec_config() == config
                &&& m.spec_stats() == zero_bypass_stats()
                &&& m.spec_processor().pending() == Seq::<SyscallRequest>::empty()
                &&& m.spec_processor().capacity() == config.batch_size * 10
                &&& m.spec_arena().spec_offset() == 0
            },
            r matches Err(e) ==> e@ == clock_before_epoch_error(),
    {
        let batch_processor = match SyscallBatchProcessor::new(config.batch_size) {
            Ok(p) => p,
            Err(e) => {
                return Err(e);
            },
        };
        let fast_time_provider = match FastTimeProvider::new(config.enable_vdso) {
            Ok(p) => p,
            Err(e) => {
                return Err(e);
            },
        };
        let io_optimizer = match IOOptimizer::new(&config) {
            Ok(o) => o,
            Err(e) => {
                return Err(e);
            },
        };
        Ok(
            SystemCallBypassManager {
                config,
                batch_processor,
                fast_time_provider,
                io_optimizer,
                arena: UserspaceArena::new(),
                stats: SyscallBypassStats {
                    syscalls_bypassed: 0,
                    syscalls_batched: 0,
                    time_calls_cached: 0,
                    io_operations_optimized: 0,
                    memory_operations_avoided: 0,
                },
            },
        )
    }

    /// Current time in nanoseconds: from the fast clock (counted) when fast time is on,
    /// else straight from the system clock (zero before the epoch).
    pub fn fast_timestamp_nanos(&mut self) -> (r: u64)
        ensures
            final(self).well_formed() == old(self).well_formed(),
            final(self).spec_config() == old(self).spec_config(),
            final(self).spec_processor() == old(self).spec_processor(),
            final(self).spec_arena() == old(self).spec_arena(),
            final(self).spec_stats() == (SyscallBypassStats {
                time_calls_cached: if old(self).spec_config().enable_fast_time {
                    vstd::wrapping::u64_specs::wrapping_add(old(self).spec_stats().time_calls_cached, 1)
                } else {
                    old(self).spec_stats().time_calls_cached
                },
                ..old(self).spec_stats()
            }),
    {
        if self.config.enable_fast_time {
            self.stats.time_calls_cached = self.stats.time_calls_cached.wrapping_add(1);
            return self.fast_time_provider.fast_now_nanos();
        }
        match epoch_nanos() {
            Some(n) => n,
            None => 0,
        }
    }

    /// Queues the operations for batching, in order, and counts the submission;
    /// refused when batching is off, stopped at the first that does not fit.
    pub fn submit_batch_io(&mut self, operations: Vec<SyscallRequest>) -> (r: Result<(), String>)
        requires
            old(self).well_formed(),
        ensures
            final(self).well_formed(),
            final(self).spec_config() == old(self).spec_config(),
            final(self).spec_arena() == old(self).spec_arena(),
            !old(self).spec_config().enable_batch_processing ==> (r matches Err(e) && e@
                == batch_disabled_error()) && *final(self) == *old(self),
            old(self).spec_config().enable_batch_processing && old(self).spec_processor().pending().len()
                + operations@.len() <= old(self).spec_processor().capacity() ==> {
                &&& r is Ok
                &&& final(self).spec_processor().pending() == old(self).spec_processor().pending()
                    + operations@
                &&& final(self).spec_stats().syscalls_batched == vstd::wrapping::u64_specs::wrapping_add(
                    old(self).spec_stats().syscalls_batched,
                    1,
                )
            },
            old(self).spec_config().enable_batch_processing && old(self).spec_processor().pending().len()
                + operations@.len() > old(self).spec_processor().capacity() ==> (r matches Err(e) && e@
                == queue_full_error()),
    {
        if !self.config.enable_batch_processing {
            return Err("Batch processing disabled".to_owned());
        }
        let ghost start = self.batch_processor.pending();
        let ghost ops = operations@;
        let total = operations.len();
        let mut rest = reversed(operations);
        let mut done: usize = 0;
        while rest.len() > 0
            invariant
                ops == operations@,
                ops.len() == total,
                done + rest@.len() == total,
                forall|i: int| 0 <= i < rest@.len() ==> #[trigger] rest@[i] == ops[total - 1 - i],
                self.batch_processor.pending() == start + ops.take(done as int),
                self.batch_processor.capacity() == old(self).batch_processor.capacity(),
                self.config == old(self).config,
                self.arena == old(self).arena,
                self.stats == old(self).stats,
                start == old(self).batch_processor.pending(),
                self.config.enable_batch_processing,
                self.batch_processor.well_formed(),
            decreases rest@.len(),
        {
            let op = rest.pop().unwrap();
            proof {
                assert(op == ops[done as int]);
                assert(ops.take(done + 1) =~= ops.take(done as int).push(op));
            }
            match self.batch_processor.submit_request(op) {
                Ok(()) => {},
                Err(e) => {
                    assert(start.len() + done >= self.batch_processor.capacity());
                    assert(done < total);
                    assert(old(self).spec_processor().pending().len() + operations@.len()
                        > old(self).spec_processor().capacity());
                    return Err(e);
                },
            }
            done = done + 1;
        }
        assert(ops.take(done as int) =~= ops);
        self.stats.syscalls_batched = self.stats.syscalls_batched.wrapping_add(1);
        Ok(())
    }

    /// Runs one batch of queued requests (see `SyscallBatchProcessor::execute_batch`) and
    /// counts the requests taken as bypassed.
    pub fn process_batch(&mut self) -> (r: Result<usize, String>)
        requires
            old(self).well_formed(),
        ensures
            final(self).well_formed(),
            final(self).spec_config() == old(self).spec_config(),
            final(self).spec_arena() == old(self).spec_arena(),
            ({
                let p0 = old(self).spec_processor();
                let n = if p0.pending().len() < MAX_BATCH {
                    p0.pending().len()
                } else {
                    MAX_BATCH as nat
                };
                &&& r == Ok::<usize, String>(n as usize)
                &&& final(self).spec_processor().pending() == p0.pending().skip(n as int)
                &&& final(self).spec_processor().capacity() == p0.capacity()
                &&& final(self).spec_processor().batches() == if n == 0 {
                    p0.batches()
                } else {
                    vstd::wrapping::u64_specs::wrapping_add(p0.batches(), 1)
                }
                &&& final(self).spec_stats() == (SyscallBypassStats {
                    syscalls_bypassed: if n > 0 {
                        vstd::wrapping::u64_specs::wrapping_add(
                            old(self).spec_stats().syscalls_bypassed,
                            n as u64,
                        )
                    } else {
                        old(self).spec_stats().syscalls_bypassed
                    },
                    ..old(self).spec_stats()
                })
            }),
    {
        let r = self.batch_processor.execute_batch();
        if let Ok(processed) = r {
            if processed > 0 {
                self.stats.syscalls_bypassed = self.stats.syscalls_bypassed.wrapping_add(processed as u64);
            }
        }
        r
    }

    /// A piece of `size` bytes: from the bump allocator (counted) when user-space
    /// implementations are on, else a fresh zeroed heap block.
    pub fn fast_allocate(&mut self, size: usize) -> (r: Result<FastAllocation, String>)
        requires
            old(self).spec_arena().spec_offset() + size <= usize::MAX,
        ensures
            final(self).well_formed() == old(self).well_formed(),
            final(self).spec_config() == old(self).spec_config(),
            old(self).spec_config().enable_userspace_impl ==> {
                &&& final(self).spec_stats().memory_operations_avoided
                    == vstd::wrapping::u64_specs::wrapping_add(
                    old(self).spec_stats().memory_operations_avoided,
                    1,
                )
                &&& old(self).spec_arena().spec_offset() + size <= USERSPACE_POOL_SIZE ==> r
                    == Ok::<FastAllocation, String>(
                    FastAllocation::Pool { offset: old(self).spec_arena().spec_offset() },
                )
                &&& old(self).spec_arena().spec_offset() + size > USERSPACE_POOL_SIZE ==> (r matches Err(
                    e,
                ) && e@ == pool_exhausted_error())
            },
            !old(self).spec_config().enable_userspace_impl ==> (r matches Ok(FastAllocation::Heap { block })
                && block@.len() == size),
    {
        if self.config.enable_userspace_impl {
            self.stats.memory_operations_avoided = self.stats.memory_operations_avoided.wrapping_add(1);
            return match self.arena.allocate(size) {
                Ok(offset) => Ok(FastAllocation::Pool { offset }),
                Err(e) => Err(e),
            };
        }
        let mut block: Vec<u8> = Vec::new();
        let mut i: usize = 0;
        while i < size
            invariant
                i <= size,
                block@.len() == i,
            decreases size - i,
        {
            block.push(0u8);
            i = i + 1;
        }
        Ok(FastAllocation::Heap { block })
    }

    /// A copy of the counters.
    pub fn get_bypass_stats(&self) -> (r: SyscallBypassStatsSnapshot)
        ensures
            r == (SyscallBypassStatsSnapshot {
                syscalls_bypassed: self.spec_stats().syscalls_bypassed,
                syscalls_batched: self.spec_stats().syscalls_batched,
                time_calls_cached: self.spec_stats().time_calls_cached,
                io_operations_optimized: self.spec_stats().io_operations_optimized,
                memory_operations_avoided: self.spec_stats().memory_operations_avoided,
            }),
    {
        SyscallBypassStatsSnapshot {
            syscalls_bypassed: self.stats.syscalls_bypassed,
            syscalls_batched: self.stats.syscalls_batched,
            time_calls_cached: self.stats.time_calls_cached,
            io_operations_optimized: self.stats.io_operations_optimized,
            memory_operations_avoided: self.stats.memory_operations_avoided,
        }
    }

    /// The most aggressive configuration: everything enabled, batches of 1000, a cache
    /// of 10000.
    pub fn extreme_bypass_config() -> (r: SyscallBypassConfig)
        ensures
            r == (SyscallBypassConfig {
                enable_batch_processing: true,
                batch_size: 1000,
                enable_fast_time: true,
                enable_vdso: true,
                enable_io_uring: true,
                enable_mmap_optimization: true,
                enable_userspace_impl: true,
                syscall_cache_size: 10000,
            }),
    {
        SyscallBypassConfig {
            enable_batch_processing: true,
            batch_size: 1000,
            enable_fast_time: true,
            enable_vdso: true,
            enable_io_uring: true,
            enable_mmap_optimization: true,
            enable_userspace_impl: true,
            syscall_cache_size: 10000,
        }
    }
}

} // verus!
