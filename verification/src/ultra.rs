//! Low-latency event dispatch: per-client queues assigned round-robin, a prefetch
//! queue, latency counters by band, worker pinning, and a serializer that reuses its
//! buffers.

use vstd::prelude::*;
use vstd::wrapping::u64_specs::wrapping_add;

use crossbeam_queue::ArrayQueue;

use crate::protocol::{same_event, EventMessage};
use crate::serialization::{
    buffer_queue_cap, buffer_queue_capacity, buffer_queue_items, buffer_queue_len, new_buffer_queue, pop_buffer,
    push_buffer,
};
use crate::string_map::StringMap;
use crate::timing::{instant_elapsed_nanos, instant_now, u128_to_u64};

verus! {

/// Scheduling priority of a worker thread.
#[derive(Clone, Copy, Debug, PartialEq, Eq, Structural)]
pub enum ThreadPriority {
    Normal,
    High,
    RealTime,
}

/// Which cores workers are pinned to.
#[derive(Clone, Debug)]
pub struct CpuAffinityConfig {
    /// Cores to pin to, used in turn.
    pub core_ids: Vec<usize>,
    /// Keep memory on the workers' NUMA node.
    pub numa_optimization: bool,
    /// Thread priority.
    pub priority: ThreadPriority,
}

/// The core worker `worker_id` is pinned to: the cores are used in turn; none when no
/// core is listed.
pub fn worker_core(config: &CpuAffinityConfig, worker_id: usize) -> (r: Option<usize>)
    ensures
        config.core_ids@.len() == 0 ==> r is None,
        config.core_ids@.len() > 0 ==> r == Some(config.core_ids@[worker_id as int % config.core_ids@.len() as int]),
{
    if config.core_ids.len() == 0 {
        return None;
    }
    Some(config.core_ids[worker_id % config.core_ids.len()])
}

/// Latency counters; the sums wrap at 2^64.
#[derive(Clone, Copy, Debug)]
pub struct UltraLowLatencyStats {
    pub events_processed: u64,
    pub total_latency_ns: u64,
    /// Smallest latency seen (`u64::MAX` before the first).
    pub min_latency_ns: u64,
    pub max_latency_ns: u64,
    /// Events under a millisecond.
    pub sub_millisecond_events: u64,
    /// Events under 100 microseconds.
    pub ultra_fast_events: u64,
    /// Events under 10 microseconds.
    pub lightning_fast_events: u64,
    pub queue_overflows: u64,
    pub prefetch_hits: u64,
}

/// `count` plus one when `hit`.
pub open spec fn count_if(count: u64, hit: bool) -> u64 {
    if hit {
        wrapping_add(count, 1)
    } else {
        count
    }
}

/// The counters after an event of `latency_ns`.
pub open spec fn after_event(s: UltraLowLatencyStats, latency_ns: u64) -> UltraLowLatencyStats {
    UltraLowLatencyStats {
        events_processed: wrapping_add(s.events_processed, 1),
        total_latency_ns: wrapping_add(s.total_latency_ns, latency_ns),
        min_latency_ns: if latency_ns < s.min_latency_ns {
            latency_ns
        } else {
            s.min_latency_ns
        },
        max_latency_ns: if latency_ns > s.max_latency_ns {
            latency_ns
        } else {
            s.max_latency_ns
        },
        sub_millisecond_events: count_if(s.sub_millisecond_events, latency_ns < 1_000_000),
        ultra_fast_events: count_if(s.ultra_fast_events, latency_ns < 100_000),
        lightning_fast_events: count_if(s.lightning_fast_events, latency_ns < 10_000),
        ..s
    }
}

impl UltraLowLatencyStats {
    /// No event yet: zero counters and the smallest latency at `u64::MAX`.
    pub fn new() -> (r: Self)
        ensures
            r == (UltraLowLatencyStats {
                events_processed: 0,
                total_latency_ns: 0,
                min_latency_ns: u64::MAX,
                max_latency_ns: 0,
                sub_millisecond_events: 0,
                ultra_fast_events: 0,
                lightning_fast_events: 0,
                queue_overflows: 0,
                prefetch_hits: 0,
            }),
    {
        UltraLowLatencyStats {
            events_processed: 0,
            total_latency_ns: 0,
            min_latency_ns: u64::MAX,
            max_latency_ns: 0,
            sub_millisecond_events: 0,
            ultra_fast_events: 0,
            lightning_fast_events: 0,
            queue_overflows: 0,
            prefetch_hits: 0,
        }
    }

    /// Counts an event of `latency_ns` (see `after_event`).
    pub fn record_event_latency(&mut self, latency_ns: u64)
        ensures
            *final(self) == after_event(*old(self), latency_ns),
    {
        self.events_processed = self.events_processed.wrapping_add(1);
        self.total_latency_ns = self.total_latency_ns.wrapping_add(latency_ns);
        if latency_ns < self.min_latency_ns {
            self.min_latency_ns = latency_ns;
        }
        if latency_ns > self.max_latency_ns {
            self.max_latency_ns = latency_ns;
        }
        if latency_ns < 1_000_000 {
            self.sub_millisecond_events = self.sub_millisecond_events.wrapping_add(1);
        }
        if latency_ns < 100_000 {
            self.ultra_fast_events = self.ultra_fast_events.wrapping_add(1);
        }
        if latency_ns < 10_000 {
            self.lightning_fast_events = self.lightning_fast_events.wrapping_add(1);
        }
    }
}

/// The events waiting in an event queue, oldest first.
pub uninterp spec fn event_queue_items(q: ArrayQueue<EventMessage>) -> Seq<EventMessage>;

/// The number of events an event queue can hold.
pub uninterp spec fn event_queue_capacity(q: ArrayQueue<EventMessage>) -> nat;

/// Calls `ArrayQueue::new(cap)`: an empty queue of capacity `cap` (the crate panics on
/// a zero capacity).
#[verifier::external_body]
fn new_event_queue(cap: usize) -> (r: ArrayQueue<EventMessage>)
    requires
        0 < cap <= isize::MAX,
    ensures
        event_queue_items(r) == Seq::<EventMessage>::empty(),
        event_queue_capacity(r) == cap,
{
    ArrayQueue::new(cap)
}

/// Calls `ArrayQueue::push`: appends the event unless the queue is full, in which case
/// it comes back.
#[verifier::external_body]
fn push_event(q: &mut ArrayQueue<EventMessage>, event: EventMessage) -> (r: Result<(), EventMessage>)
    ensures
        event_queue_capacity(*final(q)) == event_queue_capacity(*old(q)),
        event_queue_items(*old(q)).len() < event_queue_capacity(*old(q)) ==> r is Ok && event_queue_items(*final(q))
            == event_queue_items(*old(q)).push(event),
        event_queue_items(*old(q)).len() >= event_queue_capacity(*old(q)) ==> (r matches Err(e) && e == event)
            && event_queue_items(*final(q)) == event_queue_items(*old(q)),
{
    q.push(event)
}

/// Calls `ArrayQueue::pop`: takes the oldest event, if any.
#[verifier::external_body]
fn pop_event(q: &mut ArrayQueue<EventMessage>) -> (r: Option<EventMessage>)
    ensures
        event_queue_capacity(*final(q)) == event_queue_capacity(*old(q)),
        event_queue_items(*old(q)).len() == 0 ==> r is None && event_queue_items(*final(q)) == event_queue_items(
            *old(q),
        ),
        event_queue_items(*old(q)).len() > 0 ==> r == Some(event_queue_items(*old(q))[0]) && event_queue_items(
            *final(q),
        ) == event_queue_items(*old(q)).skip(1),
{
    q.pop()
}

/// Calls `ArrayQueue::len`: the number of waiting events, which never exceeds the
/// capacity (the crate computes it from head and tail indices within one lap).
#[verifier::external_body]
fn event_queue_len(q: &ArrayQueue<EventMessage>) -> (r: usize)
    ensures
        r == event_queue_items(*q).len(),
        r <= event_queue_capacity(*q),
{
    q.len()
}

/// Keeps copies of recent events for later reuse.
pub struct PrefetchOptimizer {
    prediction_cache: ArrayQueue<EventMessage>,
    hit_count: u64,
    miss_count: u64,
    learning_enabled: bool,
}

impl PrefetchOptimizer {
    /// The kept events, oldest first.
    pub closed spec fn kept(&self) -> Seq<EventMessage> {
        event_queue_items(self.prediction_cache)
    }

    /// How many events can be kept.
    pub closed spec fn room(&self) -> nat {
        event_queue_capacity(self.prediction_cache)
    }

    /// Takes served from the kept events.
    pub closed spec fn hits(&self) -> u64 {
        self.hit_count
    }

    /// Takes that found nothing kept.
    pub closed spec fn misses(&self) -> u64 {
        self.miss_count
    }

    /// Whether new events are kept.
    pub closed spec fn learning(&self) -> bool {
        self.learning_enabled
    }

    /// An empty store for `cache_size` events, keeping new ones.
    pub fn new(cache_size: usize) -> (r: Self)
        requires
            0 < cache_size <= isize::MAX,
        ensures
            r.kept() == Seq::<EventMessage>::empty(),
            r.room() == cache_size,
            r.hits() == 0,
            r.misses() == 0,
            r.learning(),
    {
        PrefetchOptimizer {
            prediction_cache: new_event_queue(cache_size),
            hit_count: 0,
            miss_count: 0,
            learning_enabled: true,
        }
    }

    /// Keeps a copy of `event` when keeping is on and there is room.
    pub fn prefetch_event_data(&mut self, event: &EventMessage)
        ensures
            final(self).room() == old(self).room(),
            final(self).hits() == old(self).hits(),
            final(self).misses() == old(self).misses(),
            final(self).learning() == old(self).learning(),
            !old(self).learning() || old(self).kept().len() >= old(self).room() ==> final(self).kept() == old(
                self,
            ).kept(),
            old(self).learning() && old(self).kept().len() < old(self).room() ==> final(self).kept().len() == old(
                self,
            ).kept().len() + 1 && final(self).kept().drop_last() == old(self).kept() && same_event(
                final(self).kept().last(),
                *event,
            ),
    {
        if !self.learning_enabled {
            return;
        }
        let copy = event.duplicate();
        let ghost before = event_queue_items(self.prediction_cache);
        let _ = push_event(&mut self.prediction_cache, copy);
        proof {
            if before.len() < event_queue_capacity(self.prediction_cache) {
                assert(event_queue_items(self.prediction_cache).drop_last() =~= before);
            }
        }
    }

    /// Takes the oldest kept event, counting a hit, or counts a miss.
    pub fn try_get_prefetched(&mut self) -> (r: Option<EventMessage>)
        ensures
            final(self).room() == old(self).room(),
            final(self).learning() == old(self).learning(),
            old(self).kept().len() == 0 ==> r is None && final(self).kept() == old(self).kept()
                && final(self).misses() == wrapping_add(old(self).misses(), 1) && final(self).hits() == old(
                self,
            ).hits(),
            old(self).kept().len() > 0 ==> r == Some(old(self).kept()[0]) && final(self).kept() == old(
                self,
            ).kept().skip(1) && final(self).hits() == wrapping_add(old(self).hits(), 1) && final(self).misses()
                == old(self).misses(),
    {
        match pop_event(&mut self.prediction_cache) {
            Some(event) => {
                self.hit_count = self.hit_count.wrapping_add(1);
                Some(event)
            },
            None => {
                self.miss_count = self.miss_count.wrapping_add(1);
                None
            },
        }
    }

    /// Hits and misses so far.
    pub fn get_counts(&self) -> (r: (u64, u64))
        ensures
            r == (self.hits(), self.misses()),
    {
        (self.hit_count, self.miss_count)
    }
}

/// Events kept by the dispatcher's prefetch store.
pub const PREFETCH_CACHE_SIZE: usize = 1000;

/// Largest batch a worker takes from one queue in one pass.
pub const WORKER_BATCH: usize = 100;

/// Law: once a client has a queue, dispatching for it again keeps every client's queue:
/// the update a dispatch makes to the client table is then no change.
pub proof fn law_client_queue_sticky(clients: Map<Seq<char>, usize>, client_id: Seq<char>)
    requires
        clients.dom().contains(client_id),
    ensures
        clients.insert(client_id, clients[client_id]) == clients,
{
    assert(clients.insert(client_id, clients[client_id]) =~= clients);
}

/// Hands events to per-client queues; a new client gets the next queue in turn.
pub struct LockFreeEventDispatcher {
    event_queues: Vec<ArrayQueue<EventMessage>>,
    client_queue_mapping: Vec<(String, usize)>,
    queue_selector: usize,
    stats: UltraLowLatencyStats,
    prefetch_optimizer: PrefetchOptimizer,
    cpu_affinity: Option<CpuAffinityConfig>,
}

/// Error of a full client queue.
pub open spec fn overflow_error(client_id: Seq<char>) -> Seq<char> {
    "Queue overflow for client: "@ + client_id
}

impl LockFreeEventDispatcher {
    /// The queues' contents.
    pub closed spec fn queues(&self) -> Seq<Seq<EventMessage>> {
        self.event_queues@.map_values(|q: ArrayQueue<EventMessage>| event_queue_items(q))
    }

    /// The queues' capacities.
    pub closed spec fn capacities(&self) -> Seq<nat> {
        self.event_queues@.map_values(|q: ArrayQueue<EventMessage>| event_queue_capacity(q))
    }

    /// The queue each known client uses.
    pub closed spec fn clients(&self) -> Map<Seq<char>, usize> {
        Map::new(
            |k: Seq<char>| exists|i: int| 0 <= i < self.client_queue_mapping@.len() && self.client_queue_mapping@[i].0@ == k,
            |k: Seq<char>|
                self.client_queue_mapping@[choose|i: int|
                    0 <= i < self.client_queue_mapping@.len() && self.client_queue_mapping@[i].0@ == k].1,
        )
    }

    /// The counter that picks a new client's queue.
    pub closed spec fn selector(&self) -> usize {
        self.queue_selector
    }

    /// The latency counters.
    pub closed spec fn spec_stats(&self) -> UltraLowLatencyStats {
        self.stats
    }

    /// The prefetch store.
    pub closed spec fn prefetch(&self) -> PrefetchOptimizer {
        self.prefetch_optimizer
    }

    /// The pinning of the workers.
    pub closed spec fn spec_cpu_affinity(&self) -> Option<CpuAffinityConfig> {
        self.cpu_affinity
    }

    /// Clients are listed once each and use existing queues.
    pub closed spec fn well_formed(&self) -> bool {
        &&& forall|i: int, j: int|
            0 <= i < j < self.client_queue_mapping@.len() ==> self.client_queue_mapping@[i].0@
                != self.client_queue_mapping@[j].0@
        &&& forall|i: int|
            0 <= i < self.client_queue_mapping@.len() ==> self.client_queue_mapping@[i].1 < self.event_queues@.len()
    }

    /// `num_queues` empty queues of `queue_capacity` events, no client, zero counters.
    pub fn new(num_queues: usize, queue_capacity: usize, cpu_affinity: Option<CpuAffinityConfig>) -> (r: Self)
        requires
            0 < queue_capacity <= isize::MAX,
        ensures
            r.well_formed(),
            r.queues().len() == num_queues,
            forall|i: int| 0 <= i < num_queues ==> r.queues()[i] == Seq::<EventMessage>::empty() && r.capacities()[i]
                == queue_capacity,
            r.clients() == Map::<Seq<char>, usize>::empty(),
            r.selector() == 0,
            r.spec_stats() == UltraLowLatencyStats::new_spec(),
            r.spec_cpu_affinity() == cpu_affinity,
    {
        let mut event_queues: Vec<ArrayQueue<EventMessage>> = Vec::new();
        let mut i: usize = 0;
        while i < num_queues
            invariant
                i <= num_queues,
                0 < queue_capacity <= isize::MAX,
                event_queues@.len() == i,
                forall|j: int|
                    0 <= j < i ==> event_queue_items(#[trigger] event_queues@[j]) == Seq::<EventMessage>::empty()
                        && event_queue_capacity(event_queues@[j]) == queue_capacity,
            decreases num_queues - i,
        {
            event_queues.push(new_event_queue(queue_capacity));
            i = i + 1;
        }
        let r = LockFreeEventDispatcher {
            event_queues,
            client_queue_mapping: Vec::new(),
            queue_selector: 0,
            stats: UltraLowLatencyStats::new(),
            prefetch_optimizer: PrefetchOptimizer::new(PREFETCH_CACHE_SIZE),
            cpu_affinity,
        };
        assert(r.clients() =~= Map::<Seq<char>, usize>::empty());
        r
    }

    /// Position of `client_id` in the client list.
    fn find_client(&self, client_id: &String) -> (r: Option<usize>)
        ensures
            r matches Some(i) ==> i < self.client_queue_mapping@.len() && self.client_queue_mapping@[i as int].0@
                == client_id@,
            r is None ==> forall|i: int|
                0 <= i < self.client_queue_mapping@.len() ==> self.client_queue_mapping@[i].0@ != client_id@,
    {
        let mut i: usize = 0;
        while i < self.client_queue_mapping.len()
            invariant
                i <= self.client_queue_mapping@.len(),
                forall|j: int| 0 <= j < i ==> self.client_queue_mapping@[j].0@ != client_id@,
            decreases self.client_queue_mapping@.len() - i,
        {
            if self.client_queue_mapping[i].0 == *client_id {
                return Some(i);
            }
            i = i + 1;
        }
        None
    }

    /// The queue `client_id` uses: its own, or for a new client the queue the selector
    /// points at (modulo the number of queues), after which the selector moves on.
    fn queue_for(&mut self, client_id: &String) -> (r: usize)
        requires
            old(self).well_formed(),
            old(self).event_queues@.len() > 0,
        ensures
            final(self).well_formed(),
            r < final(self).event_queues@.len(),
            final(self).event_queues == old(self).event_queues,
            final(self).stats == old(self).stats,
            final(self).prefetch_optimizer == old(self).prefetch_optimizer,
            old(self).clients().dom().contains(client_id@) ==> r == old(self).clients()[client_id@]
                && final(self).clients() == old(self).clients() && final(self).selector() == old(self).selector(),
            !old(self).clients().dom().contains(client_id@) ==> r as int == old(self).selector() as int % old(
                self,
            ).event_queues@.len() as int && final(self).clients() == old(self).clients().insert(client_id@, r)
                && final(self).selector() == (if old(self).selector() == usize::MAX {
                0
            } else {
                (old(self).selector() + 1) as usize
            }),
    {
        let ghost old_clients = self.clients();
        match self.find_client(client_id) {
            Some(i) => {
                proof {
                    let j = choose|j: int|
                        0 <= j < self.client_queue_mapping@.len() && self.client_queue_mapping@[j].0@ == client_id@;
                    assert(j == i);
                }
                self.client_queue_mapping[i].1
            },
            None => {
                let index = self.queue_selector % self.event_queues.len();
                self.queue_selector = self.queue_selector.wrapping_add(1);
                let ghost n = self.client_queue_mapping@.len() as int;
                let ghost before = self.client_queue_mapping@;
                self.client_queue_mapping.push((client_id.clone(), index));
                proof {
                    let k = client_id@;
                    assert forall|kk: Seq<char>| #[trigger] self.clients().dom().contains(kk) <==> old_clients.insert(
                        k,
                        index,
                    ).dom().contains(kk) by {
                        if kk != k && old_clients.dom().contains(kk) {
                            let j = choose|j: int| 0 <= j < before.len() && before[j].0@ == kk;
                            assert(self.client_queue_mapping@[j].0@ == kk);
                        }
                        if kk == k {
                            assert(self.client_queue_mapping@[n].0@ == kk);
                        }
                    }
                    assert forall|kk: Seq<char>| self.clients().dom().contains(kk) implies self.clients()[kk]
                        == old_clients.insert(k, index)[kk] by {
                        let j = choose|j: int|
                            0 <= j < self.client_queue_mapping@.len() && self.client_queue_mapping@[j].0@ == kk;
                        if kk == k {
                            assert(j == n);
                        } else {
                            let j0 = choose|j0: int| 0 <= j0 < before.len() && before[j0].0@ == kk;
                            assert(self.client_queue_mapping@[j0].0@ == kk);
                            assert(j == j0);
                        }
                    }
                    assert(self.clients() =~= old_clients.insert(k, index));
                }
                index
            },
        }
    }

    /// Hands `event` to `client_id`'s queue (see `queue_for`), keeping a copy in the
    /// prefetch store, and counts its latency; a full queue gives
    /// "Queue overflow for client: <id>" and counts an overflow instead.
    pub fn dispatch_event_ultra_fast(&mut self, client_id: &str, event: EventMessage) -> (r: Result<(), String>)
        requires
            old(self).well_formed(),
            old(self).queues().len() > 0,
        ensures
            final(self).well_formed(),
            final(self).queues().len() == old(self).queues().len(),
            final(self).capacities() == old(self).capacities(),
            ({
                let q = if old(self).clients().dom().contains(client_id@) {
                    old(self).clients()[client_id@] as int
                } else {
                    old(self).selector() as int % old(self).queues().len() as int
                };
                &&& final(self).clients() == old(self).clients().insert(client_id@, q as usize)
                &&& forall|j: int| 0 <= j < old(self).queues().len() && j != q ==> final(self).queues()[j] == old(
                    self,
                ).queues()[j]
                &&& old(self).queues()[q].len() < old(self).capacities()[q] ==> r is Ok && final(self).queues()[q]
                    == old(self).queues()[q].push(event) && final(self).spec_stats().events_processed
                    == wrapping_add(old(self).spec_stats().events_processed, 1)
                    && final(self).spec_stats().queue_overflows == old(self).spec_stats().queue_overflows
                &&& old(self).queues()[q].len() >= old(self).capacities()[q] ==> (r matches Err(e) && e@
                    == overflow_error(client_id@)) && final(self).queues()[q] == old(self).queues()[q]
                    && final(self).spec_stats() == (UltraLowLatencyStats {
                    queue_overflows: wrapping_add(old(self).spec_stats().queue_overflows, 1),
                    ..old(self).spec_stats()
                })
            }),
    {
        let start = instant_now();
        let client = client_id.to_owned();
        let ghost old_queues = self.event_queues@;
        let queue_index = self.queue_for(&client);
        proof {
            if old(self).clients().dom().contains(client_id@) {
                assert(old(self).clients().insert(client_id@, queue_index) =~= old(self).clients());
            }
        }
        self.prefetch_optimizer.prefetch_event_data(&event);
        let mut queue = self.event_queues.remove(queue_index);
        let result = push_event(&mut queue, event);
        self.event_queues.insert(queue_index, queue);
        proof {
            assert forall|j: int| 0 <= j < old_queues.len() && j != queue_index implies self.event_queues@[j]
                == old_queues[j] by {}
            assert(self.event_queues@.len() == old_queues.len());
            assert(self.queues().len() == old(self).queues().len());
        }
        match result {
            Ok(()) => {
                let latency_ns = u128_to_u64(instant_elapsed_nanos(&start));
                self.stats.record_event_latency(latency_ns);
                Ok(())
            },
            Err(_) => {
                self.stats.queue_overflows = self.stats.queue_overflows.wrapping_add(1);
                let mut msg = "Queue overflow for client: ".to_owned();
                msg.append(client_id);
                Err(msg)
            },
        }
    }

    /// A worker's take from queue `index`: up to 100 events, oldest first.
    pub fn drain_queue(&mut self, index: usize) -> (r: Vec<EventMessage>)
        requires
            old(self).well_formed(),
            index < old(self).queues().len(),
        ensures
            final(self).well_formed(),
            final(self).queues().len() == old(self).queues().len(),
            final(self).capacities() == old(self).capacities(),
            final(self).clients() == old(self).clients(),
            final(self).spec_stats() == old(self).spec_stats(),
            r@.len() <= WORKER_BATCH,
            r@ == old(self).queues()[index as int].take(r@.len() as int),
            final(self).queues()[index as int] == old(self).queues()[index as int].skip(r@.len() as int),
            r@.len() < WORKER_BATCH ==> r@.len() == old(self).queues()[index as int].len(),
            forall|j: int| 0 <= j < old(self).queues().len() && j != index ==> final(self).queues()[j] == old(
                self,
            ).queues()[j],
    {
        let ghost old_queues = self.event_queues@;
        let mut queue = self.event_queues.remove(index);
        let ghost items = event_queue_items(queue);
        let cap_ghost = Ghost(event_queue_capacity(queue));
        let mut out: Vec<EventMessage> = Vec::new();
        let mut taken: usize = 0;
        while taken < WORKER_BATCH
            invariant
                taken <= WORKER_BATCH,
                out@.len() == taken,
                taken <= items.len(),
                out@ == items.take(taken as int),
                event_queue_items(queue) == items.skip(taken as int),
                event_queue_capacity(queue) == cap_ghost@,
            ensures
                taken <= WORKER_BATCH,
                out@.len() == taken,
                taken <= items.len(),
                out@ == items.take(taken as int),
                event_queue_items(queue) == items.skip(taken as int),
                event_queue_capacity(queue) == cap_ghost@,
                taken < WORKER_BATCH ==> taken == items.len(),
            decreases WORKER_BATCH - taken,
        {
            match pop_event(&mut queue) {
                Some(e) => {
                    proof {
                        assert(items.skip(taken as int)[0] == items[taken as int]);
                        assert(items.skip(taken as int).skip(1) =~= items.skip(taken + 1));
                        assert(items.take(taken + 1) =~= items.take(taken as int).push(items[taken as int]));
                    }
                    out.push(e);
                    taken = taken + 1;
                },
                None => {
                    assert(items.skip(taken as int).len() == 0);
                    break;
                },
            }
        }
        self.event_queues.insert(index, queue);
        proof {
            assert forall|j: int| 0 <= j < old_queues.len() && j != index implies self.event_queues@[j]
                == old_queues[j] by {}
            assert(self.event_queues@.len() == old_queues.len());
        }
        out
    }

    /// Counts a worker's processing latency.
    pub fn record_latency(&mut self, latency_ns: u64)
        requires
            old(self).well_formed(),
        ensures
            final(self).spec_stats() == after_event(old(self).spec_stats(), latency_ns),
            final(self).queues() == old(self).queues(),
            final(self).capacities() == old(self).capacities(),
            final(self).clients() == old(self).clients(),
            final(self).well_formed(),
    {
        self.stats.record_event_latency(latency_ns);
    }

    /// The latency counters.
    pub fn get_performance_stats(&self) -> (r: UltraLowLatencyStats)
        ensures
            r == self.spec_stats(),
    {
        self.stats
    }

    /// Hits and misses of the prefetch store.
    pub fn get_prefetch_stats(&self) -> (r: (u64, u64))
        ensures
            r == (self.prefetch().hits(), self.prefetch().misses()),
    {
        self.prefetch_optimizer.get_counts()
    }

    /// Each queue's position and number of waiting events.
    pub fn get_queue_stats(&self) -> (r: Vec<(usize, usize)>)
        ensures
            r@.len() == self.queues().len(),
            forall|i: int| 0 <= i < r@.len() ==> r@[i] == (i as usize, self.queues()[i].len() as usize),
    {
        let mut out: Vec<(usize, usize)> = Vec::new();
        let mut i: usize = 0;
        while i < self.event_queues.len()
            invariant
                i <= self.event_queues@.len(),
                out@.len() == i,
                forall|j: int| 0 <= j < i ==> out@[j] == (j as usize, self.queues()[j].len() as usize),
            decreases self.event_queues@.len() - i,
        {
            let n = event_queue_len(&self.event_queues[i]);
            out.push((i, n));
            i = i + 1;
        }
        out
    }

    /// The pinning of the workers.
    pub fn cpu_affinity(&self) -> (r: &Option<CpuAffinityConfig>)
        ensures
            *r == self.spec_cpu_affinity(),
    {
        &self.cpu_affinity
    }
}

impl UltraLowLatencyStats {
    /// The counters of `new`.
    pub open spec fn new_spec() -> UltraLowLatencyStats {
        UltraLowLatencyStats {
            events_processed: 0,
            total_latency_ns: 0,
            min_latency_ns: u64::MAX,
            max_latency_ns: 0,
            sub_millisecond_events: 0,
            ultra_fast_events: 0,
            lightning_fast_events: 0,
            queue_overflows: 0,
            prefetch_hits: 0,
        }
    }
}

/// Calls `Vec::capacity`: the room the allocator gave the buffer, which is never below
/// its length; nothing more is claimed of it.
#[verifier::external_body]
fn buffer_capacity(v: &Vec<u8>) -> (r: usize)
    ensures
        r >= v@.len(),
{
    v.capacity()
}

/// Largest buffer room (1 MiB) that goes back into the pool.
pub const MAX_POOLED_CAPACITY: usize = 1048576;

/// Room of a fresh buffer for an event kind never seen.
pub const DEFAULT_SIZE_HINT: usize = 1024;

/// Serializes into pooled buffers, remembering the last encoded size of each event kind
/// to size fresh buffers.
pub struct ZeroAllocSerializer {
    buffer_pool: ArrayQueue<Vec<u8>>,
    size_hints: StringMap<usize>,
}

impl ZeroAllocSerializer {
    /// The pooled buffers, oldest first.
    pub closed spec fn pooled(&self) -> Seq<Vec<u8>> {
        buffer_queue_items(self.buffer_pool)
    }

    /// How many buffers the pool holds at most.
    pub closed spec fn pool_capacity(&self) -> nat {
        buffer_queue_capacity(self.buffer_pool)
    }

    /// Last encoded size by event kind.
    pub closed spec fn hints(&self) -> Map<Seq<char>, usize> {
        self.size_hints.view_map()
    }

    /// The size hints are consistent.
    pub closed spec fn well_formed(&self) -> bool {
        self.size_hints.well_formed()
    }

    /// A pool of `pool_size` empty buffers, each with room for `buffer_size` bytes.
    pub fn new(pool_size: usize, buffer_size: usize) -> (r: Self)
        requires
            0 < pool_size <= isize::MAX,
        ensures
            r.well_formed(),
            r.pool_capacity() == pool_size,
            r.pooled().len() == pool_size,
            forall|i: int| 0 <= i < pool_size ==> (#[trigger] r.pooled()[i])@ == Seq::<u8>::empty(),
            r.hints() == Map::<Seq<char>, usize>::empty(),
    {
        let mut pool = new_buffer_queue(pool_size);
        let mut i: usize = 0;
        while i < pool_size
            invariant
                i <= pool_size,
                buffer_queue_capacity(pool) == pool_size,
                buffer_queue_items(pool).len() == i,
                forall|j: int| 0 <= j < i ==> (#[trigger] buffer_queue_items(pool)[j])@ == Seq::<u8>::empty(),
            decreases pool_size - i,
        {
            let buffer: Vec<u8> = Vec::with_capacity(buffer_size);
            let _ = push_buffer(&mut pool, buffer);
            i = i + 1;
        }
        ZeroAllocSerializer { buffer_pool: pool, size_hints: StringMap::new() }
    }

    /// A buffer holding `serialized` (the event's bincode bytes): the oldest pooled
    /// buffer, refilled, or a fresh one sized by the kind's hint (1024 bytes when none);
    /// the kind's hint becomes the length.
    pub fn serialize_zero_alloc(&mut self, serialized: &[u8], event_type: &str) -> (r: Result<Vec<u8>, String>)
        requires
            old(self).well_formed(),
        ensures
            final(self).well_formed(),
            r matches Ok(v) && v@ == serialized@,
            final(self).pool_capacity() == old(self).pool_capacity(),
            final(self).pooled() == if old(self).pooled().len() > 0 {
                old(self).pooled().skip(1)
            } else {
                old(self).pooled()
            },
            final(self).hints() == old(self).hints().insert(event_type@, serialized@.len() as usize),
    {
        let mut buffer = match pop_buffer(&mut self.buffer_pool) {
            Some(b) => b,
            None => {
                let hint = match self.size_hints.get(event_type) {
                    Some(h) => h,
                    None => DEFAULT_SIZE_HINT,
                };
                Vec::with_capacity(hint)
            },
        };
        buffer.clear();
        buffer.extend_from_slice(serialized);
        assert(buffer@ =~= serialized@);
        self.size_hints.insert(event_type.to_owned(), buffer.len());
        Ok(buffer)
    }

    /// Puts a buffer back in the pool unless its room exceeds 1 MiB or the pool is full.
    pub fn return_buffer(&mut self, buffer: Vec<u8>)
        requires
            old(self).well_formed(),
        ensures
            final(self).well_formed(),
            final(self).pool_capacity() == old(self).pool_capacity(),
            final(self).hints() == old(self).hints(),
            final(self).pooled() == old(self).pooled() || (old(self).pooled().len() < old(self).pool_capacity()
                && final(self).pooled() == old(self).pooled().push(buffer)),
            buffer@.len() > MAX_POOLED_CAPACITY ==> final(self).pooled() == old(self).pooled(),
            old(self).pooled().len() >= old(self).pool_capacity() ==> final(self).pooled() == old(self).pooled(),
    {
        if buffer_capacity(&buffer) <= MAX_POOLED_CAPACITY {
            let _ = push_buffer(&mut self.buffer_pool, buffer);
        }
    }

    /// Pooled buffers and pool capacity.
    pub fn get_pool_stats(&self) -> (r: (usize, usize))
        ensures
            r.0 == self.pooled().len(),
            r.1 == self.pool_capacity(),
            r.0 <= r.1,
    {
        (buffer_queue_len(&self.buffer_pool), buffer_queue_cap(&self.buffer_pool))
    }
}

} // verus!
