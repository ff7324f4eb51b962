//! Protocol-stack shortcuts: optimisation switches and counters, an inline wire
//! frame for events, a cache of encoded events and a route table keyed by endpoint.

use vstd::prelude::*;
use vstd::utf8::encode_utf8;
use vstd::wrapping::u64_specs::wrapping_add;

use crate::hardware::SIMDMemoryOps;
use crate::token_accounts::{le_bytes, push_le_prefix};

verus! {

/// Switches of the protocol optimiser.
#[derive(Clone, Copy, Debug)]
pub struct ProtocolOptimizationConfig {
    /// Send on the fast path.
    pub enable_quic_fast_path: bool,
    /// Count the integrity checks that the fast path leaves out.
    pub skip_integrity_checks: bool,
    /// Leave out error recovery.
    pub skip_error_recovery: bool,
    /// Write buffers without the bounds-limited fallback.
    pub enable_unchecked_buffers: bool,
    /// Encode events with the inline frame.
    pub enable_inline_serialization: bool,
    /// Process events in batches.
    pub enable_batch_processing: bool,
    /// Largest batch.
    pub max_batch_size: usize,
    /// Preallocate buffers.
    pub enable_preallocation: bool,
    /// Allow the raw send path.
    pub enable_raw_pointer_ops: bool,
}

/// The default switches.
pub open spec fn default_protocol_config() -> ProtocolOptimizationConfig {
    ProtocolOptimizationConfig {
        enable_quic_fast_path: true,
        skip_integrity_checks: true,
        skip_error_recovery: false,
        enable_unchecked_buffers: true,
        enable_inline_serialization: true,
        enable_batch_processing: true,
        max_batch_size: 1000,
        enable_preallocation: true,
        enable_raw_pointer_ops: true,
    }
}

/// The most aggressive switches.
pub open spec fn extreme_protocol_config() -> ProtocolOptimizationConfig {
    ProtocolOptimizationConfig {
        skip_error_recovery: true,
        max_batch_size: 10000,
        ..default_protocol_config()
    }
}

impl Default for ProtocolOptimizationConfig {
    fn default() -> (r: Self)
        ensures
            r == default_protocol_config(),
    {
        ProtocolOptimizationConfig {
            enable_quic_fast_path: true,
            skip_integrity_checks: true,
            skip_error_recovery: false,
            enable_unchecked_buffers: true,
            enable_inline_serialization: true,
            enable_batch_processing: true,
            max_batch_size: 1000,
            enable_preallocation: true,
            enable_raw_pointer_ops: true,
        }
    }
}

/// Counters of the protocol optimiser; each wraps at 2^64.
#[derive(Clone, Copy, Debug)]
pub struct ProtocolOptimizationStats {
    /// Sends and encodings served by the fast path.
    pub fast_path_hits: u64,
    /// Sends that took the standard path.
    pub slow_path_hits: u64,
    /// Checks left out.
    pub checks_skipped: u64,
    /// Batches processed.
    pub batch_operations: u64,
    /// Unchecked encodings and buffer writes.
    pub unchecked_operations: u64,
    /// Inline encodings.
    pub inline_operations: u64,
}

/// All counters at zero.
pub open spec fn zero_protocol_stats() -> ProtocolOptimizationStats {
    ProtocolOptimizationStats {
        fast_path_hits: 0,
        slow_path_hits: 0,
        checks_skipped: 0,
        batch_operations: 0,
        unchecked_operations: 0,
        inline_operations: 0,
    }
}

impl Default for ProtocolOptimizationStats {
    fn default() -> (r: Self)
        ensures
            r == zero_protocol_stats(),
    {
        ProtocolOptimizationStats {
            fast_path_hits: 0,
            slow_path_hits: 0,
            checks_skipped: 0,
            batch_operations: 0,
            unchecked_operations: 0,
            inline_operations: 0,
        }
    }
}

/// A copy of the counters at one moment.
#[derive(Clone, Copy, Debug)]
pub struct ProtocolOptimizationStatsSnapshot {
    pub fast_path_hits: u64,
    pub slow_path_hits: u64,
    pub checks_skipped: u64,
    pub batch_operations: u64,
    pub unchecked_operations: u64,
    pub inline_operations: u64,
}

/// A precalculated route.
pub struct RouteInfo {
    /// Endpoint address.
    pub endpoint: String,
    /// Connection that serves it.
    pub connection_id: u64,
    /// Last use (0: never).
    pub last_used: u64,
}

/// Encoding requested for an event.
#[derive(Clone, Copy, Debug, PartialEq, Eq, Structural)]
pub enum SerializationProtocol {
    Bincode,
    JSON,
    /// JSON for payloads under 1024 bytes, Bincode otherwise.
    Auto,
}

/// Encoding that the caller is asked to produce for an event.
#[derive(Clone, Copy, Debug, PartialEq, Eq, Structural)]
pub enum WireFormat {
    Bincode,
    Json,
}

/// Kind of a streamed event; other kinds are known by their name.
#[derive(Clone, Debug)]
pub enum EventType {
    BlockMeta,
    PumpFunBuy,
    Other(String),
}

/// Name of an event kind, as it appears in cache keys.
pub open spec fn event_type_name(t: EventType) -> Seq<char> {
    match t {
        EventType::BlockMeta => "BlockMeta"@,
        EventType::PumpFunBuy => "PumpFunBuy"@,
        EventType::Other(name) => name@,
    }
}

/// Byte that stands for an event kind in the inline frame.
pub open spec fn event_type_byte(t: EventType) -> u8 {
    match t {
        EventType::BlockMeta => 0,
        EventType::PumpFunBuy => 1,
        EventType::Other(_) => 255,
    }
}

impl EventType {
    /// Name of the kind.
    pub fn name(&self) -> (r: &str)
        ensures
            r@ == event_type_name(*self),
    {
        match self {
            EventType::BlockMeta => "BlockMeta",
            EventType::PumpFunBuy => "PumpFunBuy",
            EventType::Other(name) => name.as_str(),
        }
    }

    /// Frame byte of the kind.
    pub fn frame_byte(&self) -> (r: u8)
        ensures
            r == event_type_byte(*self),
    {
        match self {
            EventType::BlockMeta => 0,
            EventType::PumpFunBuy => 1,
            EventType::Other(_) => 255,
        }
    }
}

/// A streamed event, as far as the optimiser reads it.
#[derive(Clone, Debug)]
pub struct EventMessage {
    pub event_id: String,
    pub event_type: EventType,
    pub data: Vec<u8>,
    pub serialization_format: SerializationProtocol,
    pub timestamp: u64,
}

/// Two events with the same fields and the same payload bytes.
pub open spec fn same_event(a: EventMessage, b: EventMessage) -> bool {
    &&& a.event_id@ == b.event_id@
    &&& a.event_type == b.event_type
    &&& a.data@ == b.data@
    &&& a.serialization_format == b.serialization_format
    &&& a.timestamp == b.timestamp
}

impl EventMessage {
    /// A copy of the event.
    pub fn duplicate(&self) -> (r: EventMessage)
        ensures
            same_event(r, *self),
    {
        let event_type = match &self.event_type {
            EventType::BlockMeta => EventType::BlockMeta,
            EventType::PumpFunBuy => EventType::PumpFunBuy,
            EventType::Other(name) => EventType::Other(name.clone()),
        };
        let mut data: Vec<u8> = Vec::new();
        let mut i: usize = 0;
        while i < self.data.len()
            invariant
                i <= self.data@.len(),
                data@ == self.data@.take(i as int),
            decreases self.data@.len() - i,
        {
            data.push(self.data[i]);
            i = i + 1;
            assert(data@ =~= self.data@.take(i as int));
        }
        assert(self.data@.take(i as int) =~= self.data@);
        EventMessage {
            event_id: self.event_id.clone(),
            event_type,
            data,
            serialization_format: self.serialization_format,
            timestamp: self.timestamp,
        }
    }
}

/// The encoding the caller must hand to the non-inline path for `e`.
pub open spec fn spec_wire_format(format: SerializationProtocol, data_len: nat) -> WireFormat {
    match format {
        SerializationProtocol::Bincode => WireFormat::Bincode,
        SerializationProtocol::JSON => WireFormat::Json,
        SerializationProtocol::Auto => if data_len < 1024 {
            WireFormat::Json
        } else {
            WireFormat::Bincode
        },
    }
}

/// Which encoding the non-inline path copies for `event`.
pub fn wire_format(event: &EventMessage) -> (r: WireFormat)
    ensures
        r == spec_wire_format(event.serialization_format, event.data@.len()),
{
    match event.serialization_format {
        SerializationProtocol::Bincode => WireFormat::Bincode,
        SerializationProtocol::JSON => WireFormat::Json,
        SerializationProtocol::Auto => if event.data.len() < 1024 {
            WireFormat::Json
        } else {
            WireFormat::Bincode
        },
    }
}

/// The low four little-endian bytes of `n`.
pub open spec fn le32(n: nat) -> Seq<u8> {
    le_bytes((n as u32) as u64).subrange(0, 4)
}

/// The inline frame of an event: id length (4 bytes, little-endian, modulo 2^32), id
/// bytes (UTF-8), kind byte, payload length (4 bytes), payload, timestamp (8 bytes).
pub open spec fn inline_frame(e: EventMessage) -> Seq<u8> {
    let id = encode_utf8(e.event_id@);
    le32(id.len()) + id + seq![event_type_byte(e.event_type)] + le32(e.data@.len()) + e.data@
        + le_bytes(e.timestamp)
}

/// Cache key of an event: its id, an underscore and its kind's name.
pub open spec fn cache_key(e: EventMessage) -> Seq<char> {
    e.event_id@ + "_"@ + event_type_name(e.event_type)
}

/// Largest encoding (exclusive) that is cached.
pub const CACHE_LIMIT: usize = 4096;

/// Error of a buffer shorter than the encoding.
pub open spec fn buffer_too_small() -> Seq<char> {
    "Buffer too small"@
}

/// Error of a batch whose events and buffers differ in number.
pub open spec fn batch_mismatch() -> Seq<char> {
    "Events and buffers length mismatch"@
}

/// What the optimiser holds, as values.
pub struct ProtocolView {
    pub config: ProtocolOptimizationConfig,
    pub stats: ProtocolOptimizationStats,
    /// Cached encodings by key.
    pub frames: Map<Seq<char>, Seq<u8>>,
    /// Connection of each precalculated endpoint.
    pub routes: Map<Seq<char>, u64>,
}

/// `buf` with its first `bytes.len()` bytes replaced by `bytes`.
pub open spec fn overwrite_prefix(buf: Seq<u8>, bytes: Seq<u8>) -> Seq<u8> {
    bytes + buf.subrange(bytes.len() as int, buf.len() as int)
}

/// One encoding: the new state, the new buffer, and the length written or `None` for
/// "Buffer too small". The unchecked counter counts every call.
pub open spec fn serialize_outcome(v: ProtocolView, e: EventMessage, buf: Seq<u8>, encoded: Seq<u8>) -> (
    ProtocolView,
    Seq<u8>,
    Option<nat>,
) {
    let stats = ProtocolOptimizationStats {
        unchecked_operations: wrapping_add(v.stats.unchecked_operations, 1),
        ..v.stats
    };
    if v.config.enable_inline_serialization {
        let stats = ProtocolOptimizationStats {
            inline_operations: wrapping_add(stats.inline_operations, 1),
            ..stats
        };
        let frame = inline_frame(e);
        if frame.len() <= buf.len() {
            let stats = if v.config.skip_integrity_checks {
                ProtocolOptimizationStats {
                    checks_skipped: wrapping_add(stats.checks_skipped, 5),
                    ..stats
                }
            } else {
                stats
            };
            (ProtocolView { stats, ..v }, overwrite_prefix(buf, frame), Some(frame.len()))
        } else {
            (ProtocolView { stats, ..v }, buf, None)
        }
    } else {
        let key = cache_key(e);
        if v.frames.dom().contains(key) && v.frames[key].len() <= buf.len() {
            let stats = ProtocolOptimizationStats {
                fast_path_hits: wrapping_add(stats.fast_path_hits, 1),
                ..stats
            };
            (ProtocolView { stats, ..v }, overwrite_prefix(buf, v.frames[key]), Some(v.frames[key].len()))
        } else if encoded.len() <= buf.len() {
            let frames = if encoded.len() < CACHE_LIMIT {
                v.frames.insert(key, encoded)
            } else {
                v.frames
            };
            (ProtocolView { stats, frames, ..v }, overwrite_prefix(buf, encoded), Some(encoded.len()))
        } else {
            (ProtocolView { stats, ..v }, buf, None)
        }
    }
}

/// The first `n` steps of a batch: state, buffers, and the sizes so far or `None` once
/// a step has failed (later steps are not taken).
pub open spec fn batch_prefix(
    v: ProtocolView,
    events: Seq<EventMessage>,
    bufs: Seq<Seq<u8>>,
    encoded: Seq<Seq<u8>>,
    n: nat,
) -> (ProtocolView, Seq<Seq<u8>>, Option<Seq<nat>>)
    decreases n,
{
    if n == 0 {
        (v, bufs, Some(Seq::empty()))
    } else {
        let (v1, b1, sizes) = batch_prefix(v, events, bufs, encoded, (n - 1) as nat);
        match sizes {
            None => (v1, b1, None),
            Some(sizes) => {
                let (v2, buf2, r) = serialize_outcome(
                    v1,
                    events[n - 1],
                    b1[n - 1],
                    encoded[n - 1],
                );
                let b2 = b1.update(n - 1, buf2);
                match r {
                    None => (v2, b2, None),
                    Some(size) => (v2, b2, Some(sizes.push(size))),
                }
            },
        }
    }
}

/// Connection ids for endpoints inserted in order: a later duplicate overwrites.
pub open spec fn route_updates(endpoints: Seq<Seq<char>>) -> Map<Seq<char>, u64>
    decreases endpoints.len(),
{
    if endpoints.len() == 0 {
        Map::empty()
    } else {
        route_updates(endpoints.drop_last()).insert(
            endpoints.last(),
            (endpoints.len() - 1) as u64,
        )
    }
}

/// Law: after routes are precalculated for a list of endpoints, an endpoint's
/// connection id is the position of its last occurrence in the list.
pub proof fn law_route_of_last_occurrence(endpoints: Seq<Seq<char>>, k: int)
    requires
        0 <= k < endpoints.len() <= u64::MAX,
        forall|j: int| k < j < endpoints.len() ==> endpoints[j] != endpoints[k],
    ensures
        route_updates(endpoints).dom().contains(endpoints[k]),
        route_updates(endpoints)[endpoints[k]] == k as u64,
    decreases endpoints.len(),
{
    if k == endpoints.len() - 1 {
    } else {
        let rest = endpoints.drop_last();
        assert forall|j: int| k < j < rest.len() implies rest[j] != rest[k] by {
            assert(rest[j] == endpoints[j]);
        }
        law_route_of_last_occurrence(rest, k);
        assert(endpoints.last() != endpoints[k]);
    }
}

/// Protocol-stack optimiser: switches, counters, cached encodings and routes.
pub struct ProtocolStackOptimizer {
    config: ProtocolOptimizationConfig,
    stats: ProtocolOptimizationStats,
    serialization_cache: Vec<(String, Vec<u8>)>,
    routing_cache: Vec<RouteInfo>,
}

impl View for ProtocolStackOptimizer {
    type V = ProtocolView;

    closed spec fn view(&self) -> ProtocolView {
        ProtocolView {
            config: self.config,
            stats: self.stats,
            frames: Map::new(
                |k: Seq<char>| exists|i: int| 0 <= i < self.serialization_cache@.len() && self.serialization_cache@[i].0@ == k,
                |k: Seq<char>|
                    self.serialization_cache@[choose|i: int|
                        0 <= i < self.serialization_cache@.len() && self.serialization_cache@[i].0@ == k].1@,
            ),
            routes: Map::new(
                |k: Seq<char>| exists|i: int| 0 <= i < self.routing_cache@.len() && self.routing_cache@[i].endpoint@ == k,
                |k: Seq<char>|
                    self.routing_cache@[choose|i: int|
                        0 <= i < self.routing_cache@.len() && self.routing_cache@[i].endpoint@ == k].connection_id,
            ),
        }
    }
}

/// Appends `src` to `out`.
fn append_bytes(out: &mut Vec<u8>, src: &[u8])
    ensures
        final(out)@ == old(out)@ + src@,
{
    let ghost start = out@;
    let mut i: usize = 0;
    while i < src.len()
        invariant
            i <= src@.len(),
            out@ == start + src@.subrange(0, i as int),
        decreases src@.len() - i,
    {
        out.push(src[i]);
        i = i + 1;
        assert(out@ =~= start + src@.subrange(0, i as int));
    }
    assert(src@.subrange(0, src@.len() as int) =~= src@);
}

/// Builds the inline frame of `event`.
fn build_inline_frame(event: &EventMessage) -> (r: Vec<u8>)
    ensures
        r@ == inline_frame(*event),
{
    let id_bytes = event.event_id.as_str().as_bytes();
    let mut frame: Vec<u8> = Vec::new();
    push_le_prefix(&mut frame, (id_bytes.len() as u32) as u64, 4);
    append_bytes(&mut frame, id_bytes);
    frame.push(event.event_type.frame_byte());
    push_le_prefix(&mut frame, (event.data.len() as u32) as u64, 4);
    append_bytes(&mut frame, event.data.as_slice());
    push_le_prefix(&mut frame, event.timestamp, 8);
    assert(le_bytes(event.timestamp).subrange(0, 8) =~= le_bytes(event.timestamp));
    assert(frame@ =~= inline_frame(*event));
    frame
}

impl ProtocolStackOptimizer {
    /// Keys of the encoding cache are distinct, and so are the routes' endpoints.
    pub closed spec fn well_formed(&self) -> bool {
        &&& forall|i: int, j: int|
            0 <= i < j < self.serialization_cache@.len() ==> self.serialization_cache@[i].0@
                != self.serialization_cache@[j].0@
        &&& forall|i: int, j: int|
            0 <= i < j < self.routing_cache@.len() ==> self.routing_cache@[i].endpoint@
                != self.routing_cache@[j].endpoint@
    }

    /// Creates an optimiser with zero counters and empty caches.
    pub fn new(config: ProtocolOptimizationConfig) -> (r: Result<Self, String>)
        ensures
            r matches Ok(o) && o.well_formed() && o@ == (ProtocolView {
                config,
                stats: zero_protocol_stats(),
                frames: Map::empty(),
                routes: Map::empty(),
            }),
    {
        let o = ProtocolStackOptimizer {
            config,
            stats: ProtocolOptimizationStats::default(),
            serialization_cache: Vec::new(),
            routing_cache: Vec::new(),
        };
        assert(o@.frames =~= Map::empty());
        assert(o@.routes =~= Map::empty());
        Ok(o)
    }

    /// Position of `key` in the encoding cache.
    fn find_frame(&self, key: &String) -> (r: Option<usize>)
        ensures
            r matches Some(i) ==> i < self.serialization_cache@.len() && self.serialization_cache@[i as int].0@
                == key@,
            r is None ==> forall|i: int|
                0 <= i < self.serialization_cache@.len() ==> self.serialization_cache@[i].0@ != key@,
    {
        let mut i: usize = 0;
        while i < self.serialization_cache.len()
            invariant
                i <= self.serialization_cache@.len(),
                forall|j: int| 0 <= j < i ==> self.serialization_cache@[j].0@ != key@,
            decreases self.serialization_cache@.len() - i,
        {
            if self.serialization_cache[i].0 == *key {
                return Some(i);
            }
            i = i + 1;
        }
        None
    }

    /// Position of `endpoint` in the route table.
    fn find_route(&self, endpoint: &String) -> (r: Option<usize>)
        ensures
            r matches Some(i) ==> i < self.routing_cache@.len() && self.routing_cache@[i as int].endpoint@
                == endpoint@,
            r is None ==> forall|i: int|
                0 <= i < self.routing_cache@.len() ==> self.routing_cache@[i].endpoint@ != endpoint@,
    {
        let mut i: usize = 0;
        while i < self.routing_cache.len()
            invariant
                i <= self.routing_cache@.len(),
                forall|j: int| 0 <= j < i ==> self.routing_cache@[j].endpoint@ != endpoint@,
            decreases self.routing_cache@.len() - i,
        {
            if self.routing_cache[i].endpoint == *endpoint {
                return Some(i);
            }
            i = i + 1;
        }
        None
    }

    /// Copy of `v` (byte vectors are cloned element by element).
    fn copy_bytes(v: &Vec<u8>) -> (r: Vec<u8>)
        ensures
            r@ == v@,
    {
        let mut out: Vec<u8> = Vec::new();
        append_bytes(&mut out, v.as_slice());
        out
    }

    /// Encodes `event` into the front of `buffer` and returns the length written.
    /// With inline serialization on, the inline frame is written. Otherwise a cached
    /// encoding under the event's key is copied when it fits, else `encoded` (the
    /// event's encoding in [`wire_format`]) is copied and, when shorter than 4096
    /// bytes, cached. A buffer too short for what is to be copied gives
    /// "Buffer too small" and stays as it was.
    pub fn serialize_event_unchecked(
        &mut self,
        event: &EventMessage,
        buffer: &mut [u8],
        encoded: &[u8],
    ) -> (r: Result<usize, String>)
        requires
            old(self).well_formed(),
        ensures
            final(self).well_formed(),
            ({
                let (v, buf, size) = serialize_outcome(old(self)@, *event, old(buffer)@, encoded@);
                &&& final(self)@ == v
                &&& final(buffer)@ == buf
                &&& match size {
                    Some(n) => r matches Ok(k) && k == n,
                    None => r matches Err(e) && e@ == buffer_too_small(),
                }
            }),
    {
        self.stats.unchecked_operations = self.stats.unchecked_operations.wrapping_add(1);
        if self.config.enable_inline_serialization {
            self.stats.inline_operations = self.stats.inline_operations.wrapping_add(1);
            let frame = build_inline_frame(event);
            if frame.len() > buffer.len() {
                return Err("Buffer too small".to_owned());
            }
            SIMDMemoryOps::memcpy_simd_optimized(buffer, frame.as_slice(), frame.len());
            if self.config.skip_integrity_checks {
                self.stats.checks_skipped = self.stats.checks_skipped.wrapping_add(5);
            }
            return Ok(frame.len());
        }
        let mut key = event.event_id.clone();
        key.append("_");
        key.append(event.event_type.name());
        proof {
            assert(key@ == cache_key(*event));
        }
        let ghost v0 = self@;
        match self.find_frame(&key) {
            Some(i) => {
                proof {
                    assert(v0.frames.dom().contains(key@));
                    assert(v0.frames[key@] == self.serialization_cache@[i as int].1@);
                }
                let cached_len = self.serialization_cache[i].1.len();
                if cached_len <= buffer.len() {
                    SIMDMemoryOps::memcpy_simd_optimized(
                        buffer,
                        self.serialization_cache[i].1.as_slice(),
                        cached_len,
                    );
                    self.stats.fast_path_hits = self.stats.fast_path_hits.wrapping_add(1);
                    return Ok(cached_len);
                }
            },
            None => {
                proof {
                    assert(!v0.frames.dom().contains(key@));
                }
            },
        }
        if encoded.len() > buffer.len() {
            return Err("Buffer too small".to_owned());
        }
        SIMDMemoryOps::memcpy_simd_optimized(buffer, encoded, encoded.len());
        if encoded.len() < CACHE_LIMIT {
            let mut stored: Vec<u8> = Vec::new();
            append_bytes(&mut stored, encoded);
            self.store_frame(key, stored);
        }
        Ok(encoded.len())
    }

    /// Inserts or replaces the cached encoding under `key`.
    fn store_frame(&mut self, key: String, bytes: Vec<u8>)
        requires
            old(self).well_formed(),
        ensures
            final(self).well_formed(),
            final(self)@ == (ProtocolView { frames: old(self)@.frames.insert(key@, bytes@), ..old(self)@ }),
    {
        let ghost k = key@;
        let ghost b = bytes@;
        let ghost old_v = self@;
        match self.find_frame(&key) {
            Some(i) => {
                self.serialization_cache.set(i, (key, bytes));
                proof {
                    assert forall|j: int| 0 <= j < self.serialization_cache@.len() && j != i implies
                        self.serialization_cache@[j].0@ != k by {
                        if j < i {
                        } else {
                        }
                    }
                    assert forall|kk: Seq<char>| #[trigger] self@.frames.dom().contains(kk) <==> old_v.frames.insert(k, b).dom().contains(kk) by {
                        if kk != k && old_v.frames.dom().contains(kk) {
                            let j = choose|j: int| 0 <= j < old(self).serialization_cache@.len() && old(self).serialization_cache@[j].0@ == kk;
                            assert(self.serialization_cache@[j].0@ == kk);
                        }
                        if kk == k {
                            assert(self.serialization_cache@[i as int].0@ == kk);
                        }
                    }
                    assert forall|kk: Seq<char>| self@.frames.dom().contains(kk) implies self@.frames[kk] == old_v.frames.insert(k, b)[kk] by {
                        let j = choose|j: int| 0 <= j < self.serialization_cache@.len() && self.serialization_cache@[j].0@ == kk;
                        if kk == k {
                            assert(j == i);
                        } else {
                            let j0 = choose|j0: int| 0 <= j0 < old(self).serialization_cache@.len() && old(self).serialization_cache@[j0].0@ == kk;
                            assert(j0 != i);
                            assert(self.serialization_cache@[j0].0@ == kk);
                            assert(j == j0);
                        }
                    }
                    assert(self@.frames =~= old_v.frames.insert(k, b));
                }
            },
            None => {
                self.serialization_cache.push((key, bytes));
                proof {
                    let n = old(self).serialization_cache@.len() as int;
                    assert forall|kk: Seq<char>| #[trigger] self@.frames.dom().contains(kk) <==> old_v.frames.insert(k, b).dom().contains(kk) by {
                        if kk != k && old_v.frames.dom().contains(kk) {
                            let j = choose|j: int| 0 <= j < old(self).serialization_cache@.len() && old(self).serialization_cache@[j].0@ == kk;
                            assert(self.serialization_cache@[j].0@ == kk);
                        }
                        if kk == k {
                            assert(self.serialization_cache@[n].0@ == kk);
                        }
                    }
                    assert forall|kk: Seq<char>| self@.frames.dom().contains(kk) implies self@.frames[kk] == old_v.frames.insert(k, b)[kk] by {
                        let j = choose|j: int| 0 <= j < self.serialization_cache@.len() && self.serialization_cache@[j].0@ == kk;
                        if kk == k {
                            assert(j == n);
                        } else {
                            let j0 = choose|j0: int| 0 <= j0 < old(self).serialization_cache@.len() && old(self).serialization_cache@[j0].0@ == kk;
                            assert(self.serialization_cache@[j0].0@ == kk);
                            assert(j == j0);
                        }
                    }
                    assert(self@.frames =~= old_v.frames.insert(k, b));
                }
            },
        }
    }

    /// Encodes each event into its buffer in order, after counting one batch. Events
    /// and buffers must agree in number ("Events and buffers length mismatch"
    /// otherwise, with nothing changed); the first encoding that fails ends the batch
    /// with its error, the effects of the earlier ones kept.
    pub fn process_events_batch(
        &mut self,
        events: &[EventMessage],
        buffers: &mut Vec<Vec<u8>>,
        encoded: &[Vec<u8>],
    ) -> (r: Result<Vec<usize>, String>)
        requires
            old(self).well_formed(),
            encoded@.len() == events@.len(),
        ensures
            final(self).well_formed(),
            events@.len() != old(buffers)@.len() ==> (r matches Err(e) && e@ == batch_mismatch())
                && final(self)@ == old(self)@ && final(buffers)@ == old(buffers)@,
            events@.len() == old(buffers)@.len() ==> ({
                let start = ProtocolView {
                    stats: ProtocolOptimizationStats {
                        batch_operations: wrapping_add(old(self)@.stats.batch_operations, 1),
                        ..old(self)@.stats
                    },
                    ..old(self)@
                };
                let (v, bufs, sizes) = batch_prefix(
                    start,
                    events@,
                    old(buffers)@.map_values(|b: Vec<u8>| b@),
                    encoded@.map_values(|b: Vec<u8>| b@),
                    events@.len(),
                );
                &&& final(self)@ == v
                &&& final(buffers)@.map_values(|b: Vec<u8>| b@) == bufs
                &&& match sizes {
                    Some(s) => r matches Ok(out) && out@.len() == s.len() && forall|j: int|
                        0 <= j < s.len() ==> out@[j] == s[j],
                    None => r matches Err(e) && e@ == buffer_too_small(),
                }
            }),
    {
        if events.len() != buffers.len() {
            return Err("Events and buffers length mismatch".to_owned());
        }
        self.stats.batch_operations = self.stats.batch_operations.wrapping_add(1);
        let ghost start = self@;
        let ghost bufs0 = buffers@.map_values(|b: Vec<u8>| b@);
        let ghost encs = encoded@.map_values(|b: Vec<u8>| b@);
        let mut sizes: Vec<usize> = Vec::new();
        let mut i: usize = 0;
        while i < events.len()
            invariant
                self.well_formed(),
                i <= events@.len(),
                events@.len() == buffers@.len(),
                encoded@.len() == events@.len(),
                encs == encoded@.map_values(|b: Vec<u8>| b@),
                events@.len() == old(buffers)@.len(),
                bufs0 == old(buffers)@.map_values(|b: Vec<u8>| b@),
                start == (ProtocolView {
                    stats: ProtocolOptimizationStats {
                        batch_operations: wrapping_add(old(self)@.stats.batch_operations, 1),
                        ..old(self)@.stats
                    },
                    ..old(self)@
                }),
                ({
                    let (v, bufs, s) = batch_prefix(start, events@, bufs0, encs, i as nat);
                    &&& self@ == v
                    &&& buffers@.map_values(|b: Vec<u8>| b@) == bufs
                    &&& s matches Some(s) && sizes@.len() == s.len() && forall|j: int|
                        0 <= j < s.len() ==> sizes@[j] == s[j]
                }),
            decreases events@.len() - i,
        {
            let mut buf = Self::copy_bytes(&buffers[i]);
            let ghost before = self@;
            let ghost bufs_before = buffers@.map_values(|b: Vec<u8>| b@);
            let ghost sizes_before = sizes@;
            let ghost buf_in = buf@;
            let res = self.serialize_event_unchecked(&events[i], buf.as_mut_slice(), encoded[i].as_slice());
            buffers.set(i, buf);
            proof {
                assert(buffers@.map_values(|b: Vec<u8>| b@) =~= bufs_before.update(i as int, buf@));
                assert(buf_in == bufs_before[i as int]);
                assert(encs[i as int] == encoded@[i as int]@);
                let (v1, b1, s1) = batch_prefix(start, events@, bufs0, encs, i as nat);
                assert(v1 == before);
                assert(b1 == bufs_before);
                assert(events@[i as int] == events[i as int]);
            }
            match res {
                Ok(n) => {
                    sizes.push(n);
                    proof {
                        let (v2, b2, s2) = batch_prefix(start, events@, bufs0, encs, (i + 1) as nat);
                        assert(s2 matches Some(s) && s.len() == sizes@.len());
                        assert(sizes@ =~= sizes_before.push(n));
                    }
                },
                Err(e) => {
                    proof {
                        assert(batch_prefix(start, events@, bufs0, encs, (i + 1) as nat).2 is None);
                        lemma_batch_stops(start, events@, bufs0, encs, (i + 1) as nat, events@.len() as nat);
                    }
                    return Err(e);
                },
            }
            i = i + 1;
        }
        Ok(sizes)
    }

    /// Counts a send: on the fast path (one fast hit, and one skipped check when
    /// checks are skipped) or else on the standard path (one slow hit).
    pub fn quic_fast_path_send(&mut self, data: &[u8], connection_id: u64) -> (r: Result<(), String>)
        requires
            old(self).well_formed(),
        ensures
            final(self).well_formed(),
            r is Ok,
            old(self)@.config.enable_quic_fast_path ==> final(self)@ == (ProtocolView {
                stats: ProtocolOptimizationStats {
                    fast_path_hits: wrapping_add(old(self)@.stats.fast_path_hits, 1),
                    checks_skipped: if old(self)@.config.skip_integrity_checks {
                        wrapping_add(old(self)@.stats.checks_skipped, 1)
                    } else {
                        old(self)@.stats.checks_skipped
                    },
                    ..old(self)@.stats
                },
                ..old(self)@
            }),
            !old(self)@.config.enable_quic_fast_path ==> final(self)@ == (ProtocolView {
                stats: ProtocolOptimizationStats {
                    slow_path_hits: wrapping_add(old(self)@.stats.slow_path_hits, 1),
                    ..old(self)@.stats
                },
                ..old(self)@
            }),
    {
        if !self.config.enable_quic_fast_path {
            self.stats.slow_path_hits = self.stats.slow_path_hits.wrapping_add(1);
            return Ok(());
        }
        self.stats.fast_path_hits = self.stats.fast_path_hits.wrapping_add(1);
        if self.config.skip_integrity_checks {
            self.stats.checks_skipped = self.stats.checks_skipped.wrapping_add(1);
        }
        Ok(())
    }

    /// Copies `src` into `dst` from `offset` on and returns the number of bytes copied.
    /// With unchecked buffers on the whole of `src` is copied (and counted); otherwise
    /// only what fits before the end of `dst`.
    pub fn unchecked_buffer_write(&mut self, src: &[u8], dst: &mut [u8], offset: usize) -> (r: usize)
        requires
            old(self).well_formed(),
            offset <= old(dst)@.len(),
            old(self)@.config.enable_unchecked_buffers ==> offset + src@.len() <= old(dst)@.len(),
        ensures
            r == (if old(self)@.config.enable_unchecked_buffers {
                src@.len()
            } else if src@.len() <= old(dst)@.len() - offset {
                src@.len()
            } else {
                (old(dst)@.len() - offset) as nat
            }),
            final(dst)@ == old(dst)@.subrange(0, offset as int) + src@.subrange(0, r as int)
                + old(dst)@.subrange(offset + r, old(dst)@.len() as int),
            old(self)@.config.enable_unchecked_buffers ==> final(self)@ == (ProtocolView {
                stats: ProtocolOptimizationStats {
                    unchecked_operations: wrapping_add(old(self)@.stats.unchecked_operations, 1),
                    ..old(self)@.stats
                },
                ..old(self)@
            }),
            !old(self)@.config.enable_unchecked_buffers ==> final(self)@ == old(self)@,
            final(self).well_formed(),
    {
        let to_copy = if self.config.enable_unchecked_buffers {
            self.stats.unchecked_operations = self.stats.unchecked_operations.wrapping_add(1);
            src.len()
        } else {
            let available = dst.len() - offset;
            if src.len() <= available {
                src.len()
            } else {
                available
            }
        };
        let ghost d0 = dst@;
        let mut i: usize = 0;
        while i < to_copy
            invariant
                to_copy <= src@.len(),
                offset + to_copy <= dst.len(),
                dst@.len() == d0.len(),
                i <= to_copy,
                forall|j: int| 0 <= j < offset ==> dst@[j] == d0[j],
                forall|j: int| 0 <= j < i ==> dst@[offset + j] == src@[j],
                forall|j: int| offset + i <= j < dst@.len() ==> dst@[j] == d0[j],
            decreases to_copy - i,
        {
            dst[offset + i] = src[i];
            i = i + 1;
        }
        assert(dst@ =~= d0.subrange(0, offset as int) + src@.subrange(0, to_copy as int) + d0.subrange(
            offset + to_copy,
            d0.len() as int,
        ));
        to_copy
    }

    /// Records a route for each endpoint, its connection id being its position; a
    /// later duplicate overwrites an earlier one.
    pub fn precalculate_routes(&mut self, endpoints: &[String]) -> (r: Result<(), String>)
        requires
            old(self).well_formed(),
            endpoints@.len() <= u64::MAX,
        ensures
            r is Ok,
            final(self).well_formed(),
            final(self)@ == (ProtocolView {
                routes: old(self)@.routes.union_prefer_right(
                    route_updates(endpoints@.map_values(|e: String| e@)),
                ),
                ..old(self)@
            }),
    {
        let ghost eps = endpoints@.map_values(|e: String| e@);
        let ghost v0 = self@;
        let mut i: usize = 0;
        proof {
            assert(eps.take(0) =~= Seq::<Seq<char>>::empty());
            assert(v0.routes.union_prefer_right(route_updates(eps.take(0))) =~= v0.routes);
        }
        while i < endpoints.len()
            invariant
                self.well_formed(),
                i <= endpoints@.len() <= u64::MAX,
                eps == endpoints@.map_values(|e: String| e@),
                self@ == (ProtocolView {
                    routes: v0.routes.union_prefer_right(route_updates(eps.take(i as int))),
                    ..v0
                }),
            decreases endpoints@.len() - i,
        {
            let route = RouteInfo {
                endpoint: endpoints[i].clone(),
                connection_id: i as u64,
                last_used: 0,
            };
            let ghost before = self@;
            self.store_route(route);
            proof {
                assert(eps.take(i + 1).drop_last() =~= eps.take(i as int));
                assert(route_updates(eps.take(i + 1)) == route_updates(eps.take(i as int)).insert(
                    eps[i as int],
                    i as u64,
                ));
                assert(v0.routes.union_prefer_right(route_updates(eps.take(i + 1))) =~= before.routes.insert(
                    eps[i as int],
                    i as u64,
                ));
            }
            i = i + 1;
        }
        proof {
            assert(eps.take(endpoints@.len() as int) =~= eps);
        }
        Ok(())
    }

    /// Inserts or replaces the route of `route.endpoint`.
    fn store_route(&mut self, route: RouteInfo)
        requires
            old(self).well_formed(),
        ensures
            final(self).well_formed(),
            final(self)@ == (ProtocolView {
                routes: old(self)@.routes.insert(route.endpoint@, route.connection_id),
                ..old(self)@
            }),
    {
        let ghost k = route.endpoint@;
        let ghost c = route.connection_id;
        let ghost old_v = self@;
        match self.find_route(&route.endpoint) {
            Some(i) => {
                self.routing_cache.set(i, route);
                proof {
                    assert forall|kk: Seq<char>| #[trigger] self@.routes.dom().contains(kk) <==> old_v.routes.insert(k, c).dom().contains(kk) by {
                        if kk != k && old_v.routes.dom().contains(kk) {
                            let j = choose|j: int| 0 <= j < old(self).routing_cache@.len() && old(self).routing_cache@[j].endpoint@ == kk;
                            assert(self.routing_cache@[j].endpoint@ == kk);
                        }
                        if kk == k {
                            assert(self.routing_cache@[i as int].endpoint@ == kk);
                        }
                    }
                    assert forall|kk: Seq<char>| self@.routes.dom().contains(kk) implies self@.routes[kk] == old_v.routes.insert(k, c)[kk] by {
                        let j = choose|j: int| 0 <= j < self.routing_cache@.len() && self.routing_cache@[j].endpoint@ == kk;
                        if kk == k {
                            assert(j == i);
                        } else {
                            let j0 = choose|j0: int| 0 <= j0 < old(self).routing_cache@.len() && old(self).routing_cache@[j0].endpoint@ == kk;
                            assert(j0 != i);
                            assert(self.routing_cache@[j0].endpoint@ == kk);
                            assert(j == j0);
                        }
                    }
                    assert(self@.routes =~= old_v.routes.insert(k, c));
                }
            },
            None => {
                self.routing_cache.push(route);
                proof {
                    let n = old(self).routing_cache@.len() as int;
                    assert forall|kk: Seq<char>| #[trigger] self@.routes.dom().contains(kk) <==> old_v.routes.insert(k, c).dom().contains(kk) by {
                        if kk != k && old_v.routes.dom().contains(kk) {
                            let j = choose|j: int| 0 <= j < old(self).routing_cache@.len() && old(self).routing_cache@[j].endpoint@ == kk;
                            assert(self.routing_cache@[j].endpoint@ == kk);
                        }
                        if kk == k {
                            assert(self.routing_cache@[n].endpoint@ == kk);
                        }
                    }
                    assert forall|kk: Seq<char>| self@.routes.dom().contains(kk) implies self@.routes[kk] == old_v.routes.insert(k, c)[kk] by {
                        let j = choose|j: int| 0 <= j < self.routing_cache@.len() && self.routing_cache@[j].endpoint@ == kk;
                        if kk == k {
                            assert(j == n);
                        } else {
                            let j0 = choose|j0: int| 0 <= j0 < old(self).routing_cache@.len() && old(self).routing_cache@[j0].endpoint@ == kk;
                            assert(self.routing_cache@[j0].endpoint@ == kk);
                            assert(j == j0);
                        }
                    }
                    assert(self@.routes =~= old_v.routes.insert(k, c));
                }
            },
        }
    }

    /// Connection of a precalculated endpoint.
    pub fn fast_route_lookup(&self, endpoint: &str) -> (r: Option<u64>)
        requires
            self.well_formed(),
        ensures
            r == (if self@.routes.dom().contains(endpoint@) {
                Some(self@.routes[endpoint@])
            } else {
                None
            }),
    {
        let key = endpoint.to_owned();
        match self.find_route(&key) {
            Some(i) => {
                proof {
                    let j = choose|j: int| 0 <= j < self.routing_cache@.len() && self.routing_cache@[j].endpoint@ == endpoint@;
                    assert(j == i);
                }
                Some(self.routing_cache[i].connection_id)
            },
            None => None,
        }
    }

    /// The counters.
    pub fn get_stats(&self) -> (r: ProtocolOptimizationStatsSnapshot)
        ensures
            r.fast_path_hits == self@.stats.fast_path_hits,
            r.slow_path_hits == self@.stats.slow_path_hits,
            r.checks_skipped == self@.stats.checks_skipped,
            r.batch_operations == self@.stats.batch_operations,
            r.unchecked_operations == self@.stats.unchecked_operations,
            r.inline_operations == self@.stats.inline_operations,
    {
        ProtocolOptimizationStatsSnapshot {
            fast_path_hits: self.stats.fast_path_hits,
            slow_path_hits: self.stats.slow_path_hits,
            checks_skipped: self.stats.checks_skipped,
            batch_operations: self.stats.batch_operations,
            unchecked_operations: self.stats.unchecked_operations,
            inline_operations: self.stats.inline_operations,
        }
    }

    /// Empties the encoding cache and returns how many entries it held.
    pub fn cleanup_cache(&mut self) -> (r: usize)
        requires
            old(self).well_formed(),
        ensures
            final(self).well_formed(),
            r == old(self)@.frames.len(),
            final(self)@ == (ProtocolView { frames: Map::empty(), ..old(self)@ }),
    {
        let n = self.serialization_cache.len();
        proof {
            lemma_distinct_keys_len(self.serialization_cache@);
        }
        self.serialization_cache = Vec::new();
        assert(self@.frames =~= Map::empty());
        n
    }

    /// The most aggressive switches.
    pub fn extreme_optimization_config() -> (r: ProtocolOptimizationConfig)
        ensures
            r == extreme_protocol_config(),
    {
        ProtocolOptimizationConfig {
            enable_quic_fast_path: true,
            skip_integrity_checks: true,
            skip_error_recovery: true,
            enable_unchecked_buffers: true,
            enable_inline_serialization: true,
            enable_batch_processing: true,
            max_batch_size: 10000,
            enable_preallocation: true,
            enable_raw_pointer_ops: true,
        }
    }
}

/// Once a batch step has failed, later steps change nothing.
proof fn lemma_batch_stops(
    v: ProtocolView,
    events: Seq<EventMessage>,
    bufs: Seq<Seq<u8>>,
    encoded: Seq<Seq<u8>>,
    k: nat,
    n: nat,
)
    requires
        k <= n,
        batch_prefix(v, events, bufs, encoded, k).2 is None,
    ensures
        batch_prefix(v, events, bufs, encoded, n) == batch_prefix(v, events, bufs, encoded, k),
    decreases n - k,
{
    if k < n {
        lemma_batch_stops(v, events, bufs, encoded, k, (n - 1) as nat);
    }
}

/// A cache with distinct keys has as many keys as entries.
proof fn lemma_distinct_keys_len(entries: Seq<(String, Vec<u8>)>)
    requires
        forall|i: int, j: int| 0 <= i < j < entries.len() ==> entries[i].0@ != entries[j].0@,
    ensures
        Map::new(
            |k: Seq<char>| exists|i: int| 0 <= i < entries.len() && entries[i].0@ == k,
            |k: Seq<char>| entries[choose|i: int| 0 <= i < entries.len() && entries[i].0@ == k].1@,
        ).len() == entries.len(),
    decreases entries.len(),
{
    let m = Map::new(
        |k: Seq<char>| exists|i: int| 0 <= i < entries.len() && entries[i].0@ == k,
        |k: Seq<char>| entries[choose|i: int| 0 <= i < entries.len() && entries[i].0@ == k].1@,
    );
    let keys = entries.map_values(|e: (String, Vec<u8>)| e.0@);
    assert(m.dom() =~= keys.to_set()) by {
        assert forall|k: Seq<char>| m.dom().contains(k) implies keys.to_set().contains(k) by {
            let i = choose|i: int| 0 <= i < entries.len() && entries[i].0@ == k;
            assert(keys[i] == k);
        }
        assert forall|k: Seq<char>| keys.to_set().contains(k) implies m.dom().contains(k) by {
            let i = choose|i: int| 0 <= i < keys.len() && keys[i] == k;
            assert(entries[i].0@ == k);
        }
    }
    assert(keys.no_duplicates());
    keys.unique_seq_to_set();
}

} // verus!
