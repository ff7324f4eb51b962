//! User-space packet queues: fixed-size slots in an anonymous memory map, each a packet
//! descriptor followed by up to 1500 payload bytes, and the counters of the UDP endpoint
//! that drives them.

use vstd::prelude::*;

use memmap2::MmapMut;

use crate::encoding::{decimal, push_decimal};
use crate::timing::{instant_elapsed_nanos, instant_now, u128_to_u64};
use crate::token_accounts::{le_bytes, push_le_prefix};
use crate::zero_copy::{mapped_bytes, mmap_anon, mmap_read_into, mmap_write_at};

verus! {

/// Bytes of a packet descriptor.
pub const DESCRIPTOR_SIZE: usize = 32;

/// Largest payload of a slot.
pub const MAX_PACKET: usize = 1500;

/// Bytes of a slot: descriptor and payload room.
pub const ENTRY_SIZE: usize = 1532;

/// Slots of the queues of a UDP endpoint.
pub const UDP_QUEUE_CAPACITY: usize = 1_000_000;

/// Header of a queued packet.
#[derive(Clone, Copy, Debug)]
pub struct PacketDescriptor {
    /// Payload length.
    pub length: u32,
    /// Timestamp in nanoseconds.
    pub timestamp_ns: u64,
    /// IPv4 address, as a big-endian number.
    pub dst_addr: u32,
    /// Port.
    pub dst_port: u16,
    /// Packet flags.
    pub flags: u16,
    /// Offset of the payload within the slot.
    pub data_offset: u32,
}

/// The lowest `width` little-endian bytes of `v`.
pub open spec fn le(v: u64, width: int) -> Seq<u8> {
    le_bytes(v).subrange(0, width)
}

/// The bytes of a descriptor in its slot: length (4), four zero bytes, timestamp (8),
/// address (4), port (2), flags (2), payload offset (4), four zero bytes; all
/// little-endian, as the C layout of the header lies on a little-endian machine.
pub open spec fn descriptor_bytes(d: PacketDescriptor) -> Seq<u8> {
    le(d.length as u64, 4) + seq![0u8, 0, 0, 0] + le(d.timestamp_ns, 8) + le(d.dst_addr as u64, 4) + le(
        d.dst_port as u64,
        2,
    ) + le(d.flags as u64, 2) + le(d.data_offset as u64, 4) + seq![0u8, 0, 0, 0]
}

/// The number that little-endian bytes stand for.
pub open spec fn le_value(s: Seq<u8>) -> nat
    decreases s.len(),
{
    if s.len() == 0 {
        0
    } else {
        s[0] as nat + 256 * le_value(s.drop_first())
    }
}

fn encode_descriptor(d: &PacketDescriptor) -> (r: Vec<u8>)
    ensures
        r@ == descriptor_bytes(*d),
{
    let mut out: Vec<u8> = Vec::new();
    push_le_prefix(&mut out, d.length as u64, 4);
    push_le_prefix(&mut out, 0, 4);
    push_le_prefix(&mut out, d.timestamp_ns, 8);
    push_le_prefix(&mut out, d.dst_addr as u64, 4);
    push_le_prefix(&mut out, d.dst_port as u64, 2);
    push_le_prefix(&mut out, d.flags as u64, 2);
    push_le_prefix(&mut out, d.data_offset as u64, 4);
    push_le_prefix(&mut out, 0, 4);
    proof {
        lemma_le_zero4();
    }
    assert(out@ =~= descriptor_bytes(*d));
    out
}

proof fn lemma_le_zero4()
    ensures
        le(0, 4) == seq![0u8, 0, 0, 0],
{
    assert(le(0, 4) =~= seq![0u8, 0, 0, 0]) by {
        crate::token_accounts::lemma_pow256_positive(0);
        crate::token_accounts::lemma_pow256_positive(1);
        crate::token_accounts::lemma_pow256_positive(2);
        crate::token_accounts::lemma_pow256_positive(3);
    }
}

/// The value of `bytes[start..start + width]`, read little-endian.
fn read_le(bytes: &Vec<u8>, start: usize, width: usize) -> (r: u64)
    requires
        start + width <= bytes.len(),
        width <= 4,
    ensures
        r == le_value(bytes@.subrange(start as int, start + width)),
        r < pow256_nat(width as nat),
{
    let mut v: u64 = 0;
    let mut i: usize = width;
    while i > 0
        invariant
            i <= width <= 4,
            start + width <= bytes.len(),
            v == le_value(bytes@.subrange(start + i, start + width)),
            v < pow256_nat((width - i) as nat),
        decreases i,
    {
        i = i - 1;
        let ghost tail = bytes@.subrange(start + i + 1, start + width);
        let ghost seg = bytes@.subrange(start + i, start + width);
        assert(seg.drop_first() =~= tail);
        proof {
            lemma_pow256_step((width - i - 1) as nat);
            assert(v * 256 + 255 < pow256_nat((width - i) as nat)) by (nonlinear_arith)
                requires
                    v < pow256_nat((width - i - 1) as nat),
                    pow256_nat((width - i) as nat) == 256 * pow256_nat((width - i - 1) as nat),
            ;
            lemma_pow256_small((width - i) as nat);
        }
        v = v * 256 + bytes[start + i] as u64;
    }
    v
}

/// 256 to the power `n`.
pub open spec fn pow256_nat(n: nat) -> nat
    decreases n,
{
    if n == 0 {
        1
    } else {
        256 * pow256_nat((n - 1) as nat)
    }
}

proof fn lemma_pow256_step(n: nat)
    ensures
        pow256_nat(n + 1) == 256 * pow256_nat(n),
{
}

proof fn lemma_pow256_small(n: nat)
    requires
        n <= 4,
    ensures
        pow256_nat(n) <= 0x1_0000_0000,
{
    reveal_with_fuel(pow256_nat, 5);
}

/// Error text of a failed system call (`std::io::Error`'s `Display`).
#[verifier::external_body]
fn io_error_text(e: &std::io::Error) -> String {
    e.to_string()
}

/// Send ring: slots of a memory map, a producer and a consumer counter.
pub struct TxQueue {
    ring_buffer: MmapMut,
    capacity: usize,
    head: u64,
    tail: u64,
}

/// Receive ring, laid out as the send ring.
pub struct RxQueue {
    ring_buffer: MmapMut,
    capacity: usize,
    head: u64,
    tail: u64,
}

/// Error of a full send ring.
pub open spec fn tx_full_error() -> Seq<char> {
    "TX queue is full"@
}

/// Error of a destination that is not IPv4.
pub open spec fn ipv6_error() -> Seq<char> {
    "Only IPv4 supported"@
}

/// Error of an empty receive ring.
pub open spec fn rx_empty_error() -> Seq<char> {
    "RX queue is empty"@
}

/// Error of a descriptor whose length exceeds a slot's payload room.
pub open spec fn corrupt_descriptor_error() -> Seq<char> {
    "Corrupt packet descriptor"@
}

/// Error of a buffer shorter than the payload.
pub open spec fn rx_buffer_error(need: nat, got: nat) -> Seq<char> {
    "Buffer too small: need "@ + decimal(need) + ", got "@ + decimal(got)
}

/// Packets in a ring of `capacity` slots between the counters, as the queues count
/// them: `(head + capacity - tail) % capacity`.
pub open spec fn ring_pending(head: u64, tail: u64, capacity: usize) -> int {
    (head + capacity - tail) % (capacity as int)
}

/// Byte offset of the slot a counter points at.
pub open spec fn slot_offset(counter: u64, capacity: usize) -> int {
    ((counter as int) % (capacity as int)) * ENTRY_SIZE
}

impl TxQueue {
    /// The ring's bytes.
    pub closed spec fn ring(&self) -> Seq<u8> {
        mapped_bytes(self.ring_buffer)
    }

    /// Slots of the ring.
    pub closed spec fn spec_capacity(&self) -> usize {
        self.capacity
    }

    /// Producer counter.
    pub closed spec fn spec_head(&self) -> u64 {
        self.head
    }

    /// Consumer counter.
    pub closed spec fn spec_tail(&self) -> u64 {
        self.tail
    }

    /// The ring is `capacity` slots long.
    pub open spec fn well_formed(&self) -> bool {
        &&& self.spec_capacity() > 0
        &&& self.spec_capacity() * ENTRY_SIZE <= usize::MAX
        &&& self.ring().len() == self.spec_capacity() * ENTRY_SIZE
    }

    /// Maps a ring of `capacity` slots; fails with the system's error text when the map
    /// is refused.
    pub fn new(capacity: usize) -> (r: Result<Self, String>)
        requires
            capacity * ENTRY_SIZE <= usize::MAX,
        ensures
            r matches Ok(q) ==> q.spec_capacity() == capacity && q.spec_head() == 0 && q.spec_tail() == 0
                && q.ring().len() == capacity * ENTRY_SIZE && (capacity > 0 ==> q.well_formed()),
            capacity * ENTRY_SIZE > isize::MAX ==> r is Err,
    {
        let total_size = capacity * ENTRY_SIZE;
        match mmap_anon(total_size) {
            Ok(ring_buffer) => Ok(TxQueue { ring_buffer, capacity, head: 0, tail: 0 }),
            Err(e) => Err(io_error_text(&e)),
        }
    }

    /// Slots of the ring.
    pub fn capacity(&self) -> (r: usize)
        ensures
            r == self.spec_capacity(),
    {
        self.capacity
    }

    /// Writes a packet for `dst_ip:dst_port` into the slot the producer counter points at
    /// and advances it. Refused when the ring counts itself full (the slot after the
    /// producer's is the consumer counter) and for a destination that is not IPv4
    /// (`dst_ip` none); nothing changes then.
    pub fn send_packet_zero_copy(&mut self, data: &[u8], dst_ip: Option<u32>, dst_port: u16) -> (r: Result<(), String>)
        requires
            old(self).well_formed(),
            old(self).spec_head() < u64::MAX,
            data@.len() <= MAX_PACKET,
        ensures
            final(self).well_formed(),
            final(self).spec_capacity() == old(self).spec_capacity(),
            final(self).spec_tail() == old(self).spec_tail(),
            (old(self).spec_head() + 1) % (old(self).spec_capacity() as int) == old(self).spec_tail() ==> (r matches Err(
                e,
            ) && e@ == tx_full_error()) && final(self).ring() == old(self).ring() && final(self).spec_head() == old(
                self,
            ).spec_head(),
            (old(self).spec_head() + 1) % (old(self).spec_capacity() as int) != old(self).spec_tail() && dst_ip is None
                ==> (r matches Err(e) && e@ == ipv6_error()) && final(self).ring() == old(self).ring()
                && final(self).spec_head() == old(self).spec_head(),
            r is Ok ==> {
                let off = slot_offset(old(self).spec_head(), old(self).spec_capacity());
                &&& dst_ip is Some
                &&& final(self).spec_head() == old(self).spec_head() + 1
                &&& exists|d: PacketDescriptor|
                    #![auto]
                    d.length == data@.len() && d.dst_addr == dst_ip.unwrap() && d.dst_port == dst_port && d.flags == 0
                        && d.data_offset == DESCRIPTOR_SIZE && final(self).ring() == old(self).ring().subrange(0, off)
                        + descriptor_bytes(d) + data@ + old(self).ring().subrange(
                        off + DESCRIPTOR_SIZE + data@.len(),
                        old(self).ring().len() as int,
                    )
            },
            (old(self).spec_head() + 1) % (old(self).spec_capacity() as int) != old(self).spec_tail() && dst_ip is Some
                ==> r is Ok,
    {
        let current_head = self.head;
        let current_tail = self.tail;
        let cap = self.capacity as u64;
        if (current_head + 1) % cap == current_tail {
            return Err("TX queue is full".to_owned());
        }
        let slot = (current_head % cap) as usize;
        proof {
            assert(slot * ENTRY_SIZE + ENTRY_SIZE <= self.capacity * ENTRY_SIZE) by (nonlinear_arith)
                requires
                    slot < self.capacity,
            ;
        }
        let entry_offset = slot * ENTRY_SIZE;
        let start = instant_now();
        let timestamp_ns = u128_to_u64(instant_elapsed_nanos(&start));
        let dst_addr = match dst_ip {
            Some(ip) => ip,
            None => {
                return Err("Only IPv4 supported".to_owned());
            },
        };
        let descriptor = PacketDescriptor {
            length: data.len() as u32,
            timestamp_ns,
            dst_addr,
            dst_port,
            flags: 0,
            data_offset: DESCRIPTOR_SIZE as u32,
        };
        let bytes = encode_descriptor(&descriptor);
        let ghost r0 = mapped_bytes(self.ring_buffer);
        mmap_write_at(&mut self.ring_buffer, entry_offset, bytes.as_slice(), 0, DESCRIPTOR_SIZE);
        let ghost r1 = mapped_bytes(self.ring_buffer);
        mmap_write_at(&mut self.ring_buffer, entry_offset + DESCRIPTOR_SIZE, data, 0, data.len());
        self.head = current_head + 1;
        proof {
            let off = entry_offset as int;
            assert(bytes@.subrange(0, 32) =~= bytes@);
            assert(data@.subrange(0, data@.len() as int) =~= data@);
            assert(mapped_bytes(self.ring_buffer) =~= r0.subrange(0, off) + descriptor_bytes(descriptor) + data@
                + r0.subrange(off + DESCRIPTOR_SIZE + data@.len(), r0.len() as int));
            assert(descriptor.length == data@.len());
        }
        Ok(())
    }

    /// Packets waiting to be sent (see `ring_pending`).
    pub fn pending_packets(&self) -> (r: u64)
        requires
            self.well_formed(),
            self.spec_head() + self.spec_capacity() <= u64::MAX,
            self.spec_tail() <= self.spec_head() + self.spec_capacity(),
        ensures
            r == ring_pending(self.spec_head(), self.spec_tail(), self.spec_capacity()),
    {
        (self.head + self.capacity as u64 - self.tail) % self.capacity as u64
    }

    /// Marks `n` packets as sent by moving the consumer counter on.
    pub fn complete(&mut self, n: u64)
        requires
            old(self).spec_tail() + n <= u64::MAX,
        ensures
            final(self).spec_tail() == old(self).spec_tail() + n,
            final(self).spec_head() == old(self).spec_head(),
            final(self).spec_capacity() == old(self).spec_capacity(),
            final(self).ring() == old(self).ring(),
    {
        self.tail = self.tail + n;
    }
}

impl RxQueue {
    /// The ring's bytes.
    pub closed spec fn ring(&self) -> Seq<u8> {
        mapped_bytes(self.ring_buffer)
    }

    /// Slots of the ring.
    pub closed spec fn spec_capacity(&self) -> usize {
        self.capacity
    }

    /// Producer counter.
    pub closed spec fn spec_head(&self) -> u64 {
        self.head
    }

    /// Consumer counter.
    pub closed spec fn spec_tail(&self) -> u64 {
        self.tail
    }

    /// The ring is `capacity` slots long.
    pub open spec fn well_formed(&self) -> bool {
        &&& self.spec_capacity() > 0
        &&& self.spec_capacity() * ENTRY_SIZE <= usize::MAX
        &&& self.ring().len() == self.spec_capacity() * ENTRY_SIZE
    }

    /// Maps a ring of `capacity` slots; fails with the system's error text when the map
    /// is refused.
    pub fn new(capacity: usize) -> (r: Result<Self, String>)
        requires
            capacity * ENTRY_SIZE <= usize::MAX,
        ensures
            r matches Ok(q) ==> q.spec_capacity() == capacity && q.spec_head() == 0 && q.spec_tail() == 0
                && q.ring().len() == capacity * ENTRY_SIZE && (capacity > 0 ==> q.well_formed()),
            capacity * ENTRY_SIZE > isize::MAX ==> r is Err,
    {
        let total_size = capacity * ENTRY_SIZE;
        match mmap_anon(total_size) {
            Ok(ring_buffer) => Ok(RxQueue { ring_buffer, capacity, head: 0, tail: 0 }),
            Err(e) => Err(io_error_text(&e)),
        }
    }

    /// Slots of the ring.
    pub fn capacity(&self) -> (r: usize)
        ensures
            r == self.spec_capacity(),
    {
        self.capacity
    }

    /// Copies the payload of the packet the consumer counter points at into `buffer` and
    /// returns its length, source address and port, advancing the counter. Refused on
    /// an empty ring, on a descriptor longer than a slot's payload room and on a buffer
    /// too short for the payload; nothing changes then.
    pub fn receive_packet_zero_copy(&mut self, buffer: &mut [u8]) -> (r: Result<(usize, u32, u16), String>)
        requires
            old(self).well_formed(),
            old(self).spec_tail() < u64::MAX,
        ensures
            final(self).well_formed(),
            final(self).spec_capacity() == old(self).spec_capacity(),
            final(self).spec_head() == old(self).spec_head(),
            final(self).ring() == old(self).ring(),
            old(self).spec_tail() == old(self).spec_head() ==> (r matches Err(e) && e@ == rx_empty_error()),
            ({
                let off = slot_offset(old(self).spec_tail(), old(self).spec_capacity());
                let ring = old(self).ring();
                let len = le_value(ring.subrange(off, off + 4));
                let addr = le_value(ring.subrange(off + 16, off + 20));
                let port = le_value(ring.subrange(off + 20, off + 22));
                old(self).spec_tail() != old(self).spec_head() ==> {
                    &&& len > MAX_PACKET ==> (r matches Err(e) && e@ == corrupt_descriptor_error())
                    &&& len <= MAX_PACKET && len > old(buffer)@.len() ==> (r matches Err(e) && e@
                        == rx_buffer_error(len, old(buffer)@.len()))
                    &&& len <= MAX_PACKET && len <= old(buffer)@.len() ==> {
                        &&& r matches Ok((n, a, p)) && n == len && a == addr && p == port
                        &&& final(buffer)@ == ring.subrange(off + DESCRIPTOR_SIZE, off + DESCRIPTOR_SIZE + len)
                            + old(buffer)@.subrange(len as int, old(buffer)@.len() as int)
                        &&& final(self).spec_tail() == old(self).spec_tail() + 1
                    }
                }
            }),
            r is Err ==> final(self).spec_tail() == old(self).spec_tail() && final(buffer)@ == old(buffer)@,
    {
        let current_tail = self.tail;
        let current_head = self.head;
        if current_tail == current_head {
            return Err("RX queue is empty".to_owned());
        }
        let cap = self.capacity as u64;
        let slot = (current_tail % cap) as usize;
        proof {
            assert(slot * ENTRY_SIZE + ENTRY_SIZE <= self.capacity * ENTRY_SIZE) by (nonlinear_arith)
                requires
                    slot < self.capacity,
            ;
        }
        let entry_offset = slot * ENTRY_SIZE;
        let mut header: Vec<u8> = vec![0u8; DESCRIPTOR_SIZE];
        let ghost ring = mapped_bytes(self.ring_buffer);
        mmap_read_into(&self.ring_buffer, entry_offset, header.as_mut_slice(), 0, DESCRIPTOR_SIZE);
        proof {
            assert(header@ =~= ring.subrange(entry_offset as int, entry_offset + DESCRIPTOR_SIZE));
            assert(header@.subrange(0, 4) =~= ring.subrange(entry_offset as int, entry_offset + 4));
            assert(header@.subrange(16, 20) =~= ring.subrange(entry_offset + 16, entry_offset + 20));
            assert(header@.subrange(20, 22) =~= ring.subrange(entry_offset + 20, entry_offset + 22));
        }
        proof {
            reveal_with_fuel(pow256_nat, 5);
        }
        let raw_len = read_le(&header, 0, 4);
        let raw_addr = read_le(&header, 16, 4);
        let raw_port = read_le(&header, 20, 2);
        let data_len = raw_len as usize;
        let addr = raw_addr as u32;
        let port = raw_port as u16;
        if data_len > MAX_PACKET {
            return Err("Corrupt packet descriptor".to_owned());
        }
        if data_len > buffer.len() {
            let mut msg = "Buffer too small: need ".to_owned();
            push_decimal(&mut msg, data_len as u64);
            msg.append(", got ");
            push_decimal(&mut msg, buffer.len() as u64);
            return Err(msg);
        }
        mmap_read_into(&self.ring_buffer, entry_offset + DESCRIPTOR_SIZE, buffer, 0, data_len);
        self.tail = current_tail + 1;
        Ok((data_len, addr, port))
    }

    /// Packets waiting to be received (see `ring_pending`).
    pub fn available_packets(&self) -> (r: u64)
        requires
            self.well_formed(),
            self.spec_head() + self.spec_capacity() <= u64::MAX,
            self.spec_tail() <= self.spec_head() + self.spec_capacity(),
        ensures
            r == ring_pending(self.spec_head(), self.spec_tail(), self.spec_capacity()),
    {
        (self.head + self.capacity as u64 - self.tail) % self.capacity as u64
    }
}

/// Counters of a UDP endpoint; each wraps at 2^64.
#[derive(Clone, Copy, Debug)]
pub struct AtomicNetworkStats {
    pub packets_sent: u64,
    pub packets_received: u64,
    pub bytes_sent: u64,
    pub bytes_received: u64,
    pub send_errors: u64,
    pub receive_errors: u64,
    pub total_send_latency_ns: u64,
    pub total_receive_latency_ns: u64,
}

/// All counters at zero.
pub open spec fn zero_network_stats() -> AtomicNetworkStats {
    AtomicNetworkStats {
        packets_sent: 0,
        packets_received: 0,
        bytes_sent: 0,
        bytes_received: 0,
        send_errors: 0,
        receive_errors: 0,
        total_send_latency_ns: 0,
        total_receive_latency_ns: 0,
    }
}

impl Default for AtomicNetworkStats {
    fn default() -> (r: Self)
        ensures
            r == zero_network_stats(),
    {
        AtomicNetworkStats {
            packets_sent: 0,
            packets_received: 0,
            bytes_sent: 0,
            bytes_received: 0,
            send_errors: 0,
            receive_errors: 0,
            total_send_latency_ns: 0,
            total_receive_latency_ns: 0,
        }
    }
}

/// A user-space UDP endpoint: a send and a receive ring, counters, and whether its
/// workers should run.
pub struct KernelBypassUDP {
    interface_name: String,
    tx_queue: TxQueue,
    rx_queue: RxQueue,
    stats: AtomicNetworkStats,
    running: bool,
    cpu_affinity: Option<usize>,
}

impl KernelBypassUDP {
    /// The counters.
    pub closed spec fn spec_stats(&self) -> AtomicNetworkStats {
        self.stats
    }

    /// Whether the workers should run.
    pub closed spec fn spec_running(&self) -> bool {
        self.running
    }

    /// The send ring.
    pub closed spec fn tx(&self) -> TxQueue {
        self.tx_queue
    }

    /// The receive ring.
    pub closed spec fn rx(&self) -> RxQueue {
        self.rx_queue
    }

    /// Both rings are well formed.
    pub open spec fn well_formed(&self) -> bool {
        self.tx().well_formed() && self.rx().well_formed()
    }

    /// The network interface.
    pub closed spec fn spec_interface(&self) -> Seq<char> {
        self.interface_name@
    }

    /// The core the send worker is pinned to.
    pub closed spec fn spec_cpu_affinity(&self) -> Option<usize> {
        self.cpu_affinity
    }

    /// An endpoint on `interface_name` with rings of a million slots, stopped, counters at
    /// zero; fails with the system's error text when a ring cannot be mapped.
    pub fn new(interface_name: String, cpu_affinity: Option<usize>) -> (r: Result<Self, String>)
        ensures
            r matches Ok(u) ==> {
                &&& u.well_formed()
                &&& u.spec_interface() == interface_name@
                &&& u.spec_cpu_affinity() == cpu_affinity
                &&& u.spec_stats() == zero_network_stats()
                &&& !u.spec_running()
                &&& u.tx().spec_capacity() == UDP_QUEUE_CAPACITY && u.tx().spec_head() == 0 && u.tx().spec_tail() == 0
                &&& u.rx().spec_capacity() == UDP_QUEUE_CAPACITY && u.rx().spec_head() == 0 && u.rx().spec_tail() == 0
            },
    {
        let tx_queue = match TxQueue::new(UDP_QUEUE_CAPACITY) {
            Ok(q) => q,
            Err(e) => {
                return Err(e);
            },
        };
        let rx_queue = match RxQueue::new(UDP_QUEUE_CAPACITY) {
            Ok(q) => q,
            Err(e) => {
                return Err(e);
            },
        };
        Ok(
            KernelBypassUDP {
                interface_name,
                tx_queue,
                rx_queue,
                stats: AtomicNetworkStats::default(),
                running: false,
                cpu_affinity,
            },
        )
    }

    /// The network interface.
    pub fn interface_name(&self) -> (r: &str)
        ensures
            r@ == self.spec_interface(),
    {
        self.interface_name.as_str()
    }

    /// The core the send worker is pinned to, if any.
    pub fn cpu_affinity(&self) -> (r: Option<usize>)
        ensures
            r == self.spec_cpu_affinity(),
    {
        self.cpu_affinity
    }

    /// Marks the workers as running or stopped.
    pub fn set_running(&mut self, running: bool)
        ensures
            final(self).spec_running() == running,
            final(self).spec_stats() == old(self).spec_stats(),
            final(self).tx() == old(self).tx(),
            final(self).rx() == old(self).rx(),
    {
        self.running = running;
    }

    /// Whether the workers should run.
    pub fn is_running(&self) -> (r: bool)
        ensures
            r == self.spec_running(),
    {
        self.running
    }

    /// Queues a packet on the send ring (see `TxQueue::send_packet_zero_copy`); counts
    /// its bytes and the time it took, or a send error.
    pub fn send_raw_packet(&mut self, data: &[u8], dst_ip: Option<u32>, dst_port: u16) -> (r: Result<(), String>)
        requires
            old(self).well_formed(),
            old(self).tx().spec_head() < u64::MAX,
            data@.len() <= MAX_PACKET,
        ensures
            final(self).well_formed(),
            final(self).rx() == old(self).rx(),
            final(self).spec_running() == old(self).spec_running(),
            r is Ok ==> final(self).spec_stats().bytes_sent == vstd::wrapping::u64_specs::wrapping_add(
                old(self).spec_stats().bytes_sent,
                data@.len() as u64,
            ) && final(self).spec_stats().send_errors == old(self).spec_stats().send_errors,
            r is Err ==> final(self).spec_stats() == (AtomicNetworkStats {
                send_errors: vstd::wrapping::u64_specs::wrapping_add(old(self).spec_stats().send_errors, 1),
                ..old(self).spec_stats()
            }),
            final(self).spec_stats().packets_sent == old(self).spec_stats().packets_sent,
            final(self).spec_stats().packets_received == old(self).spec_stats().packets_received,
            final(self).spec_stats().bytes_received == old(self).spec_stats().bytes_received,
            final(self).spec_stats().receive_errors == old(self).spec_stats().receive_errors,
            final(self).spec_stats().total_receive_latency_ns == old(self).spec_stats().total_receive_latency_ns,
    {
        let start = instant_now();
        let result = self.tx_queue.send_packet_zero_copy(data, dst_ip, dst_port);
        match result {
            Ok(()) => {
                let latency_ns = u128_to_u64(instant_elapsed_nanos(&start));
                self.stats.bytes_sent = self.stats.bytes_sent.wrapping_add(data.len() as u64);
                self.stats.total_send_latency_ns = self.stats.total_send_latency_ns.wrapping_add(latency_ns);
                Ok(())
            },
            Err(e) => {
                self.stats.send_errors = self.stats.send_errors.wrapping_add(1);
                Err(e)
            },
        }
    }

    /// Takes a packet from the receive ring (see `RxQueue::receive_packet_zero_copy`);
    /// counts it, its bytes and the time it took, or a receive error.
    pub fn receive_raw_packet(&mut self, buffer: &mut [u8]) -> (r: Result<(usize, u32, u16), String>)
        requires
            old(self).well_formed(),
            old(self).rx().spec_tail() < u64::MAX,
        ensures
            final(self).well_formed(),
            final(self).tx() == old(self).tx(),
            final(self).spec_running() == old(self).spec_running(),
            r matches Ok((n, a, p)) ==> final(self).spec_stats().packets_received
                == vstd::wrapping::u64_specs::wrapping_add(old(self).spec_stats().packets_received, 1)
                && final(self).spec_stats().bytes_received == vstd::wrapping::u64_specs::wrapping_add(
                old(self).spec_stats().bytes_received,
                n as u64,
            ) && final(self).spec_stats().receive_errors == old(self).spec_stats().receive_errors,
            r is Err ==> final(self).spec_stats() == (AtomicNetworkStats {
                receive_errors: vstd::wrapping::u64_specs::wrapping_add(old(self).spec_stats().receive_errors, 1),
                ..old(self).spec_stats()
            }),
            final(self).spec_stats().packets_sent == old(self).spec_stats().packets_sent,
            final(self).spec_stats().bytes_sent == old(self).spec_stats().bytes_sent,
            final(self).spec_stats().send_errors == old(self).spec_stats().send_errors,
            final(self).spec_stats().total_send_latency_ns == old(self).spec_stats().total_send_latency_ns,
    {
        let start = instant_now();
        let result = self.rx_queue.receive_packet_zero_copy(buffer);
        match result {
            Ok((n, a, p)) => {
                let latency_ns = u128_to_u64(instant_elapsed_nanos(&start));
                self.stats.packets_received = self.stats.packets_received.wrapping_add(1);
                self.stats.bytes_received = self.stats.bytes_received.wrapping_add(n as u64);
                self.stats.total_receive_latency_ns = self.stats.total_receive_latency_ns.wrapping_add(latency_ns);
                Ok((n, a, p))
            },
            Err(e) => {
                self.stats.receive_errors = self.stats.receive_errors.wrapping_add(1);
                Err(e)
            },
        }
    }

    /// One pass of the send worker: the packets waiting on the send ring are counted as
    /// sent and the ring's consumer counter moves past them. Returns how many there were.
    pub fn tx_drain_step(&mut self) -> (r: u64)
        requires
            old(self).well_formed(),
            old(self).tx().spec_head() + old(self).tx().spec_capacity() <= u64::MAX,
            old(self).tx().spec_tail() <= old(self).tx().spec_head(),
        ensures
            final(self).well_formed(),
            r == ring_pending(old(self).tx().spec_head(), old(self).tx().spec_tail(), old(self).tx().spec_capacity()),
            final(self).tx().spec_tail() == old(self).tx().spec_tail() + r,
            final(self).tx().spec_tail() <= final(self).tx().spec_head(),
            final(self).tx().spec_head() == old(self).tx().spec_head(),
            final(self).tx().ring() == old(self).tx().ring(),
            final(self).rx() == old(self).rx(),
            final(self).spec_stats() == (AtomicNetworkStats {
                packets_sent: vstd::wrapping::u64_specs::wrapping_add(old(self).spec_stats().packets_sent, r),
                ..old(self).spec_stats()
            }),
    {
        let pending = self.tx_queue.pending_packets();
        if pending > 0 {
            proof {
                let t = self.tx_queue.spec_tail() as int;
                let h = self.tx_queue.spec_head() as int;
                let c = self.tx_queue.spec_capacity() as int;
                assert((h + c - t) % c <= h - t) by (nonlinear_arith)
                    requires
                        t <= h,
                        c > 0,
                {
                    vstd::arithmetic::div_mod::lemma_mod_sub_multiples_vanish(h - t, c);
                    if h - t < c {
                        vstd::arithmetic::div_mod::lemma_small_mod((h - t) as nat, c as nat);
                    } else {
                        vstd::arithmetic::div_mod::lemma_mod_decreases((h + c - t) as nat, c as nat);
                    }
                }
            }
            self.stats.packets_sent = self.stats.packets_sent.wrapping_add(pending);
            self.tx_queue.complete(pending);
        }
        pending
    }

    /// The counters.
    pub fn get_network_counters(&self) -> (r: AtomicNetworkStats)
        ensures
            r == self.spec_stats(),
    {
        self.stats
    }

    /// Packets and bytes sent and received, when anything has been sent or received.
    pub fn traffic_report(&self) -> (r: Option<(u64, u64, u64, u64)>)
        ensures
            r == (if self.spec_stats().packets_sent > 0 || self.spec_stats().packets_received > 0 {
                Some(
                    (
                        self.spec_stats().packets_sent,
                        self.spec_stats().bytes_sent,
                        self.spec_stats().packets_received,
                        self.spec_stats().bytes_received,
                    ),
                )
            } else {
                None
            }),
    {
        if self.stats.packets_sent > 0 || self.stats.packets_received > 0 {
            Some((self.stats.packets_sent, self.stats.bytes_sent, self.stats.packets_received, self.stats.bytes_received))
        } else {
            None
        }
    }
}

} // verus!
