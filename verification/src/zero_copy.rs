//! Zero-copy buffers over anonymous memory maps: a byte ring buffer and a
//! bitmap-managed pool of fixed-size blocks.

use vstd::prelude::*;

use memmap2::MmapMut;

verus! {

#[verifier::external_type_specification]
#[verifier::external_body]
pub struct ExMmapMut(MmapMut);

#[verifier::external_type_specification]
#[verifier::external_body]
pub struct ExIoError(std::io::Error);

/// The bytes of a writable memory map.
pub uninterp spec fn mapped_bytes(m: MmapMut) -> Seq<u8>;

/// Calls `memmap2::MmapMut::map_anon(len)`: an anonymous map of `len` bytes, or the
/// error of the underlying system call (which may fail on any input). As documented,
/// it fails when `len > isize::MAX`.
#[verifier::external_body]
pub(crate) fn mmap_anon(len: usize) -> (r: Result<MmapMut, std::io::Error>)
    ensures
        r matches Ok(m) ==> mapped_bytes(m).len() == len && len <= isize::MAX,
{
    MmapMut::map_anon(len)
}

/// Copies `len` bytes of `data` starting at `start` into the map at `offset`
/// (through `DerefMut` to `[u8]` and `copy_from_slice`); the other bytes are unchanged.
#[verifier::external_body]
pub(crate) fn mmap_write_at(m: &mut MmapMut, offset: usize, data: &[u8], start: usize, len: usize)
    requires
        offset + len <= mapped_bytes(*old(m)).len(),
        start + len <= data@.len(),
    ensures
        mapped_bytes(*final(m)) == mapped_bytes(*old(m)).subrange(0, offset as int) + data@.subrange(
            start as int,
            start + len,
        ) + mapped_bytes(*old(m)).subrange(offset + len, mapped_bytes(*old(m)).len() as int),
{
    m[offset..offset + len].copy_from_slice(&data[start..start + len]);
}

/// Copies `len` bytes of the map starting at `offset` into `out` at `out_offset`
/// (through `Deref` to `[u8]` and `copy_from_slice`); the other bytes of `out` are unchanged.
#[verifier::external_body]
pub(crate) fn mmap_read_into(m: &MmapMut, offset: usize, out: &mut [u8], out_offset: usize, len: usize)
    requires
        offset + len <= mapped_bytes(*m).len(),
        out_offset + len <= old(out)@.len(),
    ensures
        final(out)@ == old(out)@.subrange(0, out_offset as int) + mapped_bytes(*m).subrange(
            offset as int,
            offset + len,
        ) + old(out)@.subrange(out_offset + len, old(out)@.len() as int),
{
    out[out_offset..out_offset + len].copy_from_slice(&m[offset..offset + len]);
}

/// Bytes readable in a ring of `size` bytes with the given read and write positions.
pub open spec fn ring_available(read_pos: int, write_pos: int, size: int) -> int {
    if write_pos >= read_pos {
        write_pos - read_pos
    } else {
        size - (read_pos - write_pos)
    }
}

/// Ring buffer of bytes held in an anonymous memory map. One byte always stays free,
/// so at most `size - 1` bytes are buffered.
pub struct MemoryMappedBuffer {
    mmap: MmapMut,
    read_pos: usize,
    write_pos: usize,
    size: usize,
    _buffer_id: u64,
}

impl View for MemoryMappedBuffer {
    type V = Seq<u8>;

    /// The buffered bytes, oldest first.
    closed spec fn view(&self) -> Seq<u8> {
        Seq::new(
            ring_available(self.read_pos as int, self.write_pos as int, self.size as int) as nat,
            |j: int| mapped_bytes(self.mmap)[(self.read_pos + j) % (self.size as int)],
        )
    }
}

proof fn lemma_mod_shift(a: int, b: int, c: int)
    requires
        c > 0,
        a % c == b % c,
    ensures
        forall|i: int| #[trigger] ((a + i) % c) == (b + i) % c,
{
    assert forall|i: int| #[trigger] ((a + i) % c) == (b + i) % c by {
        vstd::arithmetic::div_mod::lemma_add_mod_noop(a, i, c);
        vstd::arithmetic::div_mod::lemma_add_mod_noop(b, i, c);
    }
}

/// Map position of the `i`-th byte after position `base` in a ring of `size` bytes.
pub open spec fn ring_pos(base: int, i: int, size: int) -> int {
    (base + i) % size
}

/// The readable count is the distance from the read to the write position, modulo the size.
proof fn lemma_ring_available(r: int, w: int, size: int)
    requires
        0 <= r < size,
        0 <= w < size,
    ensures
        0 <= ring_available(r, w, size) < size,
        (r + ring_available(r, w, size)) % size == w,
{
    if w >= r {
        assert((r + (w - r)) % size == w) by (nonlinear_arith)
            requires
                0 <= w < size,
        ;
    } else {
        assert((r + (size - (r - w))) % size == w) by (nonlinear_arith)
            requires
                0 <= w < size,
        ;
    }
}

/// Writing `data` at the logical end of the ring extends the readable bytes by `data`.
proof fn lemma_ring_write_view(
    mem: Seq<u8>,
    mem2: Seq<u8>,
    data: Seq<u8>,
    r: int,
    w: int,
    size: int,
)
    requires
        size > 0,
        mem.len() == size,
        mem2.len() == size,
        0 <= r < size,
        0 <= w < size,
        ring_available(r, w, size) + data.len() < size,
        forall|i: int| 0 <= i < data.len() ==> mem2[#[trigger] ring_pos(w, i, size)] == data[i],
        forall|p: int|
            0 <= p < size && (forall|i: int| 0 <= i < data.len() ==> #[trigger] ring_pos(w, i, size) != p)
                ==> mem2[p] == mem[p],
    ensures
        Seq::new(
            (ring_available(r, w, size) + data.len()) as nat,
            |j: int| mem2[(r + j) % size],
        ) == Seq::new(ring_available(r, w, size) as nat, |j: int| mem[(r + j) % size]) + data,
{
    let a = ring_available(r, w, size);
    lemma_ring_available(r, w, size);
    let lhs = Seq::new((a + data.len()) as nat, |j: int| mem2[(r + j) % size]);
    let rhs = Seq::new(a as nat, |j: int| mem[(r + j) % size]) + data;
    assert forall|j: int| 0 <= j < lhs.len() implies lhs[j] == rhs[j] by {
        // (r + a + i) and (w + i) agree modulo size
        vstd::arithmetic::div_mod::lemma_small_mod(w as nat, size as nat);
        lemma_mod_shift(r + a, w, size);
        if j < a {
            assert forall|i: int| 0 <= i < data.len() implies #[trigger] ring_pos(w, i, size) != (r + j) % size by {
                assert((r + a + i) % size == (w + i) % size);
                crate::hardware::lemma_mod_distinct_pub(r + j, r + a + i, size);
            }
            assert(0 <= (r + j) % size < size) by (nonlinear_arith)
                requires
                    size > 0,
            ;
        } else {
            let i = j - a;
            assert((r + a + i) % size == (w + i) % size);
            assert(mem2[ring_pos(w, i, size)] == data[i]);
        }
    }
    assert(lhs =~= rhs);
}

/// Consuming `n` readable bytes moves the read position by `n` and drops them from the front.
proof fn lemma_ring_read_view(mem: Seq<u8>, r: int, w: int, size: int, n: int)
    requires
        size > 0,
        mem.len() == size,
        0 <= r < size,
        0 <= w < size,
        0 <= n <= ring_available(r, w, size),
    ensures
        ring_available((r + n) % size, w, size) == ring_available(r, w, size) - n,
        Seq::new(
            ring_available((r + n) % size, w, size) as nat,
            |j: int| mem[((r + n) % size + j) % size],
        ) == Seq::new(ring_available(r, w, size) as nat, |j: int| mem[(r + j) % size]).skip(n),
{
    let a = ring_available(r, w, size);
    let r2 = (r + n) % size;
    vstd::arithmetic::div_mod::lemma_mod_bound(r + n, size);
    lemma_ring_available(r, w, size);
    lemma_ring_available(r2, w, size);
    let a2 = ring_available(r2, w, size);
    vstd::arithmetic::div_mod::lemma_mod_twice(r + n, size);
    lemma_mod_shift(r2, r + n, size);
    vstd::arithmetic::div_mod::lemma_small_mod(w as nat, size as nat);
    // (r + n) + (a - n) lands on w, and so does r2 + a2
    assert((r + n + (a - n)) % size == w);
    assert((r2 + (a - n)) % size == w);
    crate::hardware::lemma_mod_distinct_pub(
        r2 + if a2 <= a - n { a2 } else { a - n },
        r2 + if a2 <= a - n { a - n } else { a2 },
        size,
    );
    assert(a2 == a - n);
    let lhs = Seq::new(a2 as nat, |j: int| mem[(r2 + j) % size]);
    let rhs = Seq::new(a as nat, |j: int| mem[(r + j) % size]).skip(n);
    assert forall|j: int| 0 <= j < lhs.len() implies lhs[j] == rhs[j] by {
        assert((r2 + j) % size == (r + n + j) % size);
    }
    assert(lhs =~= rhs);
}

impl MemoryMappedBuffer {
    /// Positions are inside the map, which holds `size` bytes.
    pub closed spec fn well_formed(&self) -> bool {
        &&& mapped_bytes(self.mmap).len() == self.size
        &&& 0 < self.size <= isize::MAX
        &&& self.read_pos < self.size
        &&& self.write_pos < self.size
    }

    /// Size of the map in bytes.
    pub closed spec fn spec_size(&self) -> nat {
        self.size as nat
    }

    /// Maps `size` anonymous bytes; fails when the system refuses the map.
    pub fn new(buffer_id: u64, size: usize) -> (r: Result<Self, String>)
        ensures
            r matches Ok(b) ==> b@ == Seq::<u8>::empty() && b.spec_size() == size && (size > 0
                ==> b.well_formed()),
            r matches Err(e) ==> e@ == buffer_map_error(),
    {
        match mmap_anon(size) {
            Ok(mmap) => {
                let b = MemoryMappedBuffer { mmap, read_pos: 0, write_pos: 0, size, _buffer_id: buffer_id };
                assert(b@ =~= Seq::<u8>::empty());
                Ok(b)
            },
            Err(_) => Err("Failed to create memory mapped buffer".to_owned()),
        }
    }

    /// Number of buffered bytes.
    pub fn available_data(&self) -> (r: usize)
        requires
            self.well_formed(),
        ensures
            r == self@.len(),
    {
        let current_read = self.read_pos;
        let current_write = self.write_pos;
        if current_write >= current_read {
            current_write - current_read
        } else {
            self.size - (current_read - current_write)
        }
    }

    /// Number of bytes that can still be written.
    pub fn available_space(&self) -> (r: usize)
        requires
            self.well_formed(),
        ensures
            r == self.spec_size() - self@.len() - 1,
    {
        self.size - self.available_data() - 1
    }

    /// Appends `data` when it fits in the free space, wrapping around the end of the map.
    pub fn write_data(&mut self, data: &[u8]) -> (r: Result<usize, String>)
        requires
            old(self).well_formed(),
        ensures
            final(self).well_formed(),
            final(self).spec_size() == old(self).spec_size(),
            data@.len() > old(self).spec_size() - old(self)@.len() - 1 ==> (r matches Err(e)
                && e@ == "Insufficient buffer space"@) && final(self)@ == old(self)@,
            data@.len() <= old(self).spec_size() - old(self)@.len() - 1 ==> r == Ok::<usize, String>(
                data@.len() as usize,
            ) && final(self)@ == old(self)@ + data@,
    {
        let data_len = data.len();
        let current_write = self.write_pos;
        let current_read = self.read_pos;
        let available_space = if current_write >= current_read {
            self.size - (current_write - current_read) - 1
        } else {
            current_read - current_write - 1
        };
        if data_len > available_space {
            return Err("Insufficient buffer space".to_owned());
        }
        let ghost mem = mapped_bytes(self.mmap);
        let ghost old_view = self@;
        let size = self.size;
        if data_len <= size - current_write {
            mmap_write_at(&mut self.mmap, current_write, data, 0, data_len);
            proof {
                let mem2 = mapped_bytes(self.mmap);
                assert forall|i: int| 0 <= i < data_len implies mem2[#[trigger] ring_pos(current_write as int, i, size as int)] == data@[i] by {
                    assert((current_write + i) % (size as int) == current_write + i) by (nonlinear_arith)
                        requires
                            0 <= current_write + i < size,
                    ;
                }
                assert forall|p: int|
                    0 <= p < size && (forall|i: int| 0 <= i < data_len ==> #[trigger] ring_pos(current_write as int, i, size as int) != p)
                        implies mem2[p] == mem[p] by {
                    if current_write <= p < current_write + data_len {
                        let i = p - current_write;
                        assert((current_write + i) % (size as int) == p) by (nonlinear_arith)
                            requires
                                0 <= p < size,
                                i == p - current_write,
                        ;
                        assert(ring_pos(current_write as int, i, size as int) == p);
                    }
                }
                lemma_ring_write_view(mem, mem2, data@, current_read as int, current_write as int, size as int);
            }
        } else {
            let first_part = size - current_write;
            let second_part = data_len - first_part;
            mmap_write_at(&mut self.mmap, current_write, data, 0, first_part);
            let ghost mid = mapped_bytes(self.mmap);
            mmap_write_at(&mut self.mmap, 0, data, first_part, second_part);
            proof {
                let mem2 = mapped_bytes(self.mmap);
                assert forall|i: int| 0 <= i < data_len implies mem2[#[trigger] ring_pos(current_write as int, i, size as int)] == data@[i] by {
                    if i < first_part {
                        assert((current_write + i) % (size as int) == current_write + i) by (nonlinear_arith)
                            requires
                                0 <= current_write + i < size,
                        ;
                        assert(mid[current_write + i] == data@[i]);
                    } else {
                        assert((current_write + i) % (size as int) == i - first_part) by (nonlinear_arith)
                            requires
                                first_part == size - current_write,
                                first_part <= i < data_len,
                                data_len <= size,
                                size > 0,
                        ;
                    }
                }
                assert forall|p: int|
                    0 <= p < size && (forall|i: int| 0 <= i < data_len ==> #[trigger] ring_pos(current_write as int, i, size as int) != p)
                        implies mem2[p] == mem[p] by {
                    if p >= current_write {
                        let i = p - current_write;
                        assert((current_write + i) % (size as int) == p) by (nonlinear_arith)
                            requires
                                0 <= p < size,
                                i == p - current_write,
                        ;
                        assert(ring_pos(current_write as int, i, size as int) == p);
                    } else if p < second_part {
                        let i = first_part + p;
                        assert((current_write + i) % (size as int) == p) by (nonlinear_arith)
                            requires
                                first_part == size - current_write,
                                i == first_part + p,
                                0 <= p < size,
                        ;
                        assert(ring_pos(current_write as int, i, size as int) == p);
                    }
                }
                lemma_ring_write_view(mem, mem2, data@, current_read as int, current_write as int, size as int);
            }
        }
        let new_write_pos = (current_write + data_len) % size;
        self.write_pos = new_write_pos;
        proof {
            let a = ring_available(current_read as int, current_write as int, size as int);
            lemma_ring_available(current_read as int, current_write as int, size as int);
            lemma_ring_available(current_read as int, new_write_pos as int, size as int);
            let a2 = ring_available(current_read as int, new_write_pos as int, size as int);
            // both counts are below `size` and congruent, so they are equal
            assert((current_read + a + data_len) % (size as int) == new_write_pos) by {
                vstd::arithmetic::div_mod::lemma_small_mod(current_write as nat, size as nat);
                lemma_mod_shift(current_read + a, current_write as int, size as int);
            }
            crate::hardware::lemma_mod_distinct_pub(
                current_read + if a2 <= a + data_len { a2 } else { a + data_len },
                current_read + if a2 <= a + data_len { a + data_len } else { a2 },
                size as int,
            );
            assert(a2 == a + data_len);
            assert(self@ =~= old_view + data@);
        }
        Ok(data_len)
    }

    /// Moves up to `buffer.len()` buffered bytes into the front of `buffer`, oldest first,
    /// and returns how many were moved.
    pub fn read_data(&mut self, buffer: &mut [u8]) -> (r: Result<usize, String>)
        requires
            old(self).well_formed(),
        ensures
            final(self).well_formed(),
            final(self).spec_size() == old(self).spec_size(),
            ({
                let n = if old(buffer)@.len() < old(self)@.len() {
                    old(buffer)@.len()
                } else {
                    old(self)@.len()
                };
                &&& r == Ok::<usize, String>(n as usize)
                &&& final(buffer)@ == old(self)@.take(n as int) + old(buffer)@.skip(n as int)
                &&& final(self)@ == old(self)@.skip(n as int)
            }),
    {
        let buffer_len = buffer.len();
        let current_read = self.read_pos;
        let current_write = self.write_pos;
        let available_data = if current_write >= current_read {
            current_write - current_read
        } else {
            self.size - (current_read - current_write)
        };
        if available_data == 0 {
            proof {
                assert(buffer@ =~= self@.take(0) + buffer@.skip(0));
                assert(self@ =~= self@.skip(0));
            }
            return Ok(0);
        }
        let read_len = if buffer_len < available_data { buffer_len } else { available_data };
        let ghost old_view = self@;
        let ghost old_buf = buffer@;
        let ghost mem = mapped_bytes(self.mmap);
        let size = self.size;
        proof {
            lemma_ring_available(current_read as int, current_write as int, size as int);
        }
        if read_len <= size - current_read {
            mmap_read_into(&self.mmap, current_read, buffer, 0, read_len);
            proof {
                assert forall|j: int| 0 <= j < read_len implies buffer@[j] == old_view[j] by {
                    assert((current_read + j) % (size as int) == current_read + j) by (nonlinear_arith)
                        requires
                            0 <= current_read + j < size,
                    ;
                }
                assert(buffer@ =~= old_view.take(read_len as int) + old_buf.skip(read_len as int));
            }
        } else {
            let first_part = size - current_read;
            let second_part = read_len - first_part;
            mmap_read_into(&self.mmap, current_read, buffer, 0, first_part);
            let ghost mid = buffer@;
            mmap_read_into(&self.mmap, 0, buffer, first_part, second_part);
            proof {
                assert forall|j: int| 0 <= j < read_len implies buffer@[j] == old_view[j] by {
                    if j < first_part {
                        assert((current_read + j) % (size as int) == current_read + j) by (nonlinear_arith)
                            requires
                                0 <= current_read + j < size,
                        ;
                        assert(mid[j] == mem[current_read + j]);
                    } else {
                        assert((current_read + j) % (size as int) == j - first_part) by (nonlinear_arith)
                            requires
                                first_part == size - current_read,
                                first_part <= j < read_len,
                                read_len <= size,
                                size > 0,
                        ;
                    }
                }
                assert(buffer@ =~= old_view.take(read_len as int) + old_buf.skip(read_len as int));
            }
        }
        let new_read_pos = (current_read + read_len) % size;
        self.read_pos = new_read_pos;
        proof {
            lemma_ring_read_view(mem, current_read as int, current_write as int, size as int, read_len as int);
        }
        Ok(read_len)
    }
}


/// Bit `b` of a bitmap word.
pub open spec fn word_bit(w: u64, b: u64) -> bool {
    (w >> b) & 1u64 == 1u64
}

proof fn lemma_bit_clear(w: u64, k: u64, b: u64)
    requires
        k < 64,
        b < 64,
    ensures
        word_bit(w & !(1u64 << k), b) == (word_bit(w, b) && b != k),
{
    assert(((w & !(1u64 << k)) >> b) & 1u64 == 1u64 <==> (((w >> b) & 1u64 == 1u64) && b != k))
        by (bit_vector)
        requires
            k < 64,
            b < 64,
    ;
}

proof fn lemma_bit_set(w: u64, k: u64, b: u64)
    requires
        k < 64,
        b < 64,
    ensures
        word_bit(w | (1u64 << k), b) == (word_bit(w, b) || b == k),
{
    assert(((w | (1u64 << k)) >> b) & 1u64 == 1u64 <==> (((w >> b) & 1u64 == 1u64) || b == k))
        by (bit_vector)
        requires
            k < 64,
            b < 64,
    ;
}

proof fn lemma_low_mask(v: u64, b: u64)
    requires
        0 < v < 64,
        b < 64,
    ensures
        word_bit(((1u64 << v) - 1) as u64, b) == (b < v),
{
    assert(((((1u64 << v) - 1) as u64) >> b) & 1u64 == 1u64 <==> b < v) by (bit_vector)
        requires
            0 < v < 64,
            b < 64,
    ;
}

proof fn lemma_all_ones(b: u64)
    requires
        b < 64,
    ensures
        word_bit(u64::MAX, b),
{
    assert((0xffff_ffff_ffff_ffffu64 >> b) & 1u64 == 1u64) by (bit_vector)
        requires
            b < 64,
    ;
}

/// The lowest set bit of a non-zero word is set, and no lower bit is.
proof fn lemma_lowest_bit(w: u64)
    requires
        w != 0,
    ensures
        (w.trailing_zeros() as u64) < 64,
        word_bit(w, w.trailing_zeros() as u64),
        forall|b: u64| b < w.trailing_zeros() ==> !word_bit(w, b),
{
    broadcast use vstd::std_specs::bits::axiom_u64_trailing_zeros;

    let t = w.trailing_zeros() as u64;
    assert forall|b: u64| b < w.trailing_zeros() implies !word_bit(w, b) by {
        assert((w >> b) & 1u64 == 0u64);
    }
}

/// Rounds `block_size` up to a multiple of 64 bytes (a cache line).
pub open spec fn aligned_block_size(block_size: usize) -> int {
    (block_size + 63) / 64 * 64
}

/// Error of a pool whose memory could not be mapped.
pub open spec fn pool_map_error() -> Seq<char> {
    "Failed to create memory mapped region"@
}

/// Error of a ring buffer whose map the system refused.
pub open spec fn buffer_map_error() -> Seq<char> {
    "Failed to create memory mapped buffer"@
}

/// A fixed-size block handed out by a `SharedMemoryPool`: where it lies in the pool's
/// memory and which pool it belongs to.
#[derive(Debug)]
pub struct ZeroCopyBlock {
    offset: usize,
    size: usize,
    pool_id: u32,
    block_index: usize,
}

impl ZeroCopyBlock {
    /// Size of the block in bytes.
    pub closed spec fn spec_size(&self) -> usize {
        self.size
    }

    /// Id of the pool the block came from.
    pub closed spec fn spec_pool_id(&self) -> u32 {
        self.pool_id
    }

    /// Index of the block in its pool.
    pub closed spec fn spec_index(&self) -> usize {
        self.block_index
    }

    /// Byte offset of the block in its pool's memory.
    pub closed spec fn spec_offset(&self) -> usize {
        self.offset
    }

    /// Size of the block in bytes.
    pub fn size(&self) -> (r: usize)
        ensures
            r == self.spec_size(),
    {
        self.size
    }

    /// Id of the pool the block came from.
    pub fn pool_id(&self) -> (r: u32)
        ensures
            r == self.spec_pool_id(),
    {
        self.pool_id
    }

    /// Index of the block in its pool.
    pub fn block_index(&self) -> (r: usize)
        ensures
            r == self.spec_index(),
    {
        self.block_index
    }

    /// Byte offset of the block in its pool's memory.
    pub fn offset(&self) -> (r: usize)
        ensures
            r == self.spec_offset(),
    {
        self.offset
    }
}

/// Pool of equal blocks carved out of one anonymous memory map; a bitmap (one bit per
/// block, set when free) records which blocks are free.
pub struct SharedMemoryPool {
    memory_region: MmapMut,
    free_blocks: Vec<u64>,
    block_size: usize,
    total_blocks: usize,
    allocator_head: usize,
    pool_id: u32,
}

impl SharedMemoryPool {
    /// The bitmap words.
    pub closed spec fn words(&self) -> Seq<u64> {
        self.free_blocks@
    }

    /// Whether block `i` exists and is free.
    pub closed spec fn is_free(&self, i: int) -> bool {
        &&& 0 <= i < self.total_blocks
        &&& word_bit(self.free_blocks@[i / 64], (i % 64) as u64)
    }

    /// Bytes per block.
    pub closed spec fn spec_block_size(&self) -> usize {
        self.block_size
    }

    /// Number of blocks.
    pub closed spec fn spec_total_blocks(&self) -> usize {
        self.total_blocks
    }

    /// The pool's id.
    pub closed spec fn spec_pool_id(&self) -> u32 {
        self.pool_id
    }

    /// Where the next search starts (64 times a bitmap word index).
    pub closed spec fn spec_head(&self) -> usize {
        self.allocator_head
    }

    /// The map holds every block, blocks are whole cache lines, the bitmap has one
    /// bit per block rounded up to whole words.
    pub closed spec fn well_formed(&self) -> bool {
        &&& self.free_blocks@.len() == (self.total_blocks + 63) / 64
        &&& self.block_size > 0
        &&& self.block_size % 64 == 0
        &&& mapped_bytes(self.memory_region).len() == self.total_blocks * self.block_size
        &&& self.total_blocks * self.block_size <= isize::MAX
        &&& self.allocator_head <= self.total_blocks * 64
    }

    /// Whether bitmap word `k` holds a free block; then its lowest set bit is one.
    pub closed spec fn word_has_free(&self, k: int) -> bool {
        &&& 0 <= k < self.free_blocks@.len()
        &&& self.free_blocks@[k] != 0
        &&& k * 64 + self.free_blocks@[k].trailing_zeros() < self.total_blocks
    }

    /// The block the allocator hands out: the lowest free block of the first word,
    /// scanning the bitmap round from word `head / 64`, that holds a free block.
    pub closed spec fn scan_choice(&self, idx: int) -> bool {
        let len = self.free_blocks@.len() as int;
        let s = (self.allocator_head / 64) as int;
        exists|a: int|
            #![trigger (s + a) % len]
            0 <= a < len && idx / 64 == (s + a) % len && self.word_has_free(idx / 64) && idx % 64
                == self.free_blocks@[idx / 64].trailing_zeros() && forall|a2: int|
                0 <= a2 < a ==> !#[trigger] self.word_has_free((s + a2) % len)
    }

    proof fn lemma_free_word(&self, i: int)
        requires
            self.well_formed(),
            self.is_free(i),
        ensures
            self.word_has_free(i / 64),
            i / 64 * 64 + self.free_blocks@[i / 64].trailing_zeros() <= i,
    {
        let k = i / 64;
        let w = self.free_blocks@[k];
        assert(0 <= k < self.free_blocks@.len()) by {
            vstd::arithmetic::div_mod::lemma_div_is_ordered(i, self.total_blocks - 1, 64);
            vstd::arithmetic::div_mod::lemma_fundamental_div_mod(self.total_blocks + 63, 64);
            vstd::arithmetic::div_mod::lemma_fundamental_div_mod(self.total_blocks - 1, 64);
        }
        assert(w != 0) by {
            if w == 0 {
                let b = (i % 64) as u64;
                assert((0u64 >> b) & 1u64 == 0u64) by (bit_vector);
            }
        }
        lemma_lowest_bit(w);
        assert(w.trailing_zeros() <= i % 64);
    }

    /// Maps `total_size / aligned` blocks of `aligned` bytes, where `aligned` is
    /// `block_size` rounded up to a multiple of 64, all free.
    pub fn new(pool_id: u32, total_size: usize, block_size: usize) -> (r: Result<Self, String>)
        requires
            0 < block_size,
            block_size + 63 <= usize::MAX,
        ensures
            r matches Err(e) ==> e@ == pool_map_error(),
            r matches Ok(p) ==> {
                &&& p.well_formed()
                &&& p.spec_pool_id() == pool_id
                &&& p.spec_block_size() == aligned_block_size(block_size)
                &&& p.spec_total_blocks() == (total_size as int) / aligned_block_size(block_size)
                &&& p.spec_head() == 0
                &&& forall|i: int| p.is_free(i) <==> 0 <= i < p.spec_total_blocks()
            },
    {
        let x = block_size + 63;
        let aligned_block_size = x & !63usize;
        assert(aligned_block_size == x - x % 64) by (bit_vector)
            requires
                aligned_block_size == x & !63usize,
        ;
        assert(aligned_block_size == (block_size + 63) / 64 * 64 && aligned_block_size >= 64) by {
            vstd::arithmetic::div_mod::lemma_fundamental_div_mod(x as int, 64);
        }
        let total_blocks = total_size / aligned_block_size;
        assert(total_blocks * aligned_block_size <= total_size) by {
            vstd::arithmetic::div_mod::lemma_fundamental_div_mod(total_size as int, aligned_block_size as int);
        }
        assert(total_blocks * 64 <= total_blocks * aligned_block_size) by (nonlinear_arith)
            requires
                aligned_block_size >= 64,
        ;
        let memory_region = match mmap_anon(total_blocks * aligned_block_size) {
            Ok(m) => m,
            Err(_) => {
                return Err("Failed to create memory mapped region".to_owned());
            },
        };
        let bitmap_size = (total_blocks + 63) / 64;
        let mut free_blocks: Vec<u64> = Vec::new();
        let mut i: usize = 0;
        while i < bitmap_size
            invariant
                bitmap_size == (total_blocks + 63) / 64,
                i <= bitmap_size,
                free_blocks@.len() == i,
                forall|j: int, b: u64|
                    0 <= j < i && b < 64 ==> (#[trigger] word_bit(free_blocks@[j], b) <==> j * 64 + b
                        < total_blocks),
            decreases bitmap_size - i,
        {
            let bits = if i == bitmap_size - 1 && total_blocks % 64 != 0 {
                let valid_bits = (total_blocks % 64) as u64;
                assert(1u64 << valid_bits >= 1) by (bit_vector)
                    requires
                        valid_bits < 64,
                ;
                (1u64 << valid_bits) - 1
            } else {
                u64::MAX
            };
            proof {
                assert forall|b: u64| b < 64 implies (word_bit(bits, b) <==> i * 64 + b < total_blocks) by {
                    vstd::arithmetic::div_mod::lemma_fundamental_div_mod(total_blocks as int, 64);
                    vstd::arithmetic::div_mod::lemma_fundamental_div_mod(total_blocks + 63, 64);
                    if i == bitmap_size - 1 && total_blocks % 64 != 0 {
                        let v = (total_blocks % 64) as u64;
                        lemma_low_mask(v, b);
                    } else {
                        lemma_all_ones(b);
                    }
                }
            }
            free_blocks.push(bits);
            i = i + 1;
        }
        let pool = SharedMemoryPool {
            memory_region,
            free_blocks,
            block_size: aligned_block_size,
            total_blocks,
            allocator_head: 0,
            pool_id,
        };
        proof {
            assert forall|k: int| pool.is_free(k) <==> 0 <= k < total_blocks by {
                if 0 <= k < total_blocks {
                    vstd::arithmetic::div_mod::lemma_fundamental_div_mod(k, 64);
                    vstd::arithmetic::div_mod::lemma_fundamental_div_mod(total_blocks + 63, 64);
                    assert(word_bit(pool.free_blocks@[k / 64], (k % 64) as u64));
                }
            }
        }
        Ok(pool)
    }

    /// Takes the free block the scan finds first (see `scan_choice`) and marks it
    /// used; the next scan starts one word further. None when no block is free.
    pub fn allocate_block(&mut self) -> (r: Option<ZeroCopyBlock>)
        requires
            old(self).well_formed(),
        ensures
            final(self).well_formed(),
            final(self).spec_pool_id() == old(self).spec_pool_id(),
            final(self).spec_block_size() == old(self).spec_block_size(),
            final(self).spec_total_blocks() == old(self).spec_total_blocks(),
            r is None <==> forall|i: int| !old(self).is_free(i),
            r is None ==> *final(self) == *old(self),
            r matches Some(b) ==> {
                let i = b.spec_index() as int;
                &&& old(self).is_free(i)
                &&& old(self).scan_choice(i)
                &&& b.spec_size() == old(self).spec_block_size()
                &&& b.spec_pool_id() == old(self).spec_pool_id()
                &&& b.spec_offset() == i * old(self).spec_block_size()
                &&& final(self).words() == old(self).words().update(
                    i / 64,
                    old(self).words()[i / 64] & !(1u64 << ((i % 64) as u64)),
                )
                &&& forall|j: int| final(self).is_free(j) <==> (old(self).is_free(j) && j != i)
                &&& final(self).spec_head() == (i + 1) * 64
            },
    {
        let len = self.free_blocks.len();
        let ghost old_self = *self;
        if len == 0 {
            proof {
                assert forall|i: int| !old_self.is_free(i) by {
                    if old_self.is_free(i) {
                        old_self.lemma_free_word(i);
                    }
                }
            }
            return None;
        }
        let start_index = self.allocator_head / 64;
        let mut attempt: usize = 0;
        while attempt < len
            invariant
                *self == old_self,
                old_self == *old(self),
                len == self.free_blocks@.len(),
                len > 0,
                start_index == self.allocator_head / 64,
                self.well_formed(),
                attempt <= len,
                forall|a2: int|
                    0 <= a2 < attempt ==> !#[trigger] self.word_has_free((start_index + a2) % (len as int)),
            decreases len - attempt,
        {
            let bitmap_index = (start_index + attempt) % len;
            let current = self.free_blocks[bitmap_index];
            if current != 0 {
                proof {
                    lemma_lowest_bit(current);
                }
                let bit_pos = current.trailing_zeros() as usize;
                let block_index = bitmap_index * 64 + bit_pos;
                if block_index < self.total_blocks {
                    assert(self.block_size >= 64) by {
                        vstd::arithmetic::div_mod::lemma_fundamental_div_mod(self.block_size as int, 64);
                    }
                    assert(block_index * self.block_size < self.total_blocks * self.block_size
                        && (block_index + 1) * 64 <= self.total_blocks * 64
                        && self.total_blocks * 64 <= self.total_blocks * self.block_size)
                        by (nonlinear_arith)
                        requires
                            block_index < self.total_blocks,
                            self.block_size >= 64,
                    ;
                    let mask = 1u64 << (bit_pos as u64);
                    let cleared = current & !mask;
                    self.free_blocks.set(bitmap_index, cleared);
                    let offset = block_index * self.block_size;
                    self.allocator_head = (block_index + 1) * 64;
                    proof {
                        let i = block_index as int;
                        assert(i / 64 == bitmap_index && i % 64 == bit_pos) by {
                            vstd::arithmetic::div_mod::lemma_fundamental_div_mod_converse(
                                i,
                                64,
                                bitmap_index as int,
                                bit_pos as int,
                            );
                        }
                        assert(old_self.word_has_free(bitmap_index as int));
                        assert(old_self.scan_choice(i)) by {
                            let s = (old_self.allocator_head / 64) as int;
                            assert(i / 64 == (s + attempt) % (len as int));
                        }
                        assert(old_self.is_free(i)) by {
                            assert(word_bit(current, bit_pos as u64));
                        }
                        assert forall|j: int| self.is_free(j) <==> (old_self.is_free(j) && j != i) by {
                            if 0 <= j < self.total_blocks {
                                vstd::arithmetic::div_mod::lemma_fundamental_div_mod(j, 64);
                                lemma_bit_clear(current, bit_pos as u64, (j % 64) as u64);
                                if j / 64 == bitmap_index && j % 64 == bit_pos {
                                    vstd::arithmetic::div_mod::lemma_fundamental_div_mod(j, 64);
                                }
                            }
                        }
                        assert(offset == i * old_self.block_size);
                        assert((i + 1) * 64 <= self.total_blocks * 64);
                    }
                    return Some(ZeroCopyBlock { offset, size: self.block_size, pool_id: self.pool_id, block_index });
                }
            }
            proof {
                assert(!self.word_has_free(bitmap_index as int));
            }
            attempt = attempt + 1;
        }
        proof {
            let s = start_index as int;
            let l = len as int;
            assert forall|i: int| !old_self.is_free(i) by {
                if old_self.is_free(i) {
                    old_self.lemma_free_word(i);
                    let k = i / 64;
                    let a = (k + l - s % l) % l;
                    assert((s + a) % l == k) by {
                        vstd::arithmetic::div_mod::lemma_mod_bound(s, l);
                        vstd::arithmetic::div_mod::lemma_add_mod_noop(s, a, l);
                        vstd::arithmetic::div_mod::lemma_mod_bound(k + l - s % l, l);
                        if k >= s % l {
                            vstd::arithmetic::div_mod::lemma_mod_add_multiples_vanish(k - s % l, l);
                            vstd::arithmetic::div_mod::lemma_small_mod((k - s % l) as nat, l as nat);
                            vstd::arithmetic::div_mod::lemma_small_mod(k as nat, l as nat);
                        } else {
                            vstd::arithmetic::div_mod::lemma_small_mod((k + l - s % l) as nat, l as nat);
                            vstd::arithmetic::div_mod::lemma_mod_add_multiples_vanish(k, l);
                            vstd::arithmetic::div_mod::lemma_small_mod(k as nat, l as nat);
                        }
                        vstd::arithmetic::div_mod::lemma_small_mod(a as nat, l as nat);
                    }
                    assert(!old_self.word_has_free((s + a) % l));
                }
            }
        }
        None
    }

    /// Marks a block of this pool free again. A block of another pool (by id), or
    /// one past the bitmap, leaves the pool unchanged.
    pub fn deallocate_block(&mut self, block: ZeroCopyBlock)
        requires
            old(self).well_formed(),
        ensures
            final(self).well_formed(),
            final(self).spec_pool_id() == old(self).spec_pool_id(),
            final(self).spec_block_size() == old(self).spec_block_size(),
            final(self).spec_total_blocks() == old(self).spec_total_blocks(),
            final(self).spec_head() == old(self).spec_head(),
            ({
                let i = block.spec_index() as int;
                if block.spec_pool_id() == old(self).spec_pool_id() && i / 64 < old(self).words().len() {
                    &&& final(self).words() == old(self).words().update(
                        i / 64,
                        old(self).words()[i / 64] | (1u64 << ((i % 64) as u64)),
                    )
                    &&& forall|j: int|
                        final(self).is_free(j) <==> (old(self).is_free(j) || (j == i && i
                            < old(self).spec_total_blocks()))
                } else {
                    final(self).words() == old(self).words()
                }
            }),
    {
        if block.pool_id != self.pool_id {
            return;
        }
        let bitmap_index = block.block_index / 64;
        let bit_pos = block.block_index % 64;
        let mask = 1u64 << (bit_pos as u64);
        if bitmap_index < self.free_blocks.len() {
            let ghost old_self = *self;
            let w = self.free_blocks[bitmap_index];
            self.free_blocks.set(bitmap_index, w | mask);
            proof {
                let i = block.block_index as int;
                assert forall|j: int|
                    self.is_free(j) <==> (old_self.is_free(j) || (j == i && i < self.total_blocks)) by {
                    if 0 <= j < self.total_blocks {
                        vstd::arithmetic::div_mod::lemma_fundamental_div_mod(j, 64);
                        vstd::arithmetic::div_mod::lemma_fundamental_div_mod(i, 64);
                        lemma_bit_set(w, bit_pos as u64, (j % 64) as u64);
                    }
                }
            }
        }
    }
}


/// Number of set bits among the low `n` bits of a word.
pub open spec fn ones_below(w: u64, n: nat) -> nat
    decreases n,
{
    if n == 0 {
        0
    } else {
        ones_below(w, (n - 1) as nat) + if word_bit(w, (n - 1) as u64) {
            1nat
        } else {
            0nat
        }
    }
}

/// Number of set bits of all words.
pub open spec fn total_ones(words: Seq<u64>) -> nat
    decreases words.len(),
{
    if words.len() == 0 {
        0
    } else {
        total_ones(words.drop_last()) + ones_below(words.last(), 64)
    }
}

proof fn lemma_ones_below_bound(w: u64, n: nat)
    ensures
        ones_below(w, n) <= n,
    decreases n,
{
    if n > 0 {
        lemma_ones_below_bound(w, (n - 1) as nat);
    }
}

proof fn lemma_total_ones_bound(words: Seq<u64>)
    ensures
        total_ones(words) <= 64 * words.len(),
    decreases words.len(),
{
    if words.len() > 0 {
        lemma_total_ones_bound(words.drop_last());
        lemma_ones_below_bound(words.last(), 64);
    }
}

/// Counts the set bits of a word.
fn count_ones(w: u64) -> (r: u32)
    ensures
        r == ones_below(w, 64),
{
    let mut count: u32 = 0;
    let mut b: u64 = 0;
    while b < 64
        invariant
            b <= 64,
            count == ones_below(w, b as nat),
            count <= b,
        decreases 64 - b,
    {
        proof {
            lemma_ones_below_bound(w, b as nat);
        }
        if (w >> b) & 1u64 == 1u64 {
            count = count + 1;
        }
        b = b + 1;
    }
    count
}

impl SharedMemoryPool {
    /// Number of set bits in the bitmap (the free blocks, when no bit beyond the last
    /// block has been set).
    pub fn available_blocks(&self) -> (r: usize)
        requires
            self.well_formed(),
        ensures
            r == total_ones(self.words()),
    {
        let mut sum: usize = 0;
        let mut k: usize = 0;
        proof {
            lemma_total_ones_bound(self.free_blocks@);
            vstd::arithmetic::div_mod::lemma_fundamental_div_mod(self.total_blocks + 63, 64);
            assert(self.total_blocks * 64 <= self.total_blocks * self.block_size) by (nonlinear_arith)
                requires
                    self.block_size > 0,
                    self.block_size % 64 == 0,
            {
                vstd::arithmetic::div_mod::lemma_fundamental_div_mod(self.block_size as int, 64);
            }
        }
        while k < self.free_blocks.len()
            invariant
                self.well_formed(),
                k <= self.free_blocks@.len(),
                sum == total_ones(self.free_blocks@.take(k as int)),
                64 * self.free_blocks@.len() <= isize::MAX + 64,
            decreases self.free_blocks@.len() - k,
        {
            proof {
                assert(self.free_blocks@.take(k + 1).drop_last() =~= self.free_blocks@.take(k as int));
                lemma_total_ones_bound(self.free_blocks@.take(k + 1));
            }
            let c = count_ones(self.free_blocks[k]);
            sum = sum + c as usize;
            k = k + 1;
        }
        assert(self.free_blocks@.take(k as int) =~= self.free_blocks@);
        sum
    }
}

/// Error of a write larger than the block.
pub open spec fn block_too_small_error() -> Seq<char> {
    "Data too large for block"@
}

/// Error of a read longer than the block.
pub open spec fn read_too_long_error() -> Seq<char> {
    "Read length exceeds block size"@
}

impl SharedMemoryPool {
    /// Whether `block` was handed out by this pool (same id, its own index, size and
    /// offset).
    pub open spec fn holds(&self, block: &ZeroCopyBlock) -> bool {
        &&& block.spec_pool_id() == self.spec_pool_id()
        &&& block.spec_index() < self.spec_total_blocks()
        &&& block.spec_size() == self.spec_block_size()
        &&& block.spec_offset() == block.spec_index() * self.spec_block_size()
    }

    /// The bytes of the pool's memory.
    pub closed spec fn memory(&self) -> Seq<u8> {
        mapped_bytes(self.memory_region)
    }

    proof fn lemma_block_inside(&self, block: &ZeroCopyBlock)
        requires
            self.well_formed(),
            self.holds(block),
        ensures
            block.spec_offset() + block.spec_size() <= self.memory().len(),
    {
        assert(block.spec_index() * self.block_size + self.block_size <= self.total_blocks
            * self.block_size) by (nonlinear_arith)
            requires
                block.spec_index() < self.total_blocks,
                self.block_size > 0,
        ;
    }
}

impl ZeroCopyBlock {
    /// Writes `data` at the start of the block; data longer than the block is refused.
    pub fn write_bytes(&self, pool: &mut SharedMemoryPool, data: &[u8]) -> (r: Result<(), String>)
        requires
            old(pool).well_formed(),
            old(pool).holds(self),
        ensures
            final(pool).well_formed(),
            final(pool).words() == old(pool).words(),
            final(pool).spec_head() == old(pool).spec_head(),
            final(pool).spec_pool_id() == old(pool).spec_pool_id(),
            final(pool).spec_block_size() == old(pool).spec_block_size(),
            final(pool).spec_total_blocks() == old(pool).spec_total_blocks(),
            data@.len() > self.spec_size() ==> (r matches Err(e) && e@ == block_too_small_error()
                && final(pool).memory() == old(pool).memory()),
            data@.len() <= self.spec_size() ==> (r is Ok && final(pool).memory() == old(pool).memory().subrange(
                0,
                self.spec_offset() as int,
            ) + data@ + old(pool).memory().subrange(
                self.spec_offset() + data@.len(),
                old(pool).memory().len() as int,
            )),
    {
        if data.len() > self.size {
            return Err("Data too large for block".to_owned());
        }
        proof {
            pool.lemma_block_inside(self);
        }
        mmap_write_at(&mut pool.memory_region, self.offset, data, 0, data.len());
        assert(data@.subrange(0, data@.len() as int) =~= data@);
        Ok(())
    }

    /// Copies the first `len` bytes of the block; a length beyond the block is refused.
    pub fn read_bytes(&self, pool: &SharedMemoryPool, len: usize) -> (r: Result<Vec<u8>, String>)
        requires
            pool.well_formed(),
            pool.holds(self),
        ensures
            len > self.spec_size() ==> (r matches Err(e) && e@ == read_too_long_error()),
            len <= self.spec_size() ==> (r matches Ok(v) && v@ == pool.memory().subrange(
                self.spec_offset() as int,
                self.spec_offset() + len,
            )),
    {
        if len > self.size {
            return Err("Read length exceeds block size".to_owned());
        }
        proof {
            pool.lemma_block_inside(self);
        }
        let mut out: Vec<u8> = Vec::new();
        let mut i: usize = 0;
        while i < len
            invariant
                i <= len,
                out@.len() == i,
            decreases len - i,
        {
            out.push(0u8);
            i = i + 1;
        }
        mmap_read_into(&pool.memory_region, self.offset, out.as_mut_slice(), 0, len);
        assert(out@ =~= pool.memory().subrange(self.offset as int, self.offset + len));
        Ok(out)
    }
}


/// Description of one DMA transfer.
#[derive(Debug, Clone, Copy)]
pub struct DMATransfer {
    pub src_addr: usize,
    pub dst_addr: usize,
    pub size: usize,
    pub flags: u32,
}

/// Counters of the DMA manager.
#[derive(Debug, Clone, Copy)]
pub struct DMAStats {
    pub bytes_transferred: u64,
    pub transfers_completed: u64,
    pub transfer_errors: u64,
}

impl DMAStats {
    /// All counters at zero.
    pub fn new() -> (r: Self)
        ensures
            r.bytes_transferred == 0 && r.transfers_completed == 0 && r.transfer_errors == 0,
    {
        DMAStats { bytes_transferred: 0, transfers_completed: 0, transfer_errors: 0 }
    }
}

/// One copy channel of the DMA manager.
#[derive(Debug)]
pub struct DMAChannel {
    _channel_id: usize,
}

impl DMAChannel {
    /// The channel's id.
    pub closed spec fn spec_channel_id(&self) -> usize {
        self._channel_id
    }

    /// A channel with the given id.
    pub fn new(channel_id: usize) -> (r: Result<Self, String>)
        ensures
            r matches Ok(c) && c.spec_channel_id() == channel_id,
    {
        Ok(DMAChannel { _channel_id: channel_id })
    }

    /// Copies `src` into `dst`, which has the same length, and returns that length.
    pub fn transfer(&self, src: &[u8], dst: &mut [u8]) -> (r: Result<usize, String>)
        requires
            src@.len() == old(dst)@.len(),
        ensures
            r == Ok::<usize, String>(src@.len() as usize),
            final(dst)@ == src@,
    {
        let n = src.len();
        let mut i: usize = 0;
        while i < n
            invariant
                n == src@.len(),
                dst@.len() == n,
                i <= n,
                forall|j: int| 0 <= j < i ==> dst@[j] == src@[j],
            decreases n - i,
        {
            dst[i] = src[i];
            i = i + 1;
        }
        assert(dst@ =~= src@);
        Ok(n)
    }
}

/// Error of a transfer between buffers of different lengths.
pub open spec fn dma_size_error() -> Seq<char> {
    "Source and destination sizes don't match"@
}

/// Copies buffers over a round-robin of channels and counts the traffic.
pub struct DirectMemoryAccessManager {
    dma_channels: Vec<DMAChannel>,
    channel_allocator: usize,
    dma_stats: DMAStats,
}

impl DirectMemoryAccessManager {
    /// Number of channels.
    pub closed spec fn spec_channels(&self) -> nat {
        self.dma_channels@.len()
    }

    /// Number of channel picks so far (wrapping).
    pub closed spec fn spec_picks(&self) -> usize {
        self.channel_allocator
    }

    /// The traffic counters.
    pub closed spec fn spec_stats(&self) -> DMAStats {
        self.dma_stats
    }

    /// A manager with `num_channels` channels and zero counters.
    pub fn new(num_channels: usize) -> (r: Result<Self, String>)
        ensures
            r matches Ok(m) && m.spec_channels() == num_channels && m.spec_picks() == 0
                && m.spec_stats().bytes_transferred == 0 && m.spec_stats().transfers_completed == 0
                && m.spec_stats().transfer_errors == 0,
    {
        let mut dma_channels: Vec<DMAChannel> = Vec::new();
        let mut i: usize = 0;
        while i < num_channels
            invariant
                i <= num_channels,
                dma_channels@.len() == i,
            decreases num_channels - i,
        {
            let channel = match DMAChannel::new(i) {
                Ok(c) => c,
                Err(e) => {
                    return Err(e);
                },
            };
            dma_channels.push(channel);
            i = i + 1;
        }
        Ok(DirectMemoryAccessManager { dma_channels, channel_allocator: 0, dma_stats: DMAStats::new() })
    }

    /// The traffic counters.
    pub fn stats(&self) -> (r: &DMAStats)
        ensures
            *r == self.spec_stats(),
    {
        &self.dma_stats
    }

    /// Copies `src` into `dst` on the next channel in turn; buffers of different
    /// lengths are refused before a channel is picked. Counters wrap as atomics do.
    pub fn dma_transfer(&mut self, src: &[u8], dst: &mut [u8]) -> (r: Result<usize, String>)
        requires
            old(self).spec_channels() > 0,
        ensures
            final(self).spec_channels() == old(self).spec_channels(),
            src@.len() != old(dst)@.len() ==> (r matches Err(e) && e@ == dma_size_error()
                && *final(self) == *old(self) && final(dst)@ == old(dst)@),
            src@.len() == old(dst)@.len() ==> {
                &&& r == Ok::<usize, String>(src@.len() as usize)
                &&& final(dst)@ == src@
                &&& final(self).spec_picks() == vstd::wrapping::usize_specs::wrapping_add(
                    old(self).spec_picks(),
                    1,
                )
                &&& final(self).spec_stats().bytes_transferred
                    == vstd::wrapping::u64_specs::wrapping_add(
                    old(self).spec_stats().bytes_transferred,
                    src@.len() as u64,
                )
                &&& final(self).spec_stats().transfers_completed
                    == vstd::wrapping::u64_specs::wrapping_add(
                    old(self).spec_stats().transfers_completed,
                    1,
                )
                &&& final(self).spec_stats().transfer_errors == old(self).spec_stats().transfer_errors
            },
    {
        if src.len() != dst.len() {
            return Err("Source and destination sizes don't match".to_owned());
        }
        let channel_index = self.channel_allocator % self.dma_channels.len();
        self.channel_allocator = self.channel_allocator.wrapping_add(1);
        let transferred = match self.dma_channels[channel_index].transfer(src, dst) {
            Ok(n) => n,
            Err(e) => {
                return Err(e);
            },
        };
        self.dma_stats.bytes_transferred = self.dma_stats.bytes_transferred.wrapping_add(
            transferred as u64,
        );
        self.dma_stats.transfers_completed = self.dma_stats.transfers_completed.wrapping_add(1);
        Ok(transferred)
    }
}

/// Counters of the zero-copy memory manager.
#[derive(Debug, Clone, Copy)]
pub struct ZeroCopyStats {
    pub blocks_allocated: u64,
    pub blocks_freed: u64,
    pub bytes_transferred: u64,
    pub mmap_buffer_usage: u64,
}

impl ZeroCopyStats {
    /// All counters at zero.
    pub fn new() -> (r: Self)
        ensures
            r.blocks_allocated == 0 && r.blocks_freed == 0 && r.bytes_transferred == 0
                && r.mmap_buffer_usage == 0,
    {
        ZeroCopyStats { blocks_allocated: 0, blocks_freed: 0, bytes_transferred: 0, mmap_buffer_usage: 0 }
    }

    /// Blocks handed out and not yet returned (zero when more were freed).
    pub fn active_blocks(&self) -> (r: u64)
        ensures
            r == (if self.blocks_allocated >= self.blocks_freed {
                self.blocks_allocated - self.blocks_freed
            } else {
                0
            }),
    {
        self.blocks_allocated.saturating_sub(self.blocks_freed)
    }
}

/// Block size of the small pool (64 KiB).
pub const SMALL_BLOCK_SIZE: usize = 65536;

/// Block size of the medium pool (1 MiB).
pub const MEDIUM_BLOCK_SIZE: usize = 1048576;

/// Block size of the large pool (16 MiB).
pub const LARGE_BLOCK_SIZE: usize = 16777216;

/// The pool a request of `size` bytes is served from: small up to 64 KiB, medium up
/// to 1 MiB, large beyond.
pub open spec fn pool_for_size(size: usize) -> int {
    if size <= SMALL_BLOCK_SIZE {
        0
    } else if size <= MEDIUM_BLOCK_SIZE {
        1
    } else {
        2
    }
}

/// Three block pools (64 KiB, 1 MiB and 16 MiB blocks), eight 256 MiB ring buffers, a
/// 16-channel DMA manager and the counters over them.
pub struct ZeroCopyMemoryManager {
    shared_pools: Vec<SharedMemoryPool>,
    mmap_buffers: Vec<MemoryMappedBuffer>,
    dma_manager: DirectMemoryAccessManager,
    stats: ZeroCopyStats,
}

impl ZeroCopyMemoryManager {
    /// The block pools, by id.
    pub closed spec fn pools(&self) -> Seq<SharedMemoryPool> {
        self.shared_pools@
    }

    /// The counters.
    pub closed spec fn spec_stats(&self) -> ZeroCopyStats {
        self.stats
    }

    /// Number of ring buffers.
    pub closed spec fn spec_buffer_count(&self) -> nat {
        self.mmap_buffers@.len()
    }

    /// Three well-formed pools, each with its index as id.
    pub closed spec fn well_formed(&self) -> bool {
        &&& self.shared_pools@.len() == 3
        &&& forall|k: int|
            0 <= k < 3 ==> #[trigger] self.shared_pools@[k].well_formed()
                && self.shared_pools@[k].spec_pool_id() == k
        &&& self.dma_manager.spec_channels() > 0
    }

    /// Maps the pools (1 GiB of 64 KiB blocks, 4 GiB of 1 MiB blocks, 8 GiB of 16 MiB
    /// blocks), the buffers and the DMA channels; fails when a map is refused.
    pub fn new() -> (r: Result<Self, String>)
        ensures
            r matches Ok(m) ==> {
                &&& m.well_formed()
                &&& m.pools()[0].spec_block_size() == SMALL_BLOCK_SIZE
                &&& m.pools()[1].spec_block_size() == MEDIUM_BLOCK_SIZE
                &&& m.pools()[2].spec_block_size() == LARGE_BLOCK_SIZE
                &&& m.pools()[0].spec_total_blocks() == 16384
                &&& m.pools()[1].spec_total_blocks() == 4096
                &&& m.pools()[2].spec_total_blocks() == 512
                &&& forall|k: int, i: int|
                    0 <= k < 3 ==> (#[trigger] m.pools()[k].is_free(i) <==> 0 <= i < m.pools()[k].spec_total_blocks())
                &&& m.spec_buffer_count() == 8
                &&& m.spec_stats().blocks_allocated == 0
                &&& m.spec_stats().blocks_freed == 0
                &&& m.spec_stats().bytes_transferred == 0
                &&& m.spec_stats().mmap_buffer_usage == 0
                &&& m.spec_dma_manager().spec_channels() == 16
            },
            r matches Err(e) ==> e@ == pool_map_error() || e@ == buffer_map_error(),
    {
        let mut shared_pools: Vec<SharedMemoryPool> = Vec::new();
        let small = match SharedMemoryPool::new(0, 1073741824usize, SMALL_BLOCK_SIZE) {
            Ok(p) => p,
            Err(e) => {
                return Err(e);
            },
        };
        assert(aligned_block_size(SMALL_BLOCK_SIZE) == 65536 && small.spec_total_blocks() == 16384);
        shared_pools.push(small);
        // 4 GiB and 8 GiB do not fit a 32-bit address space: no map can be made there.
        let gib: usize = 1073741824;
        let (medium_total, large_total) = match (gib.checked_mul(4), gib.checked_mul(8)) {
            (Some(m), Some(l)) => (m, l),
            _ => {
                return Err("Failed to create memory mapped region".to_owned());
            },
        };
        assert(medium_total == 4294967296 && large_total == 8589934592);
        let medium = match SharedMemoryPool::new(1, medium_total, MEDIUM_BLOCK_SIZE) {
            Ok(p) => p,
            Err(e) => {
                return Err(e);
            },
        };
        assert(aligned_block_size(MEDIUM_BLOCK_SIZE) == 1048576);
        assert(4294967296int / 1048576int == 4096) by (nonlinear_arith);
        shared_pools.push(medium);
        let large = match SharedMemoryPool::new(2, large_total, LARGE_BLOCK_SIZE) {
            Ok(p) => p,
            Err(e) => {
                return Err(e);
            },
        };
        shared_pools.push(large);
        let mut mmap_buffers: Vec<MemoryMappedBuffer> = Vec::new();
        let mut i: u64 = 0;
        while i < 8
            invariant
                i <= 8,
                mmap_buffers@.len() == i,
            decreases 8 - i,
        {
            let buffer = match MemoryMappedBuffer::new(i, 268435456) {
                Ok(b) => b,
                Err(e) => {
                    return Err(e);
                },
            };
            mmap_buffers.push(buffer);
            i = i + 1;
        }
        let dma_manager = match DirectMemoryAccessManager::new(16) {
            Ok(d) => d,
            Err(e) => {
                return Err(e);
            },
        };
        let m = ZeroCopyMemoryManager { shared_pools, mmap_buffers, dma_manager, stats: ZeroCopyStats::new() };
        assert(m.shared_pools@[0].well_formed() && m.shared_pools@[1].well_formed()
            && m.shared_pools@[2].well_formed());
        assert(aligned_block_size(LARGE_BLOCK_SIZE) == 16777216);
        assert(8589934592int / 16777216int == 512) by (nonlinear_arith);
        assert forall|k: int, i: int| 0 <= k < 3 implies (#[trigger] m.pools()[k].is_free(i) <==> 0 <= i
            < m.pools()[k].spec_total_blocks()) by {
            if k == 0 {
                assert(m.pools()[k] == m.shared_pools@[0]);
            } else if k == 1 {
                assert(m.pools()[k] == m.shared_pools@[1]);
            } else {
                assert(m.pools()[k] == m.shared_pools@[2]);
            }
        }
        Ok(m)
    }

    /// Takes a block from the pool that serves `size` (see `pool_for_size`) and counts it.
    pub fn allocate(&mut self, size: usize) -> (r: Option<ZeroCopyBlock>)
        requires
            old(self).well_formed(),
        ensures
            final(self).well_formed(),
            r is None <==> forall|i: int| !old(self).pools()[pool_for_size(size)].is_free(i),
            r matches Some(b) ==> {
                let p = old(self).pools()[pool_for_size(size)];
                &&& p.is_free(b.spec_index() as int)
                &&& p.scan_choice(b.spec_index() as int)
                &&& b.spec_pool_id() == pool_for_size(size)
                &&& b.spec_size() == p.spec_block_size()
                &&& final(self).spec_stats().blocks_allocated == vstd::wrapping::u64_specs::wrapping_add(
                    old(self).spec_stats().blocks_allocated,
                    1,
                )
            },
            r is None ==> final(self).spec_stats() == old(self).spec_stats(),
            forall|j: int|
                0 <= j < 3 && j != pool_for_size(size) ==> #[trigger] final(self).pools()[j]
                    == old(self).pools()[j],
    {
        let k: usize = if size <= SMALL_BLOCK_SIZE {
            0
        } else if size <= MEDIUM_BLOCK_SIZE {
            1
        } else {
            2
        };
        assert(self.shared_pools@[k as int].well_formed());
        let ghost before = self.shared_pools@;
        let mut pool = self.shared_pools.remove(k);
        let ghost p0 = pool;
        assert(p0 == before[k as int]);
        let r = pool.allocate_block();
        self.shared_pools.insert(k, pool);
        proof {
            assert(self.shared_pools@ =~= before.update(k as int, pool));
            assert forall|j: int| 0 <= j < 3 implies #[trigger] self.shared_pools@[j].well_formed()
                && self.shared_pools@[j].spec_pool_id() == j by {
                if j != k {
                    assert(self.shared_pools@[j] == old(self).shared_pools@[j]);
                }
            }
        }
        if r.is_some() {
            self.stats.blocks_allocated = self.stats.blocks_allocated.wrapping_add(1);
        }
        assert(self.shared_pools@.len() == 3);
        assert(self.dma_manager.spec_channels() > 0);
        assert(self.shared_pools@[k as int] == pool);
        assert(pool_for_size(size) == k);
        assert(self.well_formed());
        assert(p0 == old(self).pools()[pool_for_size(size)]);
        assert((r is None) <==> (forall|i: int| !p0.is_free(i)));
        r
    }

    /// Returns a block to the pool its id names and counts it; an id past the pools
    /// is ignored.
    #[verifier::spinoff_prover]
    pub fn deallocate(&mut self, block: ZeroCopyBlock)
        requires
            old(self).well_formed(),
        ensures
            final(self).well_formed(),
            block.spec_pool_id() < 3 ==> final(self).spec_stats().blocks_freed
                == vstd::wrapping::u64_specs::wrapping_add(old(self).spec_stats().blocks_freed, 1),
            block.spec_pool_id() >= 3 ==> final(self).pools() == old(self).pools()
                && final(self).spec_stats() == old(self).spec_stats(),
    {
        let pool_id = block.pool_id as usize;
        if pool_id < self.shared_pools.len() {
            assert(self.shared_pools@[pool_id as int].well_formed());
            let ghost before = self.shared_pools@;
            let mut pool = self.shared_pools.remove(pool_id);
            let ghost p0 = pool;
            assert(p0 == before[pool_id as int]);
            pool.deallocate_block(block);
            self.shared_pools.insert(pool_id, pool);
            proof {
                assert(self.shared_pools@ =~= before.update(pool_id as int, pool));
                assert forall|j: int| 0 <= j < 3 implies #[trigger] self.shared_pools@[j].well_formed()
                    && self.shared_pools@[j].spec_pool_id() == j by {
                    if j != pool_id {
                        assert(self.shared_pools@[j] == old(self).shared_pools@[j]);
                    }
                }
                assert(self.dma_manager == old(self).dma_manager);
            }
            self.stats.blocks_freed = self.stats.blocks_freed.wrapping_add(1);
        }
    }

    /// The ring buffer with the given id, if there is one.
    pub fn get_mmap_buffer(&self, buffer_id: usize) -> (r: Option<&MemoryMappedBuffer>)
        ensures
            (buffer_id < self.spec_buffer_count()) == (r is Some),
    {
        if buffer_id < self.mmap_buffers.len() {
            Some(&self.mmap_buffers[buffer_id])
        } else {
            None
        }
    }

    /// The DMA manager.
    pub closed spec fn spec_dma_manager(&self) -> DirectMemoryAccessManager {
        self.dma_manager
    }

    /// The DMA manager.
    pub fn get_dma_manager(&self) -> (r: &DirectMemoryAccessManager)
        ensures
            *r == self.spec_dma_manager(),
    {
        &self.dma_manager
    }

    /// The counters.
    pub fn get_stats(&self) -> (r: &ZeroCopyStats)
        ensures
            *r == self.spec_stats(),
    {
        &self.stats
    }
}


proof fn lemma_ones_below_clear(w: u64, k: u64, n: nat)
    requires
        k < 64,
        n <= 64,
        word_bit(w, k),
    ensures
        ones_below(w & !(1u64 << k), n) + (if k < n {
            1nat
        } else {
            0nat
        }) == ones_below(w, n),
    decreases n,
{
    if n > 0 {
        lemma_ones_below_clear(w, k, (n - 1) as nat);
        lemma_bit_clear(w, k, (n - 1) as u64);
    }
}

proof fn lemma_total_ones_update(words: Seq<u64>, k: int, w: u64)
    requires
        0 <= k < words.len(),
    ensures
        total_ones(words.update(k, w)) + ones_below(words[k], 64) == total_ones(words) + ones_below(
            w,
            64,
        ),
    decreases words.len(),
{
    let u = words.update(k, w);
    if k == words.len() - 1 {
        assert(u.drop_last() =~= words.drop_last());
    } else {
        lemma_total_ones_update(words.drop_last(), k, w);
        assert(u.drop_last() =~= words.drop_last().update(k, w));
    }
}

/// Taking a free block out of the bitmap (clearing its bit) lowers the number of set
/// bits, which `available_blocks` reports, by exactly one.
pub proof fn law_take_lowers_count(words: Seq<u64>, i: int)
    requires
        0 <= i,
        i / 64 < words.len(),
        word_bit(words[i / 64], (i % 64) as u64),
    ensures
        total_ones(words.update(i / 64, words[i / 64] & !(1u64 << ((i % 64) as u64)))) + 1
            == total_ones(words),
{
    let k = i / 64;
    let b = (i % 64) as u64;
    lemma_ones_below_clear(words[k], b, 64);
    lemma_total_ones_update(words, k, words[k] & !(1u64 << b));
}

/// Returning a block that was taken (setting its bit again) gives back the bitmap as
/// it was before the block was taken.
pub proof fn law_return_restores_bitmap(words: Seq<u64>, i: int)
    requires
        0 <= i,
        i / 64 < words.len(),
        word_bit(words[i / 64], (i % 64) as u64),
    ensures
        ({
            let k = i / 64;
            let m = 1u64 << ((i % 64) as u64);
            let taken = words.update(k, words[k] & !m);
            taken.update(k, taken[k] | m) == words
        }),
{
    let k = i / 64;
    let b = (i % 64) as u64;
    let w = words[k];
    assert(((w & !(1u64 << b)) | (1u64 << b)) == w) by (bit_vector)
        requires
            b < 64,
            (w >> b) & 1u64 == 1u64,
    ;
    let m = 1u64 << b;
    let taken = words.update(k, w & !m);
    assert(taken.update(k, taken[k] | m) =~= words);
}

/// A ring buffer returns what was written to it, in order: reading into a buffer that
/// can hold everything yields the bytes held before, then the bytes written, and leaves
/// the ring empty.
pub proof fn law_ring_fifo(held: Seq<u8>, written: Seq<u8>, buffer_len: nat)
    requires
        buffer_len >= held.len() + written.len(),
    ensures
        ({
            let contents = held + written;
            let n = if buffer_len < contents.len() {
                buffer_len
            } else {
                contents.len()
            };
            &&& contents.take(n as int) == held + written
            &&& contents.skip(n as int) == Seq::<u8>::empty()
        }),
{
    let contents = held + written;
    assert(contents.take(contents.len() as int) =~= held + written);
    assert(contents.skip(contents.len() as int) =~= Seq::<u8>::empty());
}

} // verus!
