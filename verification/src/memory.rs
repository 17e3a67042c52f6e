//! Raw byte access to a target process's memory, modelled as a map from
//! absolute addresses to the bytes readable there, together with typed reads
//! and writes of fixed-width values.

use vstd::prelude::*;
use vstd::bytes::{
    spec_u16_from_le_bytes, spec_u32_from_le_bytes, spec_u32_to_le_bytes, spec_u64_from_le_bytes,
    spec_u64_to_le_bytes, lemma_auto_spec_u32_to_from_le_bytes, lemma_auto_spec_u64_to_from_le_bytes,
    u16_from_le_bytes, u32_from_le_bytes, u32_to_le_bytes, u64_from_le_bytes, u64_to_le_bytes,
};

verus! {

/// How raw memory access reaches the target: through the OS's cross-process
/// memory interface, or by direct pointer access when running inside the
/// target itself.
#[derive(Clone, Copy, PartialEq, Eq, Structural, Debug)]
pub enum MemoryType {
    /// Read and write through the OS's cross-process memory calls.
    Win32Api,
    /// Read and write directly, for code injected into the target process.
    Direct,
}

/// Every byte of `[a, a + n)` is present in the memory `m`.
pub open spec fn range_readable(m: Map<int, u8>, a: int, n: nat) -> bool {
    forall|k: int| a <= k < a + n ==> m.dom().contains(k)
}

/// The `n` bytes of `m` starting at address `a`.
pub open spec fn bytes_at(m: Map<int, u8>, a: int, n: nat) -> Seq<u8> {
    Seq::new(n, |k: int| m[a + k])
}

/// `m` with the bytes starting at `a` replaced by `data`; the set of
/// readable addresses is unchanged.
pub open spec fn mem_written(m: Map<int, u8>, a: int, data: Seq<u8>) -> Map<int, u8> {
    Map::new(
        |k: int| m.dom().contains(k),
        |k: int|
            if a <= k < a + data.len() {
                data[k - a]
            } else {
                m[k]
            },
    )
}

/// A source of raw byte reads and writes against a live target process.
///
/// `mem()` is the memory the target lets this source touch at the instant of
/// a call, as a map from absolute address to byte.  A read or write of a
/// range succeeds exactly when the whole range is present; a failed typed
/// operation built on top of this yields a default value rather than an
/// error.
pub trait MemoryIo {
    /// The bytes of the target reachable through this source, by absolute
    /// address.
    spec fn mem(&self) -> Map<int, u8>;

    /// Reads `len` bytes starting at `address`.
    fn read_bytes(&self, address: usize, len: usize) -> (r: Option<Vec<u8>>)
        ensures
            r is Some <==> range_readable(self.mem(), address as int, len as nat),
            r matches Some(v) ==> v@ == bytes_at(self.mem(), address as int, len as nat),
    ;

    /// Writes `data` starting at `address`.
    fn write_bytes(&mut self, address: usize, data: &[u8]) -> (r: bool)
        ensures
            final(self).mem().dom() == old(self).mem().dom(),
            r <==> range_readable(old(self).mem(), address as int, data@.len()),
            r ==> final(self).mem() == mem_written(old(self).mem(), address as int, data@),
            !r ==> final(self).mem() == old(self).mem(),
    ;
}

/// The memory of one contiguous region, as a memory source: stands in for a
/// live process in tests and simulations.
pub struct SimulatedMemory {
    base: usize,
    data: Vec<u8>,
}

/// The map that a byte region `data` loaded at `base` induces.
pub open spec fn region_view(base: int, data: Seq<u8>) -> Map<int, u8> {
    Map::new(|k: int| base <= k < base + data.len(), |k: int| data[k - base])
}

impl SimulatedMemory {
    /// The region's contents, as abstract memory.
    pub closed spec fn view_mem(&self) -> Map<int, u8> {
        region_view(self.base as int, self.data@)
    }

    /// A simulated region holding `data` at address `base`.
    pub fn new(base: usize, data: Vec<u8>) -> (r: SimulatedMemory)
        requires
            base + data@.len() <= usize::MAX,
        ensures
            r.mem() == region_view(base as int, data@),
    {
        SimulatedMemory { base, data }
    }
}

impl MemoryIo for SimulatedMemory {
    closed spec fn mem(&self) -> Map<int, u8> {
        self.view_mem()
    }

    fn read_bytes(&self, address: usize, len: usize) -> (r: Option<Vec<u8>>) {
        if len == 0 {
            return Some(Vec::new());
        }
        if address < self.base {
            proof {
                assert(!self.mem().dom().contains(address as int));
            }
            return None;
        }
        let off = address - self.base;
        let n = self.data.len();
        if off >= n {
            proof {
                assert(!self.mem().dom().contains(address as int));
            }
            return None;
        }
        if len > n - off {
            proof {
                assert(!self.mem().dom().contains(self.base + n));
                assert(address <= self.base + n < address + len);
            }
            return None;
        }
        let mut out: Vec<u8> = Vec::new();
        let mut j: usize = 0;
        while j < len
            invariant
                0 <= j <= len,
                n == self.data@.len(),
                address >= self.base,
                off == address - self.base,
                off + len <= n,
                out@.len() == j,
                forall|k: int| 0 <= k < j ==> out@[k] == self.data@[off + k],
            decreases len - j,
        {
            out.push(self.data[off + j]);
            j += 1;
        }
        proof {
            assert(out@ =~= bytes_at(self.mem(), address as int, len as nat));
        }
        Some(out)
    }

    fn write_bytes(&mut self, address: usize, data: &[u8]) -> (r: bool) {
        let len = data.len();
        if len == 0 {
            proof {
                assert(self.mem() =~= mem_written(self.mem(), address as int, data@));
            }
            return true;
        }
        if address < self.base {
            proof {
                assert(!self.mem().dom().contains(address as int));
            }
            return false;
        }
        let off = address - self.base;
        let n = self.data.len();
        if off >= n {
            proof {
                assert(!self.mem().dom().contains(address as int));
            }
            return false;
        }
        if len > n - off {
            proof {
                assert(!self.mem().dom().contains(self.base + n));
                assert(address <= self.base + n < address + len);
            }
            return false;
        }
        let mut j: usize = 0;
        while j < len
            invariant
                0 <= j <= len,
                len == data@.len(),
                n == self.data@.len(),
                self.base == old(self).base,
                self.data@.len() == old(self).data@.len(),
                address >= self.base,
                off == address - self.base,
                off + len <= n,
                forall|k: int| 0 <= k < j ==> self.data@[off + k] == data@[k],
                forall|k: int|
                    0 <= k < n && !(off <= k < off + j) ==> self.data@[k] == old(self).data@[k],
            decreases len - j,
        {
            let b = data[j];
            self.data[off + j] = b;
            j += 1;
        }
        proof {
            assert(self.mem() =~= mem_written(old(self).mem(), address as int, data@));
            assert(self.mem().dom() =~= old(self).mem().dom());
        }
        true
    }
}

/// The unsigned value of the 2 little-endian bytes at `a`, or 0 when the
/// range is not fully readable.
pub open spec fn spec_read_u16(m: Map<int, u8>, a: int) -> u16 {
    if range_readable(m, a, 2) {
        spec_u16_from_le_bytes(bytes_at(m, a, 2))
    } else {
        0
    }
}

/// Reads a `u16` from 2 little-endian bytes at an absolute address; 0 when
/// the read fails.
pub fn read_u16_at<M: MemoryIo>(mem: &M, address: usize) -> (r: u16)
    ensures
        r == spec_read_u16(mem.mem(), address as int),
{
    match mem.read_bytes(address, 2) {
        Some(v) => u16_from_le_bytes(v.as_slice()),
        None => 0,
    }
}

/// The unsigned value of the 4 little-endian bytes at `a`, or 0 when the
/// range is not fully readable.
pub open spec fn spec_read_u32(m: Map<int, u8>, a: int) -> u32 {
    if range_readable(m, a, 4) {
        spec_u32_from_le_bytes(bytes_at(m, a, 4))
    } else {
        0
    }
}

/// The unsigned value of the 8 little-endian bytes at `a`, or 0 when the
/// range is not fully readable.
pub open spec fn spec_read_u64(m: Map<int, u8>, a: int) -> u64 {
    if range_readable(m, a, 8) {
        spec_u64_from_le_bytes(bytes_at(m, a, 8))
    } else {
        0
    }
}

/// The byte at `a`, or 0 when `a` is not readable.
pub open spec fn spec_read_u8(m: Map<int, u8>, a: int) -> u8 {
    if range_readable(m, a, 1) {
        bytes_at(m, a, 1)[0]
    } else {
        0
    }
}

/// Reads a `u8` at an absolute address; 0 when the read fails.
pub fn read_u8_at<M: MemoryIo>(mem: &M, address: usize) -> (r: u8)
    ensures
        r == spec_read_u8(mem.mem(), address as int),
{
    match mem.read_bytes(address, 1) {
        Some(v) => v[0],
        None => 0,
    }
}

/// Reads a `u32` from 4 little-endian bytes at an absolute address; 0 when
/// the read fails.
pub fn read_u32_at<M: MemoryIo>(mem: &M, address: usize) -> (r: u32)
    ensures
        r == spec_read_u32(mem.mem(), address as int),
{
    match mem.read_bytes(address, 4) {
        Some(v) => u32_from_le_bytes(v.as_slice()),
        None => 0,
    }
}

/// Reads a `u64` from 8 little-endian bytes at an absolute address; 0 when
/// the read fails.
pub fn read_u64_at<M: MemoryIo>(mem: &M, address: usize) -> (r: u64)
    ensures
        r == spec_read_u64(mem.mem(), address as int),
{
    match mem.read_bytes(address, 8) {
        Some(v) => u64_from_le_bytes(v.as_slice()),
        None => 0,
    }
}

/// Writes a `u8` at an absolute address; no effect when the write fails.
pub fn write_u8_at<M: MemoryIo>(mem: &mut M, address: usize, value: u8)
    ensures
        final(mem).mem() == if range_readable(old(mem).mem(), address as int, 1) {
            mem_written(old(mem).mem(), address as int, seq![value])
        } else {
            old(mem).mem()
        },
        final(mem).mem().dom() == old(mem).mem().dom(),
{
    let data: Vec<u8> = vec![value];
    proof {
        assert(data@ =~= seq![value]);
    }
    mem.write_bytes(address, data.as_slice());
}

/// Writes a `u32` as 4 little-endian bytes at an absolute address; no effect
/// when the write fails.
pub fn write_u32_at<M: MemoryIo>(mem: &mut M, address: usize, value: u32)
    ensures
        final(mem).mem() == if range_readable(old(mem).mem(), address as int, 4) {
            mem_written(old(mem).mem(), address as int, spec_u32_to_le_bytes(value))
        } else {
            old(mem).mem()
        },
        final(mem).mem().dom() == old(mem).mem().dom(),
{
    proof {
        lemma_auto_spec_u32_to_from_le_bytes();
    }
    let data = u32_to_le_bytes(value);
    mem.write_bytes(address, data.as_slice());
}

/// Writes a `u64` as 8 little-endian bytes at an absolute address; no effect
/// when the write fails.
pub fn write_u64_at<M: MemoryIo>(mem: &mut M, address: usize, value: u64)
    ensures
        final(mem).mem() == if range_readable(old(mem).mem(), address as int, 8) {
            mem_written(old(mem).mem(), address as int, spec_u64_to_le_bytes(value))
        } else {
            old(mem).mem()
        },
        final(mem).mem().dom() == old(mem).mem().dom(),
{
    proof {
        lemma_auto_spec_u64_to_from_le_bytes();
    }
    let data = u64_to_le_bytes(value);
    mem.write_bytes(address, data.as_slice());
}

/// Writing a range and reading it back yields the written bytes: the raw
/// round trip underneath every typed round trip.
pub proof fn lemma_write_read_round_trip(m: Map<int, u8>, a: int, data: Seq<u8>)
    requires
        range_readable(m, a, data.len()),
    ensures
        bytes_at(mem_written(m, a, data), a, data.len()) == data,
        range_readable(mem_written(m, a, data), a, data.len()),
{
    assert(bytes_at(mem_written(m, a, data), a, data.len()) =~= data);
}

/// The signed value of the byte at `a`, or 0 when it is not readable.
pub open spec fn spec_read_i8(m: Map<int, u8>, a: int) -> i8 {
    spec_read_u8(m, a) as i8
}

/// The signed value of the 4 little-endian bytes at `a`, or 0 when the range
/// is not fully readable.
pub open spec fn spec_read_i32(m: Map<int, u8>, a: int) -> i32 {
    spec_read_u32(m, a) as i32
}

/// The signed value of the 8 little-endian bytes at `a`, or 0 when the range
/// is not fully readable.
pub open spec fn spec_read_i64(m: Map<int, u8>, a: int) -> i64 {
    spec_read_u64(m, a) as i64
}

/// The boolean denoted by the byte at `a`: any nonzero byte is true; an
/// unreadable byte reads as 0, hence false.
pub open spec fn spec_read_bool(m: Map<int, u8>, a: int) -> bool {
    spec_read_u8(m, a) != 0
}

/// Writing a `u8` at a writable address and reading the same address back
/// yields the written value.
pub proof fn lemma_round_trip_u8(m: Map<int, u8>, a: int, v: u8)
    requires
        range_readable(m, a, 1),
    ensures
        spec_read_u8(mem_written(m, a, seq![v]), a) == v,
{
    lemma_write_read_round_trip(m, a, seq![v]);
}

/// Writing a `u32` at a writable address and reading the same address back
/// yields the written value.
pub proof fn lemma_round_trip_u32(m: Map<int, u8>, a: int, v: u32)
    requires
        range_readable(m, a, 4),
    ensures
        spec_read_u32(mem_written(m, a, spec_u32_to_le_bytes(v)), a) == v,
{
    lemma_auto_spec_u32_to_from_le_bytes();
    lemma_write_read_round_trip(m, a, spec_u32_to_le_bytes(v));
}

/// Writing a `u64` at a writable address and reading the same address back
/// yields the written value.
pub proof fn lemma_round_trip_u64(m: Map<int, u8>, a: int, v: u64)
    requires
        range_readable(m, a, 8),
    ensures
        spec_read_u64(mem_written(m, a, spec_u64_to_le_bytes(v)), a) == v,
{
    lemma_auto_spec_u64_to_from_le_bytes();
    lemma_write_read_round_trip(m, a, spec_u64_to_le_bytes(v));
}

/// Writing an `i8` (as its unsigned byte) at a writable address and reading
/// it back signed yields the written value.
pub proof fn lemma_round_trip_i8(m: Map<int, u8>, a: int, v: i8)
    requires
        range_readable(m, a, 1),
    ensures
        spec_read_i8(mem_written(m, a, seq![v as u8]), a) == v,
{
    lemma_round_trip_u8(m, a, v as u8);
    assert((v as u8) as i8 == v) by (bit_vector);
}

/// Writing an `i32` (through its unsigned bit pattern) at a writable address
/// and reading it back signed yields the written value.
pub proof fn lemma_round_trip_i32(m: Map<int, u8>, a: int, v: i32)
    requires
        range_readable(m, a, 4),
    ensures
        spec_read_i32(mem_written(m, a, spec_u32_to_le_bytes(v as u32)), a) == v,
{
    lemma_round_trip_u32(m, a, v as u32);
    assert((v as u32) as i32 == v) by (bit_vector);
}

/// Writing an `i64` (through its unsigned bit pattern) at a writable address
/// and reading it back signed yields the written value.
pub proof fn lemma_round_trip_i64(m: Map<int, u8>, a: int, v: i64)
    requires
        range_readable(m, a, 8),
    ensures
        spec_read_i64(mem_written(m, a, spec_u64_to_le_bytes(v as u64)), a) == v,
{
    lemma_round_trip_u64(m, a, v as u64);
    assert((v as u64) as i64 == v) by (bit_vector);
}

} // verus!
