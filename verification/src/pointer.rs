//! Pointer chains: a base address plus an ordered list of offsets, resolved
//! against live process memory on every read or write, so that the resulting
//! address is always current.

use vstd::prelude::*;
use vstd::bytes::{spec_u32_to_le_bytes, spec_u64_to_le_bytes};
use crate::memory::{
    MemoryIo, bytes_at, mem_written, range_readable, read_u32_at, read_u64_at, read_u8_at,
    spec_read_bool, spec_read_i32, spec_read_i64, spec_read_i8, spec_read_u32, spec_read_u64,
    spec_read_u8, write_u32_at, write_u64_at, write_u8_at,
};
use crate::wrap_add;

verus! {

/// The value of one intermediate chain link at address `a`: 8 little-endian
/// bytes on a 64-bit target, 4 on a 32-bit one, taken as an address; 0 when
/// the bytes are not readable.
pub open spec fn spec_link_value(m: Map<int, u8>, a: int, is_64_bit: bool) -> usize {
    if is_64_bit {
        spec_read_u64(m, a) as usize
    } else {
        spec_read_u32(m, a) as usize
    }
}

/// The address a chain of `offsets` rooted at `base` resolves to against
/// memory `m`: every offset but the last is added and dereferenced, the last
/// is only added; a zero intermediate link resolves the whole chain to the
/// sentinel 0.  An empty chain resolves to `base`.
pub open spec fn spec_resolve(
    m: Map<int, u8>,
    base: usize,
    offsets: Seq<usize>,
    is_64_bit: bool,
) -> usize
    decreases offsets.len(),
{
    if offsets.len() == 0 {
        base
    } else {
        let a = wrap_add(base as nat, offsets[0] as nat) as usize;
        if offsets.len() == 1 {
            a
        } else {
            let w = spec_link_value(m, a as int, is_64_bit);
            if w == 0 {
                0
            } else {
                spec_resolve(m, w, offsets.drop_first(), is_64_bit)
            }
        }
    }
}

/// A chain with no offsets resolves to its base address, whatever the
/// memory holds.
pub proof fn lemma_resolve_empty_chain(m: Map<int, u8>, base: usize, is_64_bit: bool)
    ensures
        spec_resolve(m, base, Seq::<usize>::empty(), is_64_bit) == base,
{
}

/// A chain with one offset resolves to base plus that offset and performs no
/// dereference: the result is the same against every memory.
pub proof fn lemma_resolve_single_offset(m: Map<int, u8>, base: usize, a: usize, is_64_bit: bool)
    ensures
        spec_resolve(m, base, seq![a], is_64_bit) == wrap_add(base as nat, a as nat),
        forall|m2: Map<int, u8>| #[trigger] spec_resolve(m2, base, seq![a], is_64_bit)
            == spec_resolve(m, base, seq![a], is_64_bit),
{
}

/// A chain whose first link reads as zero resolves to the sentinel 0, no
/// matter what the remaining offsets are.
pub proof fn lemma_resolve_null_link(
    m: Map<int, u8>,
    base: usize,
    offsets: Seq<usize>,
    is_64_bit: bool,
)
    requires
        offsets.len() >= 2,
        spec_link_value(m, wrap_add(base as nat, offsets[0] as nat) as int, is_64_bit) == 0,
    ensures
        spec_resolve(m, base, offsets, is_64_bit) == 0,
{
}

/// The stored offsets with an optional ad-hoc offset appended.
pub open spec fn spec_appended(offsets: Seq<usize>, offset: Option<usize>) -> Seq<usize> {
    match offset {
        None => offsets,
        Some(o) => offsets + seq![o],
    }
}

/// A pointer path that is dynamically resolved on each read or write, so the
/// address is always valid even when the target reallocates its structures.
/// A race can still leave a null link along the path; resolution then yields
/// the sentinel address 0, through which every access fails.
#[derive(Debug)]
pub struct Pointer {
    /// Whether intermediate links are 8-byte (64-bit target) or 4-byte
    /// values.
    pub is_64_bit: bool,
    /// The address the chain is rooted at.
    pub base_address: usize,
    /// The offsets walked from the base; all but the last are dereferenced.
    pub offsets: Vec<usize>,
}

impl Default for Pointer {
    /// A placeholder chain rooted at address 0 with no offsets.
    fn default() -> (r: Pointer)
        ensures
            r.is_64_bit == true,
            r.base_address == 0,
            r.offsets@ =~= Seq::<usize>::empty(),
    {
        Pointer { is_64_bit: true, base_address: 0, offsets: Vec::new() }
    }
}

impl Pointer {
    /// A chain rooted at `base_address` walking `offsets`; normally built
    /// through a `Process` scan rather than directly.
    pub fn new(is_64_bit: bool, base_address: usize, offsets: Vec<usize>) -> (r: Pointer)
        ensures
            r.is_64_bit == is_64_bit,
            r.base_address == base_address,
            r.offsets == offsets,
    {
        Pointer { is_64_bit, base_address, offsets }
    }

    /// Get the base address of this pointer, without resolving offsets.
    pub fn get_base_address(&self) -> (r: usize)
        ensures
            r == self.base_address,
    {
        self.base_address
    }

    /// The address this chain resolves to against memory `m`, with the
    /// optional ad-hoc `offset` appended.
    pub open spec fn spec_target(&self, m: Map<int, u8>, offset: Option<usize>) -> usize {
        spec_resolve(m, self.base_address, spec_appended(self.offsets@, offset), self.is_64_bit)
    }

    /// The stored offsets, with `offset` appended when one is given; the
    /// stored chain itself stays unchanged.
    fn offsets_with(&self, offset: Option<usize>) -> (r: Vec<usize>)
        ensures
            r@ == spec_appended(self.offsets@, offset),
    {
        let n = self.offsets.len();
        let mut copy: Vec<usize> = Vec::new();
        let mut i: usize = 0;
        while i < n
            invariant
                0 <= i <= n,
                n == self.offsets@.len(),
                copy@ =~= self.offsets@.subrange(0, i as int),
            decreases n - i,
        {
            copy.push(self.offsets[i]);
            i += 1;
        }
        proof {
            assert(copy@ =~= self.offsets@);
        }
        match offset {
            None => copy,
            Some(o) => {
                copy.push(o);
                proof {
                    assert(copy@ =~= self.offsets@ + seq![o]);
                }
                copy
            },
        }
    }

    /// Walks `offsets` from the base: adds each offset, and for every offset
    /// but the last reads the link there and follows it; a zero link stops
    /// the walk at the sentinel 0.
    fn resolve_offsets<M: MemoryIo>(&self, mem: &M, offsets: &Vec<usize>) -> (r: usize)
        ensures
            r == spec_resolve(mem.mem(), self.base_address, offsets@, self.is_64_bit),
    {
        let ghost m = mem.mem();
        let ghost b = self.is_64_bit;
        let n = offsets.len();
        let mut ptr = self.base_address;
        let mut i: usize = 0;
        proof {
            assert(offsets@.skip(0) =~= offsets@);
        }
        while i < n
            invariant
                0 <= i <= n,
                n == offsets@.len(),
                b == self.is_64_bit,
                m == mem.mem(),
                spec_resolve(m, self.base_address, offsets@, b) == spec_resolve(
                    m,
                    ptr,
                    offsets@.skip(i as int),
                    b,
                ),
            decreases n - i,
        {
            proof {
                assert(offsets@.skip(i as int)[0] == offsets@[i as int]);
                assert(offsets@.skip(i as int).drop_first() =~= offsets@.skip(i + 1));
            }
            let address = crate::address_add(ptr, offsets[i]);
            if i + 1 < n {
                let link = if self.is_64_bit {
                    let w = read_u64_at(mem, address);
                    #[verifier::truncate] (w as usize)
                } else {
                    let w = read_u32_at(mem, address);
                    w as usize
                };
                if link == 0 {
                    return 0;
                }
                ptr = link;
            } else {
                ptr = address;
            }
            i += 1;
        }
        proof {
            assert(offsets@.skip(n as int) =~= Seq::<usize>::empty());
        }
        ptr
    }

    /// The address the chain currently resolves to, with an optional ad-hoc
    /// offset appended; 0 when a link along the path is null.
    pub fn resolve<M: MemoryIo>(&self, mem: &M, offset: Option<usize>) -> (r: usize)
        ensures
            r == self.spec_target(mem.mem(), offset),
    {
        let offsets = self.offsets_with(offset);
        self.resolve_offsets(mem, &offsets)
    }

    /// Reads `len` raw bytes at the resolved chain address plus an optional
    /// offset; `None` when any byte of the range is unreadable.
    pub fn read_memory_rel<M: MemoryIo>(&self, mem: &M, offset: Option<usize>, len: usize) -> (r:
        Option<Vec<u8>>)
        ensures
            r is Some <==> range_readable(
                mem.mem(),
                self.spec_target(mem.mem(), offset) as int,
                len as nat,
            ),
            r matches Some(v) ==> v@ == bytes_at(
                mem.mem(),
                self.spec_target(mem.mem(), offset) as int,
                len as nat,
            ),
    {
        let address = self.resolve(mem, offset);
        mem.read_bytes(address, len)
    }

    /// Writes raw bytes at the resolved chain address plus an optional
    /// offset; false (and no effect) when the range is not writable.
    pub fn write_memory_rel<M: MemoryIo>(&self, mem: &mut M, offset: Option<usize>, data: &[u8]) -> (r:
        bool)
        ensures
            final(mem).mem().dom() == old(mem).mem().dom(),
            r <==> range_readable(
                old(mem).mem(),
                self.spec_target(old(mem).mem(), offset) as int,
                data@.len(),
            ),
            r ==> final(mem).mem() == mem_written(
                old(mem).mem(),
                self.spec_target(old(mem).mem(), offset) as int,
                data@,
            ),
            !r ==> final(mem).mem() == old(mem).mem(),
    {
        let address = self.resolve(&*mem, offset);
        mem.write_bytes(address, data)
    }

    /// Reads raw bytes at an absolute address, ignoring the chain.
    pub fn read_memory_abs<M: MemoryIo>(&self, mem: &M, address: usize, len: usize) -> (r: Option<
        Vec<u8>,
    >)
        ensures
            r is Some <==> range_readable(mem.mem(), address as int, len as nat),
            r matches Some(v) ==> v@ == bytes_at(mem.mem(), address as int, len as nat),
    {
        mem.read_bytes(address, len)
    }

    /// Writes raw bytes at an absolute address, ignoring the chain.
    pub fn write_memory_abs<M: MemoryIo>(&self, mem: &mut M, address: usize, data: &[u8]) -> (r:
        bool)
        ensures
            final(mem).mem().dom() == old(mem).mem().dom(),
            r <==> range_readable(old(mem).mem(), address as int, data@.len()),
            r ==> final(mem).mem() == mem_written(old(mem).mem(), address as int, data@),
            !r ==> final(mem).mem() == old(mem).mem(),
    {
        mem.write_bytes(address, data)
    }

    /// Reads a `u8` at the resolved address; 0 when the read fails.
    pub fn read_u8_rel<M: MemoryIo>(&self, mem: &M, offset: Option<usize>) -> (r: u8)
        ensures
            r == spec_read_u8(mem.mem(), self.spec_target(mem.mem(), offset) as int),
    {
        let address = self.resolve(mem, offset);
        read_u8_at(mem, address)
    }

    /// Reads an `i8` at the resolved address; 0 when the read fails.
    pub fn read_i8_rel<M: MemoryIo>(&self, mem: &M, offset: Option<usize>) -> (r: i8)
        ensures
            r == spec_read_i8(mem.mem(), self.spec_target(mem.mem(), offset) as int),
    {
        let address = self.resolve(mem, offset);
        let v = read_u8_at(mem, address);
        proof {
            assert(v as i8 == spec_read_u8(mem.mem(), address as int) as i8);
        }
        #[verifier::truncate] (v as i8)
    }

    /// Reads a `u32` from 4 little-endian bytes at the resolved address; 0
    /// when the read fails.
    pub fn read_u32_rel<M: MemoryIo>(&self, mem: &M, offset: Option<usize>) -> (r: u32)
        ensures
            r == spec_read_u32(mem.mem(), self.spec_target(mem.mem(), offset) as int),
    {
        let address = self.resolve(mem, offset);
        read_u32_at(mem, address)
    }

    /// Reads an `i32` from 4 little-endian bytes at the resolved address; 0
    /// when the read fails.
    pub fn read_i32_rel<M: MemoryIo>(&self, mem: &M, offset: Option<usize>) -> (r: i32)
        ensures
            r == spec_read_i32(mem.mem(), self.spec_target(mem.mem(), offset) as int),
    {
        let address = self.resolve(mem, offset);
        let v = read_u32_at(mem, address);
        #[verifier::truncate] (v as i32)
    }

    /// Reads a `u64` from 8 little-endian bytes at the resolved address; 0
    /// when the read fails.
    pub fn read_u64_rel<M: MemoryIo>(&self, mem: &M, offset: Option<usize>) -> (r: u64)
        ensures
            r == spec_read_u64(mem.mem(), self.spec_target(mem.mem(), offset) as int),
    {
        let address = self.resolve(mem, offset);
        read_u64_at(mem, address)
    }

    /// Reads an `i64` from 8 little-endian bytes at the resolved address; 0
    /// when the read fails.
    pub fn read_i64_rel<M: MemoryIo>(&self, mem: &M, offset: Option<usize>) -> (r: i64)
        ensures
            r == spec_read_i64(mem.mem(), self.spec_target(mem.mem(), offset) as int),
    {
        let address = self.resolve(mem, offset);
        let v = read_u64_at(mem, address);
        #[verifier::truncate] (v as i64)
    }

    /// Reads a boolean at the resolved address: any nonzero byte is true; a
    /// failed read yields false.
    pub fn read_bool_rel<M: MemoryIo>(&self, mem: &M, offset: Option<usize>) -> (r: bool)
        ensures
            r == spec_read_bool(mem.mem(), self.spec_target(mem.mem(), offset) as int),
    {
        let address = self.resolve(mem, offset);
        let v = read_u8_at(mem, address);
        v != 0
    }

    /// Writes a `u8` at the resolved address; no effect when the write
    /// fails.
    pub fn write_u8_rel<M: MemoryIo>(&self, mem: &mut M, offset: Option<usize>, value: u8)
        ensures
            final(mem).mem().dom() == old(mem).mem().dom(),
            final(mem).mem() == if range_readable(
                old(mem).mem(),
                self.spec_target(old(mem).mem(), offset) as int,
                1,
            ) {
                mem_written(
                    old(mem).mem(),
                    self.spec_target(old(mem).mem(), offset) as int,
                    seq![value],
                )
            } else {
                old(mem).mem()
            },
    {
        let address = self.resolve(&*mem, offset);
        write_u8_at(mem, address, value);
    }

    /// Writes an `i8` as its unsigned byte at the resolved address; no
    /// effect when the write fails.
    pub fn write_i8_rel<M: MemoryIo>(&self, mem: &mut M, offset: Option<usize>, value: i8)
        ensures
            final(mem).mem().dom() == old(mem).mem().dom(),
            final(mem).mem() == if range_readable(
                old(mem).mem(),
                self.spec_target(old(mem).mem(), offset) as int,
                1,
            ) {
                mem_written(
                    old(mem).mem(),
                    self.spec_target(old(mem).mem(), offset) as int,
                    seq![value as u8],
                )
            } else {
                old(mem).mem()
            },
    {
        let address = self.resolve(&*mem, offset);
        write_u8_at(mem, address, #[verifier::truncate] (value as u8));
    }

    /// Writes a `u32` as 4 little-endian bytes at the resolved address; no
    /// effect when the write fails.
    pub fn write_u32_rel<M: MemoryIo>(&self, mem: &mut M, offset: Option<usize>, value: u32)
        ensures
            final(mem).mem().dom() == old(mem).mem().dom(),
            final(mem).mem() == if range_readable(
                old(mem).mem(),
                self.spec_target(old(mem).mem(), offset) as int,
                4,
            ) {
                mem_written(
                    old(mem).mem(),
                    self.spec_target(old(mem).mem(), offset) as int,
                    spec_u32_to_le_bytes(value),
                )
            } else {
                old(mem).mem()
            },
    {
        let address = self.resolve(&*mem, offset);
        write_u32_at(mem, address, value);
    }

    /// Writes an `i32` through its unsigned bit pattern at the resolved
    /// address; no effect when the write fails.
    pub fn write_i32_rel<M: MemoryIo>(&self, mem: &mut M, offset: Option<usize>, value: i32)
        ensures
            final(mem).mem().dom() == old(mem).mem().dom(),
            final(mem).mem() == if range_readable(
                old(mem).mem(),
                self.spec_target(old(mem).mem(), offset) as int,
                4,
            ) {
                mem_written(
                    old(mem).mem(),
                    self.spec_target(old(mem).mem(), offset) as int,
                    spec_u32_to_le_bytes(value as u32),
                )
            } else {
                old(mem).mem()
            },
    {
        let address = self.resolve(&*mem, offset);
        write_u32_at(mem, address, #[verifier::truncate] (value as u32));
    }

    /// Writes a `u64` as 8 little-endian bytes at the resolved address; no
    /// effect when the write fails.
    pub fn write_u64_rel<M: MemoryIo>(&self, mem: &mut M, offset: Option<usize>, value: u64)
        ensures
            final(mem).mem().dom() == old(mem).mem().dom(),
            final(mem).mem() == if range_readable(
                old(mem).mem(),
                self.spec_target(old(mem).mem(), offset) as int,
                8,
            ) {
                mem_written(
                    old(mem).mem(),
                    self.spec_target(old(mem).mem(), offset) as int,
                    spec_u64_to_le_bytes(value),
                )
            } else {
                old(mem).mem()
            },
    {
        let address = self.resolve(&*mem, offset);
        write_u64_at(mem, address, value);
    }

    /// Writes an `i64` through its unsigned bit pattern at the resolved
    /// address; no effect when the write fails.
    pub fn write_i64_rel<M: MemoryIo>(&self, mem: &mut M, offset: Option<usize>, value: i64)
        ensures
            final(mem).mem().dom() == old(mem).mem().dom(),
            final(mem).mem() == if range_readable(
                old(mem).mem(),
                self.spec_target(old(mem).mem(), offset) as int,
                8,
            ) {
                mem_written(
                    old(mem).mem(),
                    self.spec_target(old(mem).mem(), offset) as int,
                    spec_u64_to_le_bytes(value as u64),
                )
            } else {
                old(mem).mem()
            },
    {
        let address = self.resolve(&*mem, offset);
        write_u64_at(mem, address, #[verifier::truncate] (value as u64));
    }
}

} // verus!
