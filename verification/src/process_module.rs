//! A module loaded in the target process: its identity, address range, an
//! optional point-in-time snapshot of its memory used as the scan haystack,
//! and the walk of its export directory.

use vstd::prelude::*;
use crate::helpers::push_char;
use crate::memory::{
    MemoryIo, bytes_at, mem_written, range_readable, read_u16_at, read_u32_at, read_u8_at,
    spec_read_u16, spec_read_u32, spec_read_u8,
};
use crate::{address_add, lemma_wrap_add_assoc, lemma_wrap_add_exact, wrap_add};

verus! {

/// The NUL-terminated ASCII text at address `a`: each byte before the first
/// NUL byte as one character, at most `fuel` of them.  An unreadable byte
/// reads as 0 and so ends the text.
pub open spec fn spec_ascii_string_at(m: Map<int, u8>, a: usize, fuel: nat) -> Seq<char>
    decreases fuel,
{
    if fuel == 0 {
        Seq::empty()
    } else {
        let b = spec_read_u8(m, a as int);
        if b == 0 {
            Seq::empty()
        } else {
            seq![b as char] + spec_ascii_string_at(
                m,
                wrap_add(a as nat, 1) as usize,
                (fuel - 1) as nat,
            )
        }
    }
}

/// The executable-image layout offsets the export walk reads: the offset of
/// the NT headers at 0x3c of the image; the export directory's address in
/// the first data-directory entry, 136 bytes into the NT headers of a
/// 64-bit image and 120 of a 32-bit one; and, within the export directory,
/// the name count at 24 and the function, name and ordinal tables at 28,
/// 32 and 36.
pub open spec fn spec_export_dir(m: Map<int, u8>, base: usize, is_64_bit: bool) -> u32 {
    let e_lfanew = spec_read_u32(m, wrap_add(base as nat, 0x3c) as int);
    let nt = wrap_add(base as nat, e_lfanew as nat);
    let dd = wrap_add(nt, if is_64_bit { 136 as nat } else { 120 as nat });
    spec_read_u32(m, dd as int)
}

/// One export: the name behind entry `i` of the name table, and the
/// absolute address of the function behind that entry's ordinal.
pub open spec fn spec_export_at(
    m: Map<int, u8>,
    base: usize,
    names: usize,
    ords: usize,
    funcs: usize,
    i: int,
) -> (Seq<char>, usize) {
    let name_rva = spec_read_u32(m, wrap_add(names as nat, (4 * i) as nat) as int);
    let name = spec_ascii_string_at(m, wrap_add(base as nat, name_rva as nat) as usize, 512);
    let ordinal = spec_read_u16(m, wrap_add(ords as nat, (2 * i) as nat) as int);
    let func_rva = spec_read_u32(m, wrap_add(funcs as nat, (4 * ordinal) as nat) as int);
    (name, wrap_add(base as nat, func_rva as nat) as usize)
}

/// Every named export of the image at `base`: empty when the image has no
/// export directory, else one (name, absolute address) pair per entry of
/// the name table.
pub open spec fn spec_exports(m: Map<int, u8>, base: usize, is_64_bit: bool) -> Seq<
    (Seq<char>, usize),
> {
    let dir_rva = spec_export_dir(m, base, is_64_bit);
    if dir_rva == 0 {
        Seq::empty()
    } else {
        let ed = wrap_add(base as nat, dir_rva as nat);
        let count = spec_read_u32(m, wrap_add(ed, 24 as nat) as int);
        let funcs = wrap_add(base as nat, spec_read_u32(m, wrap_add(ed, 28 as nat) as int) as nat)
            as usize;
        let names = wrap_add(base as nat, spec_read_u32(m, wrap_add(ed, 32 as nat) as int) as nat)
            as usize;
        let ords = wrap_add(base as nat, spec_read_u32(m, wrap_add(ed, 36 as nat) as int) as nat)
            as usize;
        Seq::new(count as nat, |i: int| spec_export_at(m, base, names, ords, funcs, i))
    }
}

/// Reads the NUL-terminated export name at `a`, capped at 512 characters.
fn read_export_name<M: MemoryIo>(mem: &M, a: usize) -> (r: String)
    ensures
        r@ == spec_ascii_string_at(mem.mem(), a, 512),
{
    let mut s = String::new();
    let mut ptr = a;
    let mut k: usize = 0;
    while k < 512
        invariant
            0 <= k <= 512,
            spec_ascii_string_at(mem.mem(), a, 512) == s@ + spec_ascii_string_at(
                mem.mem(),
                ptr,
                (512 - k) as nat,
            ),
        decreases 512 - k,
    {
        let b = read_u8_at(mem, ptr);
        if b == 0 {
            proof {
                assert(spec_ascii_string_at(mem.mem(), ptr, (512 - k) as nat)
                    =~= Seq::<char>::empty());
            }
            return s;
        }
        push_char(&mut s, b as char);
        ptr = address_add(ptr, 1);
        k += 1;
    }
    proof {
        assert(spec_ascii_string_at(mem.mem(), ptr, 0) =~= Seq::<char>::empty());
    }
    s
}

/// Copies a byte vector element for element.
fn copy_bytes(v: &Vec<u8>) -> (r: Vec<u8>)
    ensures
        r@ == v@,
{
    let n = v.len();
    let mut out: Vec<u8> = Vec::new();
    let mut i: usize = 0;
    while i < n
        invariant
            0 <= i <= n,
            n == v@.len(),
            out@ =~= v@.subrange(0, i as int),
        decreases n - i,
    {
        out.push(v[i]);
        i += 1;
    }
    proof {
        assert(out@ =~= v@);
    }
    out
}

/// Two module records carrying the same data, field for field.
pub open spec fn module_like(a: ProcessModule, b: ProcessModule) -> bool {
    &&& a.id == b.id
    &&& a.path == b.path
    &&& a.name == b.name
    &&& a.base_address == b.base_address
    &&& a.size == b.size
    &&& a.memory@ == b.memory@
}

/// One module of the target process. `memory` is a byte-for-byte mirror of
/// the module's address range captured by `dump_memory`; it is either empty
/// (no snapshot, or a failed capture) or exactly `size` bytes long.
pub struct ProcessModule {
    /// The module's OS identity, as a plain value.
    pub id: usize,
    /// Full path of the module's file.
    pub path: String,
    /// File name of the module's file.
    pub name: String,
    /// Address the module is loaded at.
    pub base_address: usize,
    /// Size in bytes of the module's image.
    pub size: usize,
    /// Snapshot of the module's memory: empty, or `size` bytes.
    pub memory: Vec<u8>,
}

impl Clone for ProcessModule {
    /// An exact copy, snapshot included.
    fn clone(&self) -> (r: ProcessModule)
        ensures
            r.id == self.id,
            r.path == self.path,
            r.name == self.name,
            r.base_address == self.base_address,
            r.size == self.size,
            r.memory@ == self.memory@,
    {
        ProcessModule {
            id: self.id,
            path: self.path.clone(),
            name: self.name.clone(),
            base_address: self.base_address,
            size: self.size,
            memory: copy_bytes(&self.memory),
        }
    }
}

impl ProcessModule {
    /// A module record without a snapshot.
    pub fn new(id: usize, path: String, name: String, base: usize, size: usize) -> (r:
        ProcessModule)
        ensures
            r.id == id,
            r.path == path,
            r.name == name,
            r.base_address == base,
            r.size == size,
            r.memory@ =~= Seq::<u8>::empty(),
    {
        ProcessModule { id, path, name, base_address: base, size, memory: Vec::new() }
    }

    /// The module's base address plus an optional offset, wrapping.
    pub open spec fn spec_rel_address(&self, offset: Option<usize>) -> usize {
        match offset {
            None => self.base_address,
            Some(o) => wrap_add(self.base_address as nat, o as nat) as usize,
        }
    }

    /// The module's base address plus an optional offset.
    fn rel_address(&self, offset: Option<usize>) -> (r: usize)
        ensures
            r == self.spec_rel_address(offset),
    {
        match offset {
            None => self.base_address,
            Some(o) => address_add(self.base_address, o),
        }
    }

    /// Reads raw bytes in the live target at an offset from this module's
    /// base address.
    pub fn read_memory_rel<M: MemoryIo>(&self, mem: &M, offset: Option<usize>, len: usize) -> (r:
        Option<Vec<u8>>)
        ensures
            r is Some <==> range_readable(
                mem.mem(),
                self.spec_rel_address(offset) as int,
                len as nat,
            ),
            r matches Some(v) ==> v@ == bytes_at(
                mem.mem(),
                self.spec_rel_address(offset) as int,
                len as nat,
            ),
    {
        let address = self.rel_address(offset);
        mem.read_bytes(address, len)
    }

    /// Writes raw bytes in the live target at an offset from this module's
    /// base address.
    pub fn write_memory_rel<M: MemoryIo>(&self, mem: &mut M, offset: Option<usize>, data: &[u8]) -> (r:
        bool)
        ensures
            ({
                let a = self.spec_rel_address(offset);
                &&& final(mem).mem().dom() == old(mem).mem().dom()
                &&& (r <==> range_readable(old(mem).mem(), a as int, data@.len()))
                &&& (r ==> final(mem).mem() == mem_written(old(mem).mem(), a as int, data@))
                &&& (!r ==> final(mem).mem() == old(mem).mem())
            }),
    {
        let address = self.rel_address(offset);
        mem.write_bytes(address, data)
    }

    /// Reads raw bytes in the live target at an absolute address.
    pub fn read_memory_abs<M: MemoryIo>(&self, mem: &M, address: usize, len: usize) -> (r: Option<
        Vec<u8>,
    >)
        ensures
            r is Some <==> range_readable(mem.mem(), address as int, len as nat),
            r matches Some(v) ==> v@ == bytes_at(mem.mem(), address as int, len as nat),
    {
        mem.read_bytes(address, len)
    }

    /// Writes raw bytes in the live target at an absolute address.
    pub fn write_memory_abs<M: MemoryIo>(&self, mem: &mut M, address: usize, data: &[u8]) -> (r:
        bool)
        ensures
            final(mem).mem().dom() == old(mem).mem().dom(),
            r <==> range_readable(old(mem).mem(), address as int, data@.len()),
            r ==> final(mem).mem() == mem_written(old(mem).mem(), address as int, data@),
            !r ==> final(mem).mem() == old(mem).mem(),
    {
        mem.write_bytes(address, data)
    }

    /// Walks the module's export directory in the live target and returns
    /// every named export with its absolute address: for each entry of the
    /// name table, the NUL-terminated name (capped at 512 characters) and
    /// the function address behind the entry's ordinal.  A module without
    /// an export directory yields the empty list.
    pub fn get_exports<M: MemoryIo>(&self, mem: &M, is_64_bit: bool) -> (r: Vec<(String, usize)>)
        ensures
            ({
                let exports = spec_exports(mem.mem(), self.base_address, is_64_bit);
                &&& r@.len() == exports.len()
                &&& forall|i: int| 0 <= i < exports.len() ==> (#[trigger] r@[i]).0@
                    == exports[i].0 && r@[i].1 == exports[i].1
            }),
    {
        let ghost m = mem.mem();
        let base = self.base_address;
        let e_lfanew = read_u32_at(mem, address_add(base, 0x3c));
        let nt = address_add(base, e_lfanew as usize);
        let dd = if is_64_bit {
            address_add(nt, 136)
        } else {
            address_add(nt, 120)
        };
        let dir_rva = read_u32_at(mem, dd);
        let mut out: Vec<(String, usize)> = Vec::new();
        if dir_rva == 0 {
            return out;
        }
        let ed = address_add(base, dir_rva as usize);
        let count = read_u32_at(mem, address_add(ed, 24));
        let funcs = address_add(base, read_u32_at(mem, address_add(ed, 28)) as usize);
        let names = address_add(base, read_u32_at(mem, address_add(ed, 32)) as usize);
        let ords = address_add(base, read_u32_at(mem, address_add(ed, 36)) as usize);
        let ghost exports = spec_exports(m, base, is_64_bit);
        proof {
            assert(exports.len() == count as nat);
            assert(forall|k: int| 0 <= k < exports.len() ==> #[trigger] exports[k]
                == spec_export_at(m, base, names, ords, funcs, k));
            lemma_wrap_add_exact(names as nat, 0);
            lemma_wrap_add_exact(ords as nat, 0);
        }
        let mut i: u32 = 0;
        let mut name_ptr = names;
        let mut ord_ptr = ords;
        while i < count
            invariant
                0 <= i <= count,
                m == mem.mem(),
                exports == spec_exports(m, base, is_64_bit),
                exports.len() == count as nat,
                forall|k: int| 0 <= k < exports.len() ==> #[trigger] exports[k]
                    == spec_export_at(m, base, names, ords, funcs, k),
                name_ptr == wrap_add(names as nat, (4 * i) as nat) as usize,
                ord_ptr == wrap_add(ords as nat, (2 * i) as nat) as usize,
                out@.len() == i,
                forall|k: int| 0 <= k < i ==> (#[trigger] out@[k]).0@ == exports[k].0
                    && out@[k].1 == exports[k].1,
            decreases count - i,
        {
            let name_rva = read_u32_at(mem, name_ptr);
            let name = read_export_name(mem, address_add(base, name_rva as usize));
            let ordinal = read_u16_at(mem, ord_ptr);
            let func_rva = read_u32_at(mem, address_add(funcs, (ordinal as usize) * 4));
            let address = address_add(base, func_rva as usize);
            proof {
                assert(name@ == spec_export_at(m, base, names, ords, funcs, i as int).0);
                assert(address == spec_export_at(m, base, names, ords, funcs, i as int).1);
            }
            out.push((name, address));
            proof {
                lemma_wrap_add_assoc(names as nat, (4 * i) as nat, 4);
                lemma_wrap_add_assoc(ords as nat, (2 * i) as nat, 2);
            }
            name_ptr = address_add(name_ptr, 4);
            ord_ptr = address_add(ord_ptr, 2);
            i += 1;
        }
        out
    }

    /// Captures the snapshot: one bulk read of the whole module range. A
    /// failed read leaves the snapshot empty, never partially filled, so an
    /// empty snapshot means "scan target unavailable", not zeroed memory.
    pub fn dump_memory<M: MemoryIo>(&mut self, mem: &M)
        ensures
            final(self).id == old(self).id,
            final(self).path == old(self).path,
            final(self).name == old(self).name,
            final(self).base_address == old(self).base_address,
            final(self).size == old(self).size,
            final(self).memory@ == if range_readable(
                mem.mem(),
                old(self).base_address as int,
                old(self).size as nat,
            ) {
                bytes_at(mem.mem(), old(self).base_address as int, old(self).size as nat)
            } else {
                Seq::<u8>::empty()
            },
    {
        match mem.read_bytes(self.base_address, self.size) {
            Some(buffer) => {
                self.memory = buffer;
            },
            None => {
                self.memory = Vec::new();
                proof {
                    assert(self.memory@ =~= Seq::<u8>::empty());
                }
            },
        }
    }
}

} // verus!
