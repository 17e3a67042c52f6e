//! The attachment state machine: finding the target process by name,
//! attaching to it, capturing the main module's snapshot, detecting its
//! exit, and deriving scan-based pointers from the snapshot.

use vstd::prelude::*;
use vstd::pervasive::unreached;
use vstd::string::StringExecFns;
use crate::helpers::{
    ascii_eq_ignore_case, eq_ignore_ascii_case, get_file_name_from_string, get_w32str_from_str,
    spec_file_name,
};
use crate::memory::{MemoryIo, MemoryType, bytes_at, mem_written, range_readable};
use crate::pattern::{
    pattern_matches_at, scan, spec_pattern, spec_scan, to_pattern, valid_signature,
};
use crate::pointer::Pointer;
use crate::process_module::{ProcessModule, module_like};
use crate::{address_add, address_add_signed, lemma_wrap_add_exact, wrap_add};
use vstd::bytes::{spec_u32_from_le_bytes, u32_from_le_bytes};
use vstd::slice::slice_subrange;

verus! {

/// The absolute address a relative-mode scan hit denotes: module base plus
/// match offset plus instruction length, plus the signed 32-bit displacement
/// whose little-endian bytes sit in the snapshot at match offset plus the
/// displacement field offset — the way a PC-relative instruction computes
/// its effective target.  All additions wrap at the address-space boundary.
pub open spec fn spec_rel_address(
    snapshot: Seq<u8>,
    module_base: usize,
    match_off: int,
    scan_offset: usize,
    instruction_size: usize,
) -> usize {
    let d = spec_u32_from_le_bytes(
        snapshot.subrange(match_off + scan_offset, match_off + scan_offset + 4),
    ) as i32;
    let a1 = wrap_add(
        wrap_add(module_base as nat, match_off as nat),
        instruction_size as nat,
    ) as usize;
    vstd::wrapping::usize_specs::wrapping_add_signed(a1, d as isize)
}

/// Relative-mode address derivation is exact: whenever the plain sum of
/// module base, match offset, instruction length and embedded signed
/// displacement is an address, the derived address equals it — negative
/// displacements included.
pub proof fn lemma_rel_address_exact(
    snapshot: Seq<u8>,
    module_base: usize,
    match_off: int,
    scan_offset: usize,
    instruction_size: usize,
)
    requires
        0 <= match_off,
        match_off + scan_offset + 4 <= snapshot.len(),
        module_base + match_off + instruction_size <= usize::MAX,
        0 <= module_base + match_off + instruction_size + (spec_u32_from_le_bytes(
            snapshot.subrange(match_off + scan_offset, match_off + scan_offset + 4),
        ) as i32),
        module_base + match_off + instruction_size + (spec_u32_from_le_bytes(
            snapshot.subrange(match_off + scan_offset, match_off + scan_offset + 4),
        ) as i32) <= usize::MAX,
    ensures
        spec_rel_address(snapshot, module_base, match_off, scan_offset, instruction_size)
            == module_base + match_off + instruction_size + (spec_u32_from_le_bytes(
            snapshot.subrange(match_off + scan_offset, match_off + scan_offset + 4),
        ) as i32),
{
    lemma_wrap_add_exact(module_base as nat, match_off as nat);
    lemma_wrap_add_exact((module_base + match_off) as nat, instruction_size as nat);
}

/// The attachment target's identity and the live handle to it. The handle is
/// an opaque OS value carried as a plain integer; 0 stands for "no handle".
/// The handle and the attached flag are only ever updated together: never
/// attached with a zero handle, never detached with a nonzero one.
pub struct ProcessData {
    /// Whether a live attachment currently exists.
    pub attached: bool,
    /// How raw memory access reaches the target.
    pub memory_type: MemoryType,
    /// The configured executable name the target is matched by.
    pub name: String,
    /// File name of the attached executable; empty while detached.
    pub filename: String,
    /// Full path of the attached executable; empty while detached.
    pub path: String,
    /// Process id of the attached process; 0 while detached.
    pub id: u32,
    /// OS handle to the attached process, as a plain value; 0 while
    /// detached.
    pub handle: usize,
    /// Whether the attached process is 64-bit.
    pub is_64_bit: bool,
}

/// The operating-system collaborator the attachment logic drives: process
/// and module enumeration, handles, liveness, and bulk memory transfer.
/// Nothing is promised of what these calls return — the environment decides
/// — so callers state what holds of every outcome and check what they need.
pub trait ProcessOs {
    /// The running processes, as (process id, executable path) pairs; `None`
    /// when the enumeration itself fails.
    fn list_running_processes(&mut self) -> Option<Vec<(u32, String)>>;

    /// Opens a process for memory read/write and queries; the returned
    /// handle, or `None` on failure.
    fn open_process(&mut self, pid: u32) -> Option<usize>;

    /// Releases a handle obtained from `open_process`.
    fn close_process(&mut self, handle: usize);

    /// Whether the process behind `handle` is still running.
    fn is_process_alive(&mut self, handle: usize) -> bool;

    /// Whether the process behind `handle` is 64-bit; `None` when the query
    /// fails.
    fn is_64_bit_process(&mut self, handle: usize) -> Option<bool>;

    /// The modules loaded in the process behind `handle`, main module
    /// first, without snapshots; `None` when enumeration fails.
    fn enumerate_modules(&mut self, handle: usize) -> Option<Vec<ProcessModule>>;

    /// One bulk read of `len` bytes at `address` in the process behind
    /// `handle`; possibly short, `None` on failure.
    fn read_process_memory(&mut self, handle: usize, address: usize, len: usize) -> Option<Vec<u8>>;

    /// The executable path of the process this code itself runs in; `None`
    /// when the query fails.
    fn current_process_path(&mut self) -> Option<String>;

    /// Loads the library at the NUL-terminated wide `path` into the process
    /// behind `handle`, blocking until the load finishes; the error text on
    /// failure.
    fn load_library(&mut self, handle: usize, path: &Vec<u16>) -> Result<(), String>;
}

/// A snapshot is never partial: it is empty or exactly the module's size.
pub open spec fn snapshot_sized(m: ProcessModule) -> bool {
    m.memory@.len() == m.size || m.memory@.len() == 0
}

/// An enumerated process is an attachment candidate when the file-name part
/// of its executable path equals the configured target name up to ASCII
/// letter case.
pub open spec fn entry_matches(path: Seq<char>, name: Seq<char>) -> bool {
    eq_ignore_ascii_case(spec_file_name(path), name)
}

/// What one bulk module read contributes as the scan snapshot: the buffer
/// exactly when the read succeeded with the module's full size, and the
/// empty buffer on a failed or short read — never a partial fill.
pub open spec fn spec_snapshot_from_read(read: Option<Vec<u8>>, size: usize) -> Seq<u8> {
    match read {
        Some(buffer) => if buffer@.len() == size {
            buffer@
        } else {
            Seq::<u8>::empty()
        },
        None => Seq::<u8>::empty(),
    }
}

/// Wraps a target process and allows memory access and pattern scanning
/// against it through an OS collaborator.
pub struct Process {
    /// The main module with its snapshot, kept for pattern scans; `None`
    /// until the first successful attach, dropped again when the target's
    /// exit is detected.
    pub main_module: Option<ProcessModule>,
    /// Cache of the target's module list, filled by `get_modules`.
    pub modules: Vec<ProcessModule>,
    /// The attachment state, updated only as a unit.
    pub process_data: ProcessData,
}

impl Process {
    /// The structural invariant every operation preserves: the attached flag
    /// and the handle move together, a detached process has no id, and an
    /// attached one has a main module whose snapshot is empty or full-sized.
    pub open spec fn wf(&self) -> bool {
        &&& (self.process_data.attached <==> self.process_data.handle != 0)
        &&& (!self.process_data.attached ==> self.process_data.id == 0)
        &&& (self.process_data.attached ==> self.main_module is Some)
        &&& (self.process_data.attached ==> snapshot_sized(self.main_module->Some_0))
    }

    /// A detached process that will attach to the executable called `name`,
    /// using the OS's cross-process memory interface.
    pub fn new(name: &str) -> (r: Process)
        ensures
            r.wf(),
            !r.process_data.attached,
            r.process_data.name@ == name@,
            r.process_data.memory_type == MemoryType::Win32Api,
            r.main_module is None,
            r.modules@.len() == 0,
            r.process_data.is_64_bit == true,
    {
        Process {
            main_module: None,
            modules: Vec::new(),
            process_data: ProcessData {
                name: String::from_str(name),
                attached: false,
                memory_type: MemoryType::Win32Api,
                id: 0,
                handle: 0,
                is_64_bit: true,
                filename: String::new(),
                path: String::new(),
            },
        }
    }

    /// A detached process that will attach to the executable called `name`,
    /// accessing memory in the given way.
    pub fn new_with_memory_type(name: &str, memory_type: MemoryType) -> (r: Process)
        ensures
            r.wf(),
            !r.process_data.attached,
            r.process_data.name@ == name@,
            r.process_data.memory_type == memory_type,
            r.main_module is None,
            r.modules@.len() == 0,
            r.process_data.is_64_bit == true,
    {
        Process {
            main_module: None,
            modules: Vec::new(),
            process_data: ProcessData {
                name: String::from_str(name),
                attached: false,
                memory_type,
                id: 0,
                handle: 0,
                is_64_bit: true,
                filename: String::new(),
                path: String::new(),
            },
        }
    }

    /// Returns whether the process is attached and can be read from and
    /// written to.
    pub fn is_attached(&self) -> (r: bool)
        ensures
            r == self.process_data.attached,
    {
        self.process_data.attached
    }

    /// Returns the file path of the attached executable; empty while
    /// detached.
    pub fn get_path(&self) -> (r: String)
        ensures
            r@ == self.process_data.path@,
    {
        self.process_data.path.clone()
    }

    /// Returns whether the attached process is 64-bit.
    pub fn is_64_bit(&self) -> (r: bool)
        ensures
            r == self.process_data.is_64_bit,
    {
        self.process_data.is_64_bit
    }

    /// Returns the handle of the attached process as a plain value; 0 while
    /// detached.
    pub fn get_handle(&self) -> (r: usize)
        ensures
            r == self.process_data.handle,
    {
        self.process_data.handle
    }

    /// Returns the id of the attached process; 0 while detached.
    pub fn get_id(&self) -> (r: u32)
        ensures
            r == self.process_data.id,
    {
        self.process_data.id
    }

    /// Returns how raw memory access reaches the target.
    pub fn get_memory_type(&self) -> (r: MemoryType)
        ensures
            r == self.process_data.memory_type,
    {
        self.process_data.memory_type
    }

    /// The first entry of the enumerated process list, at or after `start`,
    /// whose executable's file name equals `name` case-insensitively —
    /// `None` exactly when no entry at or after `start` matches.  This is
    /// the selection `refresh` makes among the running processes.
    pub fn find_matching_process(list: &Vec<(u32, String)>, name: &String, start: usize) -> (r:
        Option<usize>)
        ensures
            match r {
                Some(i) => {
                    &&& start <= i < list@.len()
                    &&& entry_matches(list@[i as int].1@, name@)
                    &&& forall|k: int| start <= k < i ==> !entry_matches(
                        #[trigger] list@[k].1@,
                        name@,
                    )
                },
                None => forall|k: int| start <= k < list@.len() ==> !entry_matches(
                    #[trigger] list@[k].1@,
                    name@,
                ),
            },
    {
        let n = list.len();
        let mut i: usize = start;
        if i > n {
            return None;
        }
        while i < n
            invariant
                start <= i <= n,
                n == list@.len(),
                forall|k: int| start <= k < i ==> !entry_matches(#[trigger] list@[k].1@, name@),
            decreases n - i,
        {
            let entry = &list[i];
            let file_name = get_file_name_from_string(&entry.1);
            if ascii_eq_ignore_case(name.as_str(), file_name.as_str()) {
                return Some(i);
            }
            i += 1;
        }
        None
    }

    /// The snapshot one bulk module read yields: the buffer when the read
    /// succeeded with exactly `size` bytes, else the empty buffer.  A failed
    /// or short read never leaves a partial snapshot behind.
    pub fn snapshot_from_read(read: Option<Vec<u8>>, size: usize) -> (r: Vec<u8>)
        ensures
            r@ == spec_snapshot_from_read(read, size),
    {
        match read {
            Some(buffer) => {
                if buffer.len() == size {
                    buffer
                } else {
                    let empty: Vec<u8> = Vec::new();
                    proof {
                        assert(empty@ =~= Seq::<u8>::empty());
                    }
                    empty
                }
            },
            None => {
                let empty: Vec<u8> = Vec::new();
                proof {
                    assert(empty@ =~= Seq::<u8>::empty());
                }
                empty
            },
        }
    }

    /// The module cache one enumeration yields: the enumerated list itself,
    /// or the empty list when the enumeration failed.
    pub fn modules_or_empty(enumerated: Option<Vec<ProcessModule>>) -> (r: Vec<ProcessModule>)
        ensures
            enumerated matches Some(l) ==> r == l,
            enumerated is None ==> r@.len() == 0,
    {
        match enumerated {
            Some(l) => l,
            None => Vec::new(),
        }
    }

    /// Tries to attach to the process `pid`, whose executable has the given
    /// path and file name and already matched the configured target name.
    /// On any OS failure along the way the handle is released, the state is
    /// left untouched and the candidate is given up.
    fn try_attach_candidate<Os: ProcessOs>(
        &mut self,
        os: &mut Os,
        pid: u32,
        file_name: String,
        path: String,
    ) -> (r: bool)
        requires
            old(self).wf(),
            !old(self).process_data.attached,
            eq_ignore_ascii_case(file_name@, old(self).process_data.name@),
            file_name@ == spec_file_name(path@),
        ensures
            final(self).wf(),
            !r ==> *final(self) == *old(self),
            r ==> ({
                &&& final(self).process_data.attached
                &&& final(self).process_data.name == old(self).process_data.name
                &&& final(self).process_data.memory_type == old(self).process_data.memory_type
                &&& final(self).process_data.id == pid
                &&& final(self).process_data.filename@ == file_name@
                &&& final(self).process_data.path@ == path@
                &&& final(self).main_module is Some
                &&& final(self).modules == old(self).modules
            }),
    {
        let handle = match os.open_process(pid) {
            None => {
                return false;
            },
            Some(h) => h,
        };
        if handle == 0 {
            return false;
        }
        let is64 = match os.is_64_bit_process(handle) {
            None => {
                os.close_process(handle);
                return false;
            },
            Some(b) => b,
        };
        let mut mods = match os.enumerate_modules(handle) {
            None => {
                os.close_process(handle);
                return false;
            },
            Some(m) => m,
        };
        if mods.len() == 0 {
            os.close_process(handle);
            return false;
        }
        let mut main = mods.remove(0);
        let size = main.size;
        let read = os.read_process_memory(handle, main.base_address, size);
        main.memory = Process::snapshot_from_read(read, size);
        self.process_data.id = pid;
        self.process_data.handle = handle;
        self.process_data.is_64_bit = is64;
        self.process_data.filename = file_name;
        self.process_data.path = path;
        self.process_data.attached = true;
        self.main_module = Some(main);
        true
    }

    /// Attempts to attach to a running process by the configured name, or
    /// confirms an existing attachment.
    ///
    /// While attached: a cheap liveness check; when the target has exited,
    /// the handle and identity are cleared and the module snapshot and list
    /// dropped, all as one unit, the state returns to detached, and the
    /// call reports "Process exited".  While detached: the
    /// running processes are enumerated and the first whose executable name
    /// matches case-insensitively is attached — a handle is opened, its
    /// modules are enumerated, the first is taken as the main module, and
    /// the module's memory is captured as the scan snapshot; when no process
    /// matches, the call reports "Process not running" and the state stays
    /// detached and otherwise untouched.
    pub fn refresh<Os: ProcessOs>(&mut self, os: &mut Os) -> (r: Result<(), String>)
        requires
            old(self).wf(),
        ensures
            final(self).wf(),
            final(self).process_data.name == old(self).process_data.name,
            final(self).process_data.memory_type == old(self).process_data.memory_type,
            old(self).process_data.attached ==> match r {
                Ok(()) => *final(self) == *old(self),
                Err(e) => {
                    &&& e@ == "Process exited"@
                    &&& !final(self).process_data.attached
                    &&& final(self).process_data.handle == 0
                    &&& final(self).process_data.id == 0
                    &&& final(self).process_data.filename@ == Seq::<char>::empty()
                    &&& final(self).process_data.path@ == Seq::<char>::empty()
                    &&& final(self).process_data.is_64_bit == old(self).process_data.is_64_bit
                    &&& final(self).main_module is None
                    &&& final(self).modules@.len() == 0
                },
            },
            !old(self).process_data.attached ==> match r {
                Ok(()) => {
                    &&& final(self).process_data.attached
                    &&& final(self).main_module is Some
                    &&& snapshot_sized(final(self).main_module->Some_0)
                    &&& eq_ignore_ascii_case(
                        final(self).process_data.filename@,
                        old(self).process_data.name@,
                    )
                    &&& final(self).process_data.filename@ == spec_file_name(
                        final(self).process_data.path@,
                    )
                    &&& final(self).modules == old(self).modules
                },
                Err(e) => {
                    &&& *final(self) == *old(self)
                    &&& (e@ == "Process not running"@ || e@
                        == "Failed to get running processes"@)
                },
            },
    {
        if self.process_data.attached {
            if !os.is_process_alive(self.process_data.handle) {
                self.process_data.attached = false;
                self.process_data.id = 0;
                self.process_data.handle = 0;
                self.process_data.filename = String::new();
                self.process_data.path = String::new();
                self.main_module = None;
                self.modules = Vec::new();
                return Err(String::from_str("Process exited"));
            }
            return Ok(());
        }
        let list = match os.list_running_processes() {
            None => {
                return Err(String::from_str("Failed to get running processes"));
            },
            Some(l) => l,
        };
        let n = list.len();
        let mut start: usize = 0;
        loop
            invariant
                start <= n,
                n == list@.len(),
                old(self).wf(),
                !old(self).process_data.attached,
                *self == *old(self),
            decreases n - start,
        {
            match Process::find_matching_process(&list, &self.process_data.name, start) {
                None => {
                    return Err(String::from_str("Process not running"));
                },
                Some(i) => {
                    let entry = &list[i];
                    let pid = entry.0;
                    let path = entry.1.clone();
                    let file_name = get_file_name_from_string(&path);
                    if self.try_attach_candidate(os, pid, file_name, path) {
                        return Ok(());
                    }
                    start = i + 1;
                },
            }
        }
    }

    /// Returns a copy of the main module, snapshot included.
    pub fn get_main_module(&self) -> (r: ProcessModule)
        requires
            self.main_module is Some,
        ensures
            module_like(r, self.main_module->Some_0),
    {
        match &self.main_module {
            Some(m) => m.clone(),
            None => unreached(),
        }
    }

    /// Re-enumerates the target's modules, caches the list, and returns a
    /// copy of it; an enumeration failure yields the empty list.
    pub fn get_modules<Os: ProcessOs>(&mut self, os: &mut Os) -> (r: Vec<ProcessModule>)
        requires
            old(self).wf(),
        ensures
            final(self).wf(),
            final(self).process_data == old(self).process_data,
            final(self).main_module == old(self).main_module,
            r@.len() == final(self).modules@.len(),
            forall|i: int| 0 <= i < r@.len() ==> module_like(
                #[trigger] r@[i],
                final(self).modules@[i],
            ),
    {
        let enumerated = os.enumerate_modules(self.process_data.handle);
        self.modules = Process::modules_or_empty(enumerated);
        let n = self.modules.len();
        let mut copy: Vec<ProcessModule> = Vec::new();
        let mut i: usize = 0;
        while i < n
            invariant
                0 <= i <= n,
                n == self.modules@.len(),
                self.process_data == old(self).process_data,
                self.main_module == old(self).main_module,
                copy@.len() == i,
                forall|k: int| 0 <= k < i ==> module_like(
                    #[trigger] copy@[k],
                    self.modules@[k],
                ),
            decreases n - i,
        {
            copy.push(self.modules[i].clone());
            i += 1;
        }
        copy
    }

    /// Does an absolute scan: finds the signature in the main module's
    /// snapshot and points at module base + match offset + `scan_offset`,
    /// for targets where the matched bytes sit at or beside an absolute
    /// address.  The pointer walks `pointer_offsets` from there.
    pub fn scan_abs(
        &self,
        error_name: &str,
        pattern: &str,
        scan_offset: usize,
        pointer_offsets: Vec<usize>,
    ) -> (r: Result<Pointer, String>)
        requires
            self.main_module is Some,
            valid_signature(pattern@),
        ensures
            ({
                let mm = self.main_module->Some_0;
                let found = spec_scan(mm.memory@, spec_pattern(pattern@));
                match r {
                    Ok(p) => {
                        &&& found is Some
                        &&& p.base_address == wrap_add(
                            wrap_add(found->Some_0 as nat, mm.base_address as nat),
                            scan_offset as nat,
                        )
                        &&& p.offsets == pointer_offsets
                        &&& p.is_64_bit == true
                    },
                    Err(e) => {
                        &&& found is None
                        &&& e@ == "Scan failed: "@ + error_name@
                    },
                }
            }),
    {
        let mm = match &self.main_module {
            Some(m) => m,
            None => unreached(),
        };
        let byte_pattern = to_pattern(pattern);
        let scan_result = scan(mm.memory.as_slice(), byte_pattern.as_slice());
        match scan_result {
            None => Err(String::from_str("Scan failed: ").concat(error_name)),
            Some(offset) => {
                let mut address = offset;
                address = address_add(address, mm.base_address);
                address = address_add(address, scan_offset);
                Ok(Pointer::new(true, address, pointer_offsets))
            },
        }
    }

    /// Does a relative scan, for PC-relative addressing: finds the
    /// signature in the main module's snapshot, reads the 4-byte signed
    /// displacement embedded in the matched bytes at `scan_offset`, and
    /// points at module base + match offset + `instruction_size` +
    /// displacement.  The pointer walks `pointer_offsets` from there.
    pub fn scan_rel(
        &self,
        error_name: &str,
        pattern: &str,
        scan_offset: usize,
        instruction_size: usize,
        pointer_offsets: Vec<usize>,
    ) -> (r: Result<Pointer, String>)
        requires
            self.main_module is Some,
            valid_signature(pattern@),
            spec_pattern(pattern@).len() >= scan_offset + 4,
        ensures
            ({
                let mm = self.main_module->Some_0;
                let found = spec_scan(mm.memory@, spec_pattern(pattern@));
                match r {
                    Ok(p) => {
                        &&& found is Some
                        &&& p.base_address == spec_rel_address(
                            mm.memory@,
                            mm.base_address,
                            found->Some_0,
                            scan_offset,
                            instruction_size,
                        )
                        &&& p.offsets == pointer_offsets
                        &&& p.is_64_bit == true
                    },
                    Err(e) => {
                        &&& found is None
                        &&& e@ == "Scan failed: "@ + error_name@
                    },
                }
            }),
    {
        let mm = match &self.main_module {
            Some(m) => m,
            None => unreached(),
        };
        let byte_pattern = to_pattern(pattern);
        let scan_result = scan(mm.memory.as_slice(), byte_pattern.as_slice());
        match scan_result {
            None => Err(String::from_str("Scan failed: ").concat(error_name)),
            Some(offset) => {
                let memlen = mm.memory.len();
                proof {
                    assert(pattern_matches_at(
                        mm.memory@,
                        spec_pattern(pattern@),
                        offset as int,
                    ));
                    assert(offset + spec_pattern(pattern@).len() <= memlen);
                    assert(offset + scan_offset + 4 <= memlen);
                }
                let dpos = offset + scan_offset;
                let dslice = slice_subrange(mm.memory.as_slice(), dpos, dpos + 4);
                let d = u32_from_le_bytes(dslice);
                let a1 = address_add(address_add(mm.base_address, offset), instruction_size);
                let result = address_add_signed(a1, (#[verifier::truncate] (d as i32)) as isize);
                Ok(Pointer::new(true, result, pointer_offsets))
            },
        }
    }

    /// Create a pointer from an absolute address and a list of offsets,
    /// without scanning — for addresses that come out of a calculation.
    /// The chain's bitness follows the attached process.
    pub fn create_pointer(&self, address: usize, pointer_offsets: Vec<usize>) -> (r: Pointer)
        ensures
            r.base_address == address,
            r.offsets == pointer_offsets,
            r.is_64_bit == self.process_data.is_64_bit,
    {
        Pointer::new(self.is_64_bit(), address, pointer_offsets)
    }

    /// Reads raw bytes at an offset from the main module's base address in
    /// the live target.
    pub fn read_memory_rel<M: MemoryIo>(&self, mem: &M, offset: Option<usize>, len: usize) -> (r:
        Option<Vec<u8>>)
        requires
            self.main_module is Some,
        ensures
            ({
                let a = self.spec_rel_base(offset);
                &&& (r is Some <==> range_readable(mem.mem(), a as int, len as nat))
                &&& (r matches Some(v) ==> v@ == bytes_at(mem.mem(), a as int, len as nat))
            }),
    {
        let address = self.rel_base(offset);
        mem.read_bytes(address, len)
    }

    /// Writes raw bytes at an offset from the main module's base address in
    /// the live target.
    pub fn write_memory_rel<M: MemoryIo>(&self, mem: &mut M, offset: Option<usize>, data: &[u8]) -> (r:
        bool)
        requires
            self.main_module is Some,
        ensures
            ({
                let a = self.spec_rel_base(offset);
                &&& final(mem).mem().dom() == old(mem).mem().dom()
                &&& (r <==> range_readable(old(mem).mem(), a as int, data@.len()))
                &&& (r ==> final(mem).mem() == mem_written(old(mem).mem(), a as int, data@))
                &&& (!r ==> final(mem).mem() == old(mem).mem())
            }),
    {
        let address = self.rel_base(offset);
        mem.write_bytes(address, data)
    }

    /// Reads raw bytes at an absolute address in the live target.
    pub fn read_memory_abs<M: MemoryIo>(&self, mem: &M, address: usize, len: usize) -> (r: Option<
        Vec<u8>,
    >)
        ensures
            r is Some <==> range_readable(mem.mem(), address as int, len as nat),
            r matches Some(v) ==> v@ == bytes_at(mem.mem(), address as int, len as nat),
    {
        mem.read_bytes(address, len)
    }

    /// Writes raw bytes at an absolute address in the live target.
    pub fn write_memory_abs<M: MemoryIo>(&self, mem: &mut M, address: usize, data: &[u8]) -> (r:
        bool)
        ensures
            final(mem).mem().dom() == old(mem).mem().dom(),
            r <==> range_readable(old(mem).mem(), address as int, data@.len()),
            r ==> final(mem).mem() == mem_written(old(mem).mem(), address as int, data@),
            !r ==> final(mem).mem() == old(mem).mem(),
    {
        mem.write_bytes(address, data)
    }

    /// The main module's base address plus an optional offset, wrapping.
    pub open spec fn spec_rel_base(&self, offset: Option<usize>) -> usize {
        match offset {
            None => (self.main_module->Some_0).base_address,
            Some(o) => wrap_add(
                (self.main_module->Some_0).base_address as nat,
                o as nat,
            ) as usize,
        }
    }

    /// The main module's base address plus an optional offset.
    fn rel_base(&self, offset: Option<usize>) -> (r: usize)
        requires
            self.main_module is Some,
        ensures
            r == self.spec_rel_base(offset),
    {
        let mm = match &self.main_module {
            Some(m) => m,
            None => unreached(),
        };
        match offset {
            None => mm.base_address,
            Some(o) => address_add(mm.base_address, o),
        }
    }

    /// The file-name part of each listed process's executable path.
    pub fn file_names_of(list: &Vec<(u32, String)>) -> (r: Vec<String>)
        ensures
            r@.len() == list@.len(),
            forall|i: int| 0 <= i < list@.len() ==> (#[trigger] r@[i])@ == spec_file_name(
                list@[i].1@,
            ),
    {
        let n = list.len();
        let mut out: Vec<String> = Vec::new();
        let mut i: usize = 0;
        while i < n
            invariant
                0 <= i <= n,
                n == list@.len(),
                out@.len() == i,
                forall|k: int| 0 <= k < i ==> (#[trigger] out@[k])@ == spec_file_name(
                    list@[k].1@,
                ),
            decreases n - i,
        {
            let entry = &list[i];
            out.push(get_file_name_from_string(&entry.1));
            i += 1;
        }
        out
    }

    /// Returns the executable names of all processes that are currently
    /// running; whatever the enumeration yields, each name is the file-name
    /// part of that process's path.  An enumeration failure yields the
    /// empty list.
    pub fn get_running_process_names<Os: ProcessOs>(os: &mut Os) -> Vec<String> {
        match os.list_running_processes() {
            None => Vec::new(),
            Some(list) => Process::file_names_of(&list),
        }
    }

    /// Returns the executable name of the process this very code runs in —
    /// not the attachment target's name.
    pub fn get_current_process_name<Os: ProcessOs>(os: &mut Os) -> Result<String, ()> {
        match os.current_process_path() {
            Some(path) => Ok(get_file_name_from_string(&path)),
            None => Err(()),
        }
    }

    /// Attempts to inject a dll into the attached process by having the
    /// OS's library loader load it there, handing over the path as a
    /// NUL-terminated wide string.  While detached nothing happens and the
    /// call succeeds.
    pub fn inject_dll<Os: ProcessOs>(&self, os: &mut Os, dll_path: &str) -> (r: Result<(), String>)
        ensures
            !self.process_data.attached ==> r is Ok,
    {
        if self.is_attached() {
            let mut path_w32: Vec<u16> = get_w32str_from_str(dll_path);
            path_w32.push(0);
            return os.load_library(self.process_data.handle, &path_w32);
        }
        Ok(())
    }
}

} // verus!
