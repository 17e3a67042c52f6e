//! A simulated operating-system collaborator: a table of make-believe
//! processes, each with one module and its memory, driving the attachment
//! state machine in tests exactly as the real OS layer would.

use vstd::prelude::*;
use vstd::string::StringExecFns;
use crate::process::ProcessOs;
use crate::process_module::ProcessModule;

verus! {

/// One make-believe process: an id, an executable path, a liveness flag,
/// its main module, and the bytes of that module's memory.
pub struct SimulatedProcess {
    /// Process id; the simulated handle for it is `pid + 1`.
    pub pid: u32,
    /// Full path of the simulated executable.
    pub path: String,
    /// Whether the process still runs; a dead one disappears from
    /// enumeration and fails the liveness check.
    pub alive: bool,
    /// The process's main (and only) module, without a snapshot.
    pub module: ProcessModule,
    /// The bytes at the module's address range.
    pub memory: Vec<u8>,
}

/// The simulated OS: a list of processes and the path of the process the
/// simulation itself "runs in".
pub struct SimulatedOs {
    /// The simulated process table.
    pub processes: Vec<SimulatedProcess>,
    /// The path reported for the calling process itself.
    pub own_path: String,
    /// When set, process enumeration itself fails, as the OS call can.
    pub fail_listing: bool,
}

impl SimulatedOs {
    /// An empty simulation.
    pub fn new() -> (r: SimulatedOs)
        ensures
            r.processes@.len() == 0,
    {
        SimulatedOs { processes: Vec::new(), own_path: String::new(), fail_listing: false }
    }

    /// The index of the live process whose simulated handle is `handle`.
    fn find_by_handle(&self, handle: usize) -> (r: Option<usize>)
        ensures
            r matches Some(i) ==> i < self.processes@.len(),
    {
        if handle == 0 {
            return None;
        }
        let n = self.processes.len();
        let mut i: usize = 0;
        while i < n
            invariant
                0 <= i <= n,
                n == self.processes@.len(),
            decreases n - i,
        {
            let p = &self.processes[i];
            if p.pid as u64 + 1 == handle as u64 {
                return Some(i);
            }
            i += 1;
        }
        None
    }
}

impl ProcessOs for SimulatedOs {
    fn list_running_processes(&mut self) -> Option<Vec<(u32, String)>> {
        if self.fail_listing {
            return None;
        }
        let n = self.processes.len();
        let mut out: Vec<(u32, String)> = Vec::new();
        let mut i: usize = 0;
        while i < n
            invariant
                0 <= i <= n,
                n == self.processes@.len(),
            decreases n - i,
        {
            let p = &self.processes[i];
            if p.alive {
                out.push((p.pid, p.path.clone()));
            }
            i += 1;
        }
        Some(out)
    }

    fn open_process(&mut self, pid: u32) -> Option<usize> {
        if pid == u32::MAX {
            return None;
        }
        let n = self.processes.len();
        let mut i: usize = 0;
        while i < n
            invariant
                0 <= i <= n,
                n == self.processes@.len(),
                pid < u32::MAX,
            decreases n - i,
        {
            let p = &self.processes[i];
            if p.alive && p.pid == pid {
                return Some((pid + 1) as usize);
            }
            i += 1;
        }
        None
    }

    fn close_process(&mut self, handle: usize) {
    }

    fn is_process_alive(&mut self, handle: usize) -> bool {
        match self.find_by_handle(handle) {
            Some(i) => self.processes[i].alive,
            None => false,
        }
    }

    fn is_64_bit_process(&mut self, handle: usize) -> Option<bool> {
        match self.find_by_handle(handle) {
            Some(_) => Some(true),
            None => None,
        }
    }

    fn enumerate_modules(&mut self, handle: usize) -> Option<Vec<ProcessModule>> {
        match self.find_by_handle(handle) {
            Some(i) => {
                let mut mods: Vec<ProcessModule> = Vec::new();
                mods.push(self.processes[i].module.clone());
                Some(mods)
            },
            None => None,
        }
    }

    fn read_process_memory(&mut self, handle: usize, address: usize, len: usize) -> Option<
        Vec<u8>,
    > {
        let i = match self.find_by_handle(handle) {
            Some(i) => i,
            None => {
                return None;
            },
        };
        let p = &self.processes[i];
        let base = p.module.base_address;
        let n = p.memory.len();
        if address < base {
            return None;
        }
        let off = address - base;
        if off >= n || len > n - off {
            return None;
        }
        let mut out: Vec<u8> = Vec::new();
        let mut j: usize = 0;
        while j < len
            invariant
                0 <= j <= len,
                i < self.processes@.len(),
                n == self.processes@[i as int].memory@.len(),
                off + len <= n,
            decreases len - j,
        {
            out.push(self.processes[i].memory[off + j]);
            j += 1;
        }
        Some(out)
    }

    fn current_process_path(&mut self) -> Option<String> {
        Some(self.own_path.clone())
    }

    fn load_library(&mut self, handle: usize, path: &Vec<u16>) -> Result<(), String> {
        match self.find_by_handle(handle) {
            Some(_) => Ok(()),
            None => Err(String::from_str("process handle invalid")),
        }
    }
}

} // verus!
