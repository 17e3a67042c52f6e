use mem_rs::memory::MemoryType;
use mem_rs::process::{Process, ProcessOs};
use mem_rs::process_module::ProcessModule;
use mem_rs::simulation::{SimulatedOs, SimulatedProcess};

fn target_process(pid: u32, size: usize) -> SimulatedProcess {
    let path = String::from("C:\\games\\DarkSoulsRemastered.exe");
    let name = String::from("DarkSoulsRemastered.exe");
    SimulatedProcess {
        pid,
        path: path.clone(),
        alive: true,
        module: ProcessModule::new(1, path, name, 0x0040_0000, size),
        memory: vec![0xabu8; size],
    }
}

#[test]
fn refresh_cycle_not_running_then_attached_then_exited() {
    let mut os = SimulatedOs::new();
    let mut process = Process::new("darksoulsremastered.EXE");

    // No matching process: stays detached and reports so.
    let r = process.refresh(&mut os);
    assert_eq!(r.unwrap_err(), "Process not running");
    assert!(!process.is_attached());
    assert_eq!(process.get_handle(), 0);

    // The target appears: refresh attaches, snapshot equals the module size.
    os.processes.push(target_process(42, 256));
    process.refresh(&mut os).unwrap();
    assert!(process.is_attached());
    assert_ne!(process.get_handle(), 0);
    assert_eq!(process.get_id(), 42);
    assert_eq!(process.get_path(), "C:\\games\\DarkSoulsRemastered.exe");
    let mm = process.get_main_module();
    assert_eq!(mm.size, 256);
    assert_eq!(mm.memory.len(), 256);
    assert_eq!(mm.base_address, 0x0040_0000);

    // Refreshing while attached and alive is a cheap no-op.
    process.refresh(&mut os).unwrap();
    assert!(process.is_attached());

    // The target dies: refresh reports the exit and clears the handle,
    // the snapshot and the module list as one unit.
    os.processes[0].alive = false;
    let r = process.refresh(&mut os);
    assert_eq!(r.unwrap_err(), "Process exited");
    assert!(!process.is_attached());
    assert_eq!(process.get_handle(), 0);
    assert_eq!(process.get_id(), 0);
    assert_eq!(process.get_path(), "");
    assert!(process.main_module.is_none());
    assert_eq!(process.modules.len(), 0);
}

#[test]
fn refresh_reports_enumeration_failure() {
    let mut os = SimulatedOs::new();
    os.fail_listing = true;
    let mut process = Process::new("anything.exe");
    let r = process.refresh(&mut os);
    assert_eq!(r.unwrap_err(), "Failed to get running processes");
    assert!(!process.is_attached());
}

#[test]
fn refresh_matches_name_case_insensitively_and_by_file_name() {
    let mut os = SimulatedOs::new();
    os.processes.push(target_process(7, 32));
    let mut process = Process::new("DARKSOULSREMASTERED.exe");
    process.refresh(&mut os).unwrap();
    assert!(process.is_attached());

    let mut other = Process::new("somethingelse.exe");
    let r = other.refresh(&mut os);
    assert_eq!(r.unwrap_err(), "Process not running");
}

#[test]
fn new_process_starts_detached_with_win32_memory_type() {
    let process = Process::new("a.exe");
    assert!(!process.is_attached());
    assert!(matches!(process.get_memory_type(), MemoryType::Win32Api));
    assert!(process.is_64_bit());
    assert_eq!(process.get_id(), 0);

    let direct = Process::new_with_memory_type("a.exe", MemoryType::Direct);
    assert!(matches!(direct.get_memory_type(), MemoryType::Direct));
}

#[test]
fn get_modules_returns_the_attached_process_modules() {
    let mut os = SimulatedOs::new();
    os.processes.push(target_process(3, 16));
    let mut process = Process::new("darksoulsremastered.exe");
    process.refresh(&mut os).unwrap();
    let mods = process.get_modules(&mut os);
    assert_eq!(mods.len(), 1);
    assert_eq!(mods[0].name, "DarkSoulsRemastered.exe");
    assert_eq!(mods[0].base_address, 0x0040_0000);
}

#[test]
fn running_process_names_are_file_names_of_the_listed_paths() {
    let mut os = SimulatedOs::new();
    os.processes.push(target_process(1, 8));
    let names = Process::get_running_process_names(&mut os);
    assert_eq!(names, vec![String::from("DarkSoulsRemastered.exe")]);
}

#[test]
fn current_process_name_is_the_file_name_of_the_own_path() {
    let mut os = SimulatedOs::new();
    os.own_path = String::from("C:\\tools\\monitor.exe");
    let name = Process::get_current_process_name(&mut os).unwrap();
    assert_eq!(name, "monitor.exe");
}

#[test]
fn inject_dll_succeeds_against_a_live_target_and_is_a_no_op_while_detached() {
    let mut os = SimulatedOs::new();
    os.processes.push(target_process(9, 8));
    let mut process = Process::new("darksoulsremastered.exe");

    // Detached: nothing happens, the call succeeds.
    process.inject_dll(&mut os, "C:\\temp\\native.dll").unwrap();

    process.refresh(&mut os).unwrap();
    process.inject_dll(&mut os, "C:\\temp\\native.dll").unwrap();
}

#[test]
fn load_library_fails_for_an_unknown_handle() {
    let mut os = SimulatedOs::new();
    let r = os.load_library(12345, &vec![0u16]);
    assert_eq!(r.unwrap_err(), "process handle invalid");
}

#[test]
fn a_short_module_read_leaves_the_snapshot_empty() {
    // The simulated process claims a module larger than its memory: the
    // snapshot read fails and must stay empty, not partially filled.
    let mut os = SimulatedOs::new();
    let mut p = target_process(5, 64);
    p.module.size = 128;
    os.processes.push(p);
    let mut process = Process::new("darksoulsremastered.exe");
    process.refresh(&mut os).unwrap();
    assert!(process.is_attached());
    assert_eq!(process.get_main_module().memory.len(), 0);
}
