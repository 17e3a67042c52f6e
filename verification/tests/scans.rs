use mem_rs::process::Process;
use mem_rs::process_module::ProcessModule;
use mem_rs::simulation::{SimulatedOs, SimulatedProcess};

const BASE: usize = 0x0040_0000;

/// An attached process whose main module holds `memory`.
fn attached_with_memory(memory: Vec<u8>) -> Process {
    let path = String::from("C:\\target\\game.exe");
    let name = String::from("game.exe");
    let size = memory.len();
    let mut os = SimulatedOs::new();
    os.processes.push(SimulatedProcess {
        pid: 11,
        path: path.clone(),
        alive: true,
        module: ProcessModule::new(1, path, name, BASE, size),
        memory,
    });
    let mut process = Process::new("game.exe");
    process.refresh(&mut os).unwrap();
    process
}

#[test]
fn scan_abs_points_at_base_plus_match_plus_displacement() {
    let mut memory = vec![0u8; 64];
    memory[10] = 0x56;
    memory[11] = 0x8b;
    memory[12] = 0xf1;
    let process = attached_with_memory(memory);
    let pointer = process.scan_abs("Stats", "56 8b f1", 8, vec![0, 4]).unwrap();
    assert_eq!(pointer.get_base_address(), BASE + 10 + 8);
    assert_eq!(pointer.offsets, vec![0, 4]);
    assert!(pointer.is_64_bit);
}

#[test]
fn scan_abs_reports_the_label_when_nothing_matches() {
    let process = attached_with_memory(vec![0u8; 64]);
    let err = process.scan_abs("GameDataMan", "56 8b f1", 0, vec![]).unwrap_err();
    assert_eq!(err, "Scan failed: GameDataMan");
}

#[test]
fn scan_rel_adds_the_embedded_displacement() {
    // Pattern "48 8b 05 ? ? ? ?" at offset 10; the 4 wildcard bytes at
    // match + 3 hold the little-endian displacement 0x20.
    let mut memory = vec![0u8; 64];
    memory[10] = 0x48;
    memory[11] = 0x8b;
    memory[12] = 0x05;
    memory[13] = 0x20;
    let process = attached_with_memory(memory);
    let pointer = process.scan_rel("IGT", "48 8b 05 ? ? ? ?", 3, 7, vec![0]).unwrap();
    assert_eq!(pointer.get_base_address(), BASE + 10 + 7 + 0x20);
}

#[test]
fn scan_rel_handles_a_negative_displacement() {
    let mut memory = vec![0u8; 64];
    memory[10] = 0x48;
    memory[11] = 0x8b;
    memory[12] = 0x0d;
    // Displacement -16, little-endian two's complement.
    memory[13] = 0xf0;
    memory[14] = 0xff;
    memory[15] = 0xff;
    memory[16] = 0xff;
    let process = attached_with_memory(memory);
    let pointer = process.scan_rel("AiTimer", "48 8b 0d ? ? ? ?", 3, 7, vec![0]).unwrap();
    assert_eq!(pointer.get_base_address(), BASE + 10 + 7 - 16);
}

#[test]
fn scan_rel_reports_the_label_when_nothing_matches() {
    let process = attached_with_memory(vec![0u8; 16]);
    let err = process.scan_rel("AI Timer", "48 8b 0d ? ? ? ?", 3, 7, vec![0]).unwrap_err();
    assert_eq!(err, "Scan failed: AI Timer");
}

#[test]
fn create_pointer_takes_the_address_and_bitness_as_given() {
    let process = attached_with_memory(vec![0u8; 8]);
    let pointer = process.create_pointer(0x1234, vec![0xc, 0x10]);
    assert_eq!(pointer.get_base_address(), 0x1234);
    assert_eq!(pointer.offsets, vec![0xc, 0x10]);
    assert_eq!(pointer.is_64_bit, process.is_64_bit());
}
