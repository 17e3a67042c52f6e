use mem_rs::memory::SimulatedMemory;
use mem_rs::process::Process;
use mem_rs::process_module::ProcessModule;

fn put_u32(image: &mut Vec<u8>, off: usize, v: u32) {
    let b = v.to_le_bytes();
    image[off..off + 4].copy_from_slice(&b);
}

fn put_u16(image: &mut Vec<u8>, off: usize, v: u16) {
    let b = v.to_le_bytes();
    image[off..off + 2].copy_from_slice(&b);
}

/// An image with two named exports, listed out of ordinal order.
fn image_with_exports() -> Vec<u8> {
    let mut image = vec![0u8; 0x200];
    // NT headers at 0x80; the 64-bit data directory begins 136 bytes in.
    put_u32(&mut image, 0x3c, 0x80);
    put_u32(&mut image, 0x80 + 136, 0x140);
    // Export directory at 0x140: two names; the three tables.
    put_u32(&mut image, 0x140 + 24, 2);
    put_u32(&mut image, 0x140 + 28, 0x170);
    put_u32(&mut image, 0x140 + 32, 0x180);
    put_u32(&mut image, 0x140 + 36, 0x190);
    // Function table.
    put_u32(&mut image, 0x170, 0x111);
    put_u32(&mut image, 0x174, 0x222);
    // Name table.
    put_u32(&mut image, 0x180, 0x1a0);
    put_u32(&mut image, 0x184, 0x1b0);
    // Ordinal table: the first name maps to function 1, the second to 0.
    put_u16(&mut image, 0x190, 1);
    put_u16(&mut image, 0x192, 0);
    // The names themselves, NUL-terminated.
    image[0x1a0..0x1a6].copy_from_slice(b"alpha\0");
    image[0x1b0..0x1b5].copy_from_slice(b"beta\0");
    image
}

const BASE: usize = 0x1000;

#[test]
fn exports_pair_each_name_with_its_ordinals_function() {
    let mem = SimulatedMemory::new(BASE, image_with_exports());
    let module = ProcessModule::new(1, String::from("m.dll"), String::from("m.dll"), BASE, 0x200);
    let exports = module.get_exports(&mem, true);
    assert_eq!(exports.len(), 2);
    assert_eq!(exports[0].0, "alpha");
    assert_eq!(exports[0].1, BASE + 0x222);
    assert_eq!(exports[1].0, "beta");
    assert_eq!(exports[1].1, BASE + 0x111);
}

#[test]
fn an_image_without_an_export_directory_has_no_exports() {
    // Read as a 32-bit image, the data-directory slot (120 bytes into the
    // NT headers) holds zero: no export directory.
    let mem = SimulatedMemory::new(BASE, image_with_exports());
    let module = ProcessModule::new(1, String::from("m.dll"), String::from("m.dll"), BASE, 0x200);
    let exports = module.get_exports(&mem, false);
    assert_eq!(exports.len(), 0);
}

#[test]
fn snapshot_from_read_accepts_only_a_full_sized_buffer() {
    assert_eq!(Process::snapshot_from_read(Some(vec![1u8, 2, 3]), 3), vec![1u8, 2, 3]);
    assert_eq!(Process::snapshot_from_read(Some(vec![1u8, 2]), 3), Vec::<u8>::new());
    assert_eq!(Process::snapshot_from_read(None, 3), Vec::<u8>::new());
}

#[test]
fn modules_or_empty_passes_the_list_through() {
    let module = ProcessModule::new(9, String::from("p"), String::from("p"), 0x10, 4);
    let out = Process::modules_or_empty(Some(vec![module]));
    assert_eq!(out.len(), 1);
    assert_eq!(out[0].id, 9);
    assert_eq!(Process::modules_or_empty(None).len(), 0);
}

#[test]
fn find_matching_process_picks_the_first_match_at_or_after_start() {
    let list = vec![
        (1u32, String::from("C:\\a\\other.exe")),
        (2u32, String::from("C:\\b\\Game.EXE")),
        (3u32, String::from("C:\\c\\game.exe")),
    ];
    let name = String::from("GAME.exe");
    assert_eq!(Process::find_matching_process(&list, &name, 0), Some(1));
    assert_eq!(Process::find_matching_process(&list, &name, 2), Some(2));
    assert_eq!(Process::find_matching_process(&list, &name, 3), None);
    let other = String::from("nothere.exe");
    assert_eq!(Process::find_matching_process(&list, &other, 0), None);
}
