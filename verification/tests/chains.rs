use mem_rs::memory::{MemoryIo, SimulatedMemory};
use mem_rs::pointer::Pointer;
use mem_rs::process_module::ProcessModule;

fn le64(v: u64) -> [u8; 8] {
    let mut out = [0u8; 8];
    let mut x = v;
    let mut i = 0;
    while i < 8 {
        out[i] = (x % 256) as u8;
        x /= 256;
        i += 1;
    }
    out
}

#[test]
fn empty_offset_list_resolves_to_base() {
    let mem = SimulatedMemory::new(0x1000, vec![0u8; 16]);
    let p = Pointer::new(true, 0x1234, Vec::new());
    assert_eq!(p.resolve(&mem, None), 0x1234);
}

#[test]
fn single_offset_resolves_without_any_read() {
    // No byte of this memory is readable, so a dereference would yield the
    // sentinel; a single terminal offset never dereferences.
    let mem = SimulatedMemory::new(0, Vec::new());
    let p = Pointer::new(true, 0x1000, vec![0x40]);
    assert_eq!(p.resolve(&mem, None), 0x1040);
}

#[test]
fn null_intermediate_link_resolves_to_sentinel_zero() {
    // The value read at base + a is zero: the chain resolves to 0 no matter
    // what the second offset is.
    let mem = SimulatedMemory::new(0x1000, vec![0u8; 64]);
    let p = Pointer::new(true, 0x1000, vec![8, 0x4242]);
    assert_eq!(p.resolve(&mem, None), 0);
    let q = Pointer::new(true, 0x1000, vec![8, 7]);
    assert_eq!(q.resolve(&mem, None), 0);
}

#[test]
fn chain_follows_a_64_bit_link() {
    let mut bytes = vec![0u8; 64];
    // At 0x1000 store the link value 0x1020.
    bytes[..8].copy_from_slice(&le64(0x1020));
    // At 0x1024 store one marked byte.
    bytes[0x24] = 0xcd;
    let mem = SimulatedMemory::new(0x1000, bytes);
    let p = Pointer::new(true, 0x1000, vec![0, 4]);
    assert_eq!(p.resolve(&mem, None), 0x1024);
    assert_eq!(p.read_u8_rel(&mem, None), 0xcd);
}

#[test]
fn chain_follows_a_32_bit_link() {
    let mut bytes = vec![0u8; 64];
    // A 32-bit chain reads only 4 bytes per link; the next 4 bytes would
    // change the link value if 8 were read.
    bytes[0] = 0x20;
    bytes[1] = 0x10;
    bytes[4] = 0xff;
    bytes[0x25] = 0x7e;
    let mem = SimulatedMemory::new(0x1000, bytes);
    let p = Pointer::new(false, 0x1000, vec![0, 5]);
    assert_eq!(p.resolve(&mem, None), 0x1025);
    assert_eq!(p.read_u8_rel(&mem, None), 0x7e);
}

#[test]
fn ad_hoc_offset_is_appended_without_mutating_the_chain() {
    let mem = SimulatedMemory::new(0x1000, vec![0u8; 16]);
    let p = Pointer::new(true, 0x2000, Vec::new());
    assert_eq!(p.resolve(&mem, Some(0x10)), 0x2010);
    // The stored chain is unchanged: resolving without the offset still
    // yields the bare base.
    assert_eq!(p.resolve(&mem, None), 0x2000);
}

#[test]
fn round_trip_u8_i8_through_resolved_address() {
    let mut mem = SimulatedMemory::new(0x1000, vec![0u8; 32]);
    let p = Pointer::new(true, 0x1000, Vec::new());
    p.write_u8_rel(&mut mem, Some(3), 0xe7);
    assert_eq!(p.read_u8_rel(&mem, Some(3)), 0xe7);
    p.write_i8_rel(&mut mem, Some(4), -100);
    assert_eq!(p.read_i8_rel(&mem, Some(4)), -100);
}

#[test]
fn round_trip_u32_i32_through_resolved_address() {
    let mut mem = SimulatedMemory::new(0x1000, vec![0u8; 32]);
    let p = Pointer::new(true, 0x1000, Vec::new());
    p.write_u32_rel(&mut mem, Some(8), 0xdead_beef);
    assert_eq!(p.read_u32_rel(&mem, Some(8)), 0xdead_beef);
    p.write_i32_rel(&mut mem, Some(12), -123_456_789);
    assert_eq!(p.read_i32_rel(&mem, Some(12)), -123_456_789);
}

#[test]
fn round_trip_u64_i64_through_resolved_address() {
    let mut mem = SimulatedMemory::new(0x1000, vec![0u8; 32]);
    let p = Pointer::new(true, 0x1000, Vec::new());
    p.write_u64_rel(&mut mem, Some(16), 0x0123_4567_89ab_cdef);
    assert_eq!(p.read_u64_rel(&mem, Some(16)), 0x0123_4567_89ab_cdef);
    p.write_i64_rel(&mut mem, Some(24), -9_007_199_254_740_993);
    assert_eq!(p.read_i64_rel(&mem, Some(24)), -9_007_199_254_740_993);
}

#[test]
fn round_trip_through_a_32_bit_chain() {
    let mut bytes = vec![0u8; 64];
    bytes[0] = 0x20;
    bytes[1] = 0x10;
    let mut mem = SimulatedMemory::new(0x1000, bytes);
    // 32-bit chain: the link at 0x1000 points at 0x1020; the ad-hoc offset
    // is the terminal one.
    let p = Pointer::new(false, 0x1000, vec![0]);
    p.write_u32_rel(&mut mem, Some(4), 0x5555_aaaa);
    assert_eq!(p.read_u32_rel(&mem, Some(4)), 0x5555_aaaa);
    p.write_i32_rel(&mut mem, Some(8), -7);
    assert_eq!(p.read_i32_rel(&mem, Some(8)), -7);
}

#[test]
fn read_bool_is_true_for_any_nonzero_byte() {
    let mut mem = SimulatedMemory::new(0x1000, vec![0u8; 8]);
    let p = Pointer::new(true, 0x1000, Vec::new());
    assert!(!p.read_bool_rel(&mem, Some(0)));
    p.write_u8_rel(&mut mem, Some(0), 2);
    assert!(p.read_bool_rel(&mem, Some(0)));
    p.write_u8_rel(&mut mem, Some(0), 1);
    assert!(p.read_bool_rel(&mem, Some(0)));
}

#[test]
fn failed_reads_yield_zero_and_failed_writes_change_nothing() {
    // Address 0 is unreadable, as it is behind a resolved sentinel.
    let mut mem = SimulatedMemory::new(0x1000, vec![0xffu8; 8]);
    let p = Pointer::new(true, 0, Vec::new());
    assert_eq!(p.read_u32_rel(&mem, None), 0);
    assert_eq!(p.read_u64_rel(&mem, None), 0);
    assert_eq!(p.read_i8_rel(&mem, None), 0);
    assert!(!p.read_bool_rel(&mem, None));
    p.write_u32_rel(&mut mem, None, 7);
    // The readable region is untouched.
    let q = Pointer::new(true, 0x1000, Vec::new());
    assert_eq!(q.read_u32_rel(&mem, None), 0xffff_ffff);
}

#[test]
fn raw_reads_and_writes_through_the_chain() {
    let mut mem = SimulatedMemory::new(0x1000, vec![0u8; 16]);
    let p = Pointer::new(true, 0x1000, Vec::new());
    assert!(p.write_memory_rel(&mut mem, Some(2), &[1, 2, 3]));
    let got = p.read_memory_rel(&mem, Some(2), 3).unwrap();
    assert_eq!(got, vec![1u8, 2, 3]);
    // A range leaving the region fails as a whole.
    assert!(p.read_memory_rel(&mem, Some(14), 3).is_none());
    assert!(!p.write_memory_abs(&mut mem, 0x0800, &[9]));
    assert_eq!(p.read_memory_abs(&mem, 0x1002, 1).unwrap(), vec![1u8]);
}

#[test]
fn simulated_memory_reads_its_own_contents() {
    let mem = SimulatedMemory::new(0x500, vec![10u8, 20, 30]);
    assert_eq!(mem.read_bytes(0x500, 3).unwrap(), vec![10u8, 20, 30]);
    assert_eq!(mem.read_bytes(0x501, 1).unwrap(), vec![20u8]);
    assert!(mem.read_bytes(0x4ff, 1).is_none());
    assert!(mem.read_bytes(0x502, 2).is_none());
    assert!(mem.read_bytes(0x900, 0).is_some());
}

#[test]
fn module_relative_raw_access_uses_the_module_base() {
    let mut mem = SimulatedMemory::new(0x2000, vec![0u8; 16]);
    let module = ProcessModule::new(1, String::from("m"), String::from("m"), 0x2000, 16);
    assert!(module.write_memory_rel(&mut mem, Some(4), &[0xaa, 0xbb]));
    assert_eq!(module.read_memory_rel(&mem, Some(4), 2).unwrap(), vec![0xaau8, 0xbb]);
    assert_eq!(module.read_memory_abs(&mem, 0x2005, 1).unwrap(), vec![0xbbu8]);
    assert!(!module.write_memory_abs(&mut mem, 0x1fff, &[1]));
    assert!(module.read_memory_rel(&mem, Some(15), 2).is_none());
}

#[test]
fn default_pointer_is_a_null_64_bit_chain() {
    let p = Pointer::default();
    assert!(p.is_64_bit);
    assert_eq!(p.get_base_address(), 0);
    assert_eq!(p.offsets.len(), 0);
}
