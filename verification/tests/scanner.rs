use mem_rs::pattern::{scan, to_pattern};

#[test]
fn to_pattern_parses_bytes_and_wildcards() {
    let p = to_pattern("48 8b ? 10");
    assert_eq!(p, vec![Some(0x48u8), Some(0x8b), None, Some(0x10)]);
}

#[test]
fn to_pattern_accepts_both_hex_cases() {
    let p = to_pattern("aB Cd EF 09");
    assert_eq!(p, vec![Some(0xabu8), Some(0xcd), Some(0xef), Some(0x09)]);
}

#[test]
fn to_pattern_single_token() {
    let p = to_pattern("?");
    assert_eq!(p, vec![None]);
}

#[test]
fn scan_finds_pattern_with_arbitrary_bytes_at_wildcards() {
    // The pattern placed at offset 5, wildcard positions holding 0x99 and 0x77.
    let haystack = [
        0u8, 1, 2, 3, 4, 0x48, 0x99, 0x8b, 0x77, 0x10, 11, 12,
    ];
    let needle = to_pattern("48 ? 8b ? 10");
    assert_eq!(scan(&haystack, &needle), Some(5));

    // Same pattern, different bytes at the wildcard positions: same offset.
    let haystack2 = [
        0u8, 1, 2, 3, 4, 0x48, 0x00, 0x8b, 0xff, 0x10, 11, 12,
    ];
    assert_eq!(scan(&haystack2, &needle), Some(5));
}

#[test]
fn scan_returns_first_of_several_matches() {
    let haystack = [0xaau8, 0xbb, 0xaa, 0xbb, 0xaa, 0xbb];
    let needle = to_pattern("aa bb");
    assert_eq!(scan(&haystack, &needle), Some(0));
}

#[test]
fn scan_finds_match_at_the_last_possible_position() {
    let haystack = [1u8, 2, 3, 0xde, 0xad];
    let needle = to_pattern("de ad");
    assert_eq!(scan(&haystack, &needle), Some(3));
}

#[test]
fn scan_not_found_returns_none() {
    let haystack = [1u8, 2, 3, 4, 5];
    let needle = to_pattern("06 07");
    assert_eq!(scan(&haystack, &needle), None);
}

#[test]
fn scan_empty_haystack_returns_none() {
    let haystack: [u8; 0] = [];
    let needle = to_pattern("01");
    assert_eq!(scan(&haystack, &needle), None);
}

#[test]
fn scan_pattern_longer_than_haystack_returns_none() {
    let haystack = [1u8, 2];
    let needle = to_pattern("01 02 03");
    assert_eq!(scan(&haystack, &needle), None);
}

#[test]
fn scan_all_wildcards_matches_at_offset_zero() {
    let haystack = [9u8, 8, 7];
    let needle = to_pattern("? ?");
    assert_eq!(scan(&haystack, &needle), Some(0));
}
