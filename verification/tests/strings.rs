use mem_rs::helpers::{
    ascii_eq_ignore_case, get_file_name_from_string, get_w32str_from_str, vec_u16_to_u8,
    w32str_to_string,
};

#[test]
fn file_name_is_the_part_after_the_last_separator() {
    assert_eq!(
        get_file_name_from_string(&String::from("C:\\games\\DarkSoulsRemastered.exe")),
        "DarkSoulsRemastered.exe"
    );
    assert_eq!(get_file_name_from_string(&String::from("/usr/bin/tool")), "tool");
    assert_eq!(get_file_name_from_string(&String::from("bare.exe")), "bare.exe");
    assert_eq!(get_file_name_from_string(&String::from("C:\\dir\\")), "");
}

#[test]
fn w32str_decodes_low_bytes_up_to_the_first_nul() {
    let wide = vec![0x61u16, 0x62, 0x63, 0, 0x64];
    assert_eq!(w32str_to_string(&wide), "abc");
}

#[test]
fn w32str_of_only_nul_is_empty() {
    assert_eq!(w32str_to_string(&vec![0u16, 0x41]), "");
    assert_eq!(w32str_to_string(&Vec::new()), "");
}

#[test]
fn w32str_takes_the_low_byte_of_each_unit() {
    // 0x0141 has low byte 0x41 = 'A'.
    assert_eq!(w32str_to_string(&vec![0x0141u16]), "A");
}

#[test]
fn utf16_encoding_of_ascii_is_one_unit_per_char() {
    assert_eq!(get_w32str_from_str("abc"), vec![0x61u16, 0x62, 0x63]);
}

#[test]
fn utf16_encoding_uses_surrogate_pairs_beyond_the_basic_plane() {
    // U+10400 encodes as the pair D801 DC00.
    let s = "\u{10400}";
    assert_eq!(get_w32str_from_str(s), vec![0xd801u16, 0xdc00]);
    // Check against the standard library's encoder.
    let expected: Vec<u16> = s.encode_utf16().collect();
    assert_eq!(get_w32str_from_str(s), expected);
}

#[test]
fn wide_string_bytes_are_little_endian_pairs() {
    let wide = vec![0x0102u16, 0x0304];
    assert_eq!(vec_u16_to_u8(&wide), vec![0x02u8, 0x01, 0x04, 0x03]);
}

#[test]
fn case_insensitive_comparison_covers_ascii_letters_only() {
    assert!(ascii_eq_ignore_case("Game.EXE", "gAME.exe"));
    assert!(!ascii_eq_ignore_case("game.exe", "game.ex"));
    assert!(!ascii_eq_ignore_case("game.exe", "gane.exe"));
    assert!(ascii_eq_ignore_case("", ""));
}

#[test]
fn round_trip_string_to_wide_and_back() {
    let wide = get_w32str_from_str("Monitor.exe");
    let mut with_nul = wide.clone();
    with_nul.push(0);
    assert_eq!(w32str_to_string(&with_nul), "Monitor.exe");
}
