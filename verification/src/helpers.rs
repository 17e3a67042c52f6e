//! Text helpers: file names from paths, and conversion between Rust strings
//! and the wide (UTF-16) strings that process and module enumeration yields.

use vstd::prelude::*;
use vstd::bytes::{spec_u16_to_le_bytes, lemma_auto_spec_u16_to_from_le_bytes, u16_to_le_bytes};
use vstd::string::{StrSliceExecFns, StringExecFns};

verus! {

/// Relies on String::push: appends exactly one character at the end.
#[verifier::external_body]
pub(crate) fn push_char(s: &mut String, c: char)
    ensures
        final(s)@ == old(s)@ + seq![c],
{
    s.push(c);
}

/// A path separator: either the Windows or the Unix one.
pub open spec fn is_path_separator(c: char) -> bool {
    c == '\\' || c == '/'
}

/// The index right after the last path separator in `s[..i]`, or `0` when
/// `s[..i]` holds none.
pub open spec fn file_name_start(s: Seq<char>, i: int) -> int
    decreases i when 0 <= i <= s.len()
{
    if i <= 0 {
        0
    } else if is_path_separator(s[i - 1]) {
        i
    } else {
        file_name_start(s, i - 1)
    }
}

pub proof fn lemma_file_name_start_bounds(s: Seq<char>, i: int)
    requires
        0 <= i <= s.len(),
    ensures
        0 <= file_name_start(s, i) <= i,
    decreases i,
{
    if i <= 0 || is_path_separator(s[i - 1]) {
    } else {
        lemma_file_name_start_bounds(s, i - 1);
    }
}

/// The part of a path after its last separator; the whole path when it has
/// no separator, and empty when it ends in one.
pub open spec fn spec_file_name(s: Seq<char>) -> Seq<char> {
    s.subrange(file_name_start(s, s.len() as int), s.len() as int)
}

/// Retrieve only the filename portion from a filepath: everything after the
/// last `\` or `/`.
pub fn get_file_name_from_string(str: &String) -> (r: String)
    ensures
        r@ == spec_file_name(str@),
{
    let n = str.as_str().unicode_len();
    proof {
        lemma_file_name_start_bounds(str@, n as int);
    }
    let mut start: usize = n;
    while start > 0 && str.as_str().get_char(start - 1) != '\\' && str.as_str().get_char(
        start - 1,
    ) != '/'
        invariant
            0 <= start <= n,
            n == str@.len(),
            file_name_start(str@, n as int) == file_name_start(str@, start as int),
        decreases start,
    {
        start -= 1;
    }
    proof {
        assert(file_name_start(str@, start as int) == start);
    }
    let name = str.as_str().substring_char(start, n);
    String::from_str(name)
}

/// Lowercases one ASCII letter; every other character stays as it is.
pub open spec fn spec_to_lower(c: char) -> char {
    if 65 <= c as u32 <= 90 {
        (((c as u32) + 32) as u8) as char
    } else {
        c
    }
}

/// The text with its ASCII letters lowercased.
pub open spec fn spec_lower(s: Seq<char>) -> Seq<char> {
    Seq::new(s.len(), |i: int| spec_to_lower(s[i]))
}

/// Equality of two texts up to ASCII letter case.
pub open spec fn eq_ignore_ascii_case(a: Seq<char>, b: Seq<char>) -> bool {
    spec_lower(a) == spec_lower(b)
}

/// Lowercases one ASCII letter.
fn to_lower(c: char) -> (r: char)
    ensures
        r == spec_to_lower(c),
{
    let x = c as u32;
    if x >= 65 && x <= 90 {
        ((x + 32) as u8) as char
    } else {
        c
    }
}

/// Compares two texts for equality up to ASCII letter case, as executable
/// names are compared when looking for the attachment target.
pub fn ascii_eq_ignore_case(a: &str, b: &str) -> (r: bool)
    ensures
        r == eq_ignore_ascii_case(a@, b@),
{
    let na = a.unicode_len();
    let nb = b.unicode_len();
    if na != nb {
        proof {
            assert(spec_lower(a@).len() != spec_lower(b@).len());
        }
        return false;
    }
    let mut i: usize = 0;
    while i < na
        invariant
            0 <= i <= na,
            na == a@.len(),
            na == b@.len(),
            forall|k: int| 0 <= k < i ==> spec_to_lower(a@[k]) == spec_to_lower(b@[k]),
        decreases na - i,
    {
        if to_lower(a.get_char(i)) != to_lower(b.get_char(i)) {
            proof {
                assert(spec_lower(a@)[i as int] != spec_lower(b@)[i as int]);
            }
            return false;
        }
        i += 1;
    }
    proof {
        assert(spec_lower(a@) =~= spec_lower(b@));
    }
    true
}

/// The low byte of a UTF-16 code unit.
pub open spec fn low_byte(v: u16) -> u8 {
    (v as int % 256) as u8
}

/// The characters that a wide string denotes when each code unit's low byte
/// is taken as one character, up to but not including the first code unit
/// whose low byte is zero.
pub open spec fn spec_w32str_chars(s: Seq<u16>) -> Seq<char>
    decreases s.len(),
{
    if s.len() == 0 || low_byte(s[0]) == 0 {
        Seq::empty()
    } else {
        seq![low_byte(s[0]) as char] + spec_w32str_chars(s.drop_first())
    }
}

/// Reads a NUL-terminated wide string as produced by module-name queries:
/// takes the low byte of every code unit before the first NUL and maps each
/// to one character.
pub fn w32str_to_string(w32str: &Vec<u16>) -> (r: String)
    ensures
        r@ == spec_w32str_chars(w32str@),
{
    let n = w32str.len();
    let mut s = String::new();
    let mut i: usize = 0;
    proof {
        assert(w32str@.skip(0) =~= w32str@);
    }
    while i < n
        invariant
            0 <= i <= n,
            n == w32str@.len(),
            forall|k: int| 0 <= k < i ==> low_byte(#[trigger] w32str@[k]) != 0,
            spec_w32str_chars(w32str@) == s@ + spec_w32str_chars(w32str@.skip(i as int)),
        decreases n - i,
    {
        let v = w32str[i];
        let b = (v % 256) as u8;
        proof {
            assert(w32str@.skip(i as int)[0] == w32str@[i as int]);
        }
        if b == 0 {
            proof {
                assert(spec_w32str_chars(w32str@.skip(i as int)) =~= Seq::<char>::empty());
            }
            return s;
        }
        push_char(&mut s, b as char);
        proof {
            assert(w32str@.skip(i as int).drop_first() =~= w32str@.skip(i + 1));
        }
        i += 1;
    }
    proof {
        assert(w32str@.skip(n as int) =~= Seq::<u16>::empty());
    }
    s
}

/// The UTF-16 encoding of one character: one code unit for scalar values
/// below 0x10000, a surrogate pair for the rest.
pub open spec fn spec_utf16_char(c: char) -> Seq<u16> {
    if (c as int) < 0x10000 {
        seq![c as u16]
    } else {
        seq![
            (0xD800 + ((c as int - 0x10000) / 0x400)) as u16,
            (0xDC00 + ((c as int - 0x10000) % 0x400)) as u16,
        ]
    }
}

/// The UTF-16 encoding of a character sequence.
pub open spec fn spec_utf16(s: Seq<char>) -> Seq<u16>
    decreases s.len(),
{
    if s.len() == 0 {
        Seq::empty()
    } else {
        spec_utf16_char(s[0]) + spec_utf16(s.drop_first())
    }
}

/// Encodes a string as the sequence of UTF-16 code units that wide-string
/// system interfaces take; no terminating NUL is appended.
pub fn get_w32str_from_str(str: &str) -> (r: Vec<u16>)
    ensures
        r@ == spec_utf16(str@),
{
    let n = str.unicode_len();
    let mut out: Vec<u16> = Vec::new();
    let mut i: usize = 0;
    proof {
        assert(str@.skip(0) =~= str@);
    }
    while i < n
        invariant
            0 <= i <= n,
            n == str@.len(),
            spec_utf16(str@) == out@ + spec_utf16(str@.skip(i as int)),
        decreases n - i,
    {
        let c = str.get_char(i);
        let v = c as u32;
        proof {
            assert(str@.skip(i as int)[0] == str@[i as int]);
            assert(str@.skip(i as int).drop_first() =~= str@.skip(i + 1));
        }
        if v < 0x10000 {
            out.push(v as u16);
        } else {
            let rest = v - 0x10000;
            out.push(0xD800 + (rest / 0x400) as u16);
            out.push(0xDC00 + (rest % 0x400) as u16);
        }
        i += 1;
    }
    proof {
        assert(str@.skip(n as int) =~= Seq::<char>::empty());
    }
    out
}

/// The little-endian byte serialization of a wide string: two bytes for each
/// code unit, in order.
pub open spec fn spec_w32str_bytes(s: Seq<u16>) -> Seq<u8>
    decreases s.len(),
{
    if s.len() == 0 {
        Seq::empty()
    } else {
        spec_u16_to_le_bytes(s[0]) + spec_w32str_bytes(s.drop_first())
    }
}

/// Serializes a wide string to bytes, two per code unit in the byte order of
/// the supported targets, for handing a wide path to raw memory writes.
pub fn vec_u16_to_u8(vec_u16: &Vec<u16>) -> (r: Vec<u8>)
    ensures
        r@ == spec_w32str_bytes(vec_u16@),
{
    let n = vec_u16.len();
    let mut out: Vec<u8> = Vec::new();
    let mut i: usize = 0;
    proof {
        assert(vec_u16@.skip(0) =~= vec_u16@);
    }
    while i < n
        invariant
            0 <= i <= n,
            n == vec_u16@.len(),
            spec_w32str_bytes(vec_u16@) == out@ + spec_w32str_bytes(vec_u16@.skip(i as int)),
        decreases n - i,
    {
        proof {
            lemma_auto_spec_u16_to_from_le_bytes();
            assert(vec_u16@.skip(i as int)[0] == vec_u16@[i as int]);
            assert(vec_u16@.skip(i as int).drop_first() =~= vec_u16@.skip(i + 1));
        }
        let bytes = u16_to_le_bytes(vec_u16[i]);
        out.push(bytes[0]);
        out.push(bytes[1]);
        i += 1;
    }
    proof {
        assert(vec_u16@.skip(n as int) =~= Seq::<u16>::empty());
    }
    out
}

} // verus!
