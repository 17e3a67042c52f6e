//! Byte patterns with wildcards and the scanner that finds their first
//! occurrence in a snapshot of module memory.

use vstd::prelude::*;
use vstd::string::StrSliceExecFns;

verus! {

/// True when pattern `p` matches haystack `h` at start index `i`.
/// A `None` entry is a wildcard and matches any byte; `Some(b)` matches
/// exactly the byte `b`.
pub open spec fn pattern_matches_at(h: Seq<u8>, p: Seq<Option<u8>>, i: int) -> bool {
    &&& 0 <= i
    &&& i + p.len() <= h.len()
    &&& forall|j: int| 0 <= j < p.len() ==> ((#[trigger] p[j]) matches Some(b) ==> h[i + j] == b)
}

/// Compares every pattern entry against the haystack at start index `i`.
fn matches_at(h: &[u8], p: &[Option<u8>], i: usize) -> (r: bool)
    requires
        i + p@.len() <= h@.len(),
    ensures
        r == pattern_matches_at(h@, p@, i as int),
{
    let m = p.len();
    let n = h.len();
    let mut j: usize = 0;
    while j < m
        invariant
            j <= m,
            m == p@.len(),
            n == h@.len(),
            i + m <= n,
            forall|k: int| 0 <= k < j ==> ((#[trigger] p@[k]) matches Some(b) ==> h@[i + k] == b),
        decreases m - j,
    {
        if let Some(b) = p[j] {
            if h[i + j] != b {
                return false;
            }
        }
        j += 1;
    }
    true
}

/// The first index at or after `i` where `p` matches `h`, or `None` when
/// there is no such index.
pub open spec fn spec_scan_from(h: Seq<u8>, p: Seq<Option<u8>>, i: int) -> Option<int>
    decreases h.len() - i when 0 <= i
{
    if i + p.len() > h.len() {
        None
    } else if pattern_matches_at(h, p, i) {
        Some(i)
    } else {
        spec_scan_from(h, p, i + 1)
    }
}

/// The offset of the first occurrence of `p` in `h`, or `None` when `p`
/// occurs nowhere in `h`.
pub open spec fn spec_scan(h: Seq<u8>, p: Seq<Option<u8>>) -> Option<int> {
    spec_scan_from(h, p, 0)
}

/// What `spec_scan_from` returns is a match, is at or after the start, and is
/// the first match at or after the start.
pub proof fn lemma_scan_from_characterizes(h: Seq<u8>, p: Seq<Option<u8>>, start: int)
    requires
        0 <= start,
    ensures
        match spec_scan_from(h, p, start) {
            Some(j) => {
                &&& start <= j
                &&& pattern_matches_at(h, p, j)
                &&& forall|k: int| start <= k < j ==> !pattern_matches_at(h, p, k)
            },
            None => forall|k: int| start <= k ==> !pattern_matches_at(h, p, k),
        },
    decreases h.len() - start,
{
    if start + p.len() > h.len() {
        assert forall|k: int| start <= k implies !pattern_matches_at(h, p, k) by {
            assert(k + p.len() > h.len());
        }
    } else if pattern_matches_at(h, p, start) {
    } else {
        lemma_scan_from_characterizes(h, p, start + 1);
    }
}

/// Scanning for a pattern that occurs in the haystack returns the offset of
/// its first occurrence; in particular a haystack built by placing `p` at
/// offset `i`, with the wildcard positions holding arbitrary bytes, is found.
pub proof fn lemma_scan_finds_occurrence(h: Seq<u8>, p: Seq<Option<u8>>, i: int)
    requires
        pattern_matches_at(h, p, i),
    ensures
        spec_scan(h, p) matches Some(j) && 0 <= j <= i && pattern_matches_at(h, p, j),
{
    lemma_scan_from_characterizes(h, p, 0);
    if spec_scan(h, p) is None {
        assert(!pattern_matches_at(h, p, i));
    } else {
        let j = spec_scan(h, p)->Some_0;
        if j > i {
            assert(!pattern_matches_at(h, p, i));
        }
    }
}

/// Scanning a haystack in which the pattern occurs nowhere returns `None`;
/// in particular a haystack shorter than the pattern, and so also the empty
/// haystack, yields `None` for every pattern of length at least one.
pub proof fn lemma_scan_not_found(h: Seq<u8>, p: Seq<Option<u8>>)
    requires
        forall|i: int| !pattern_matches_at(h, p, i),
    ensures
        spec_scan(h, p) is None,
{
    lemma_scan_from_characterizes(h, p, 0);
    if spec_scan(h, p) is Some {
        assert(pattern_matches_at(h, p, spec_scan(h, p)->Some_0));
    }
}

/// A haystack shorter than the pattern holds no occurrence of it, so the
/// scan of one returns `None`; the empty haystack is the extreme case.
pub proof fn lemma_scan_short_haystack(h: Seq<u8>, p: Seq<Option<u8>>)
    requires
        h.len() < p.len(),
    ensures
        spec_scan(h, p) is None,
{
    assert forall|i: int| !pattern_matches_at(h, p, i) by {
        if 0 <= i {
            assert(i + p.len() > h.len());
        }
    }
    lemma_scan_not_found(h, p);
}

/// Naive linear search for a needle in a haystack with wildcards: returns the
/// offset of the first match, or `None` when the needle matches nowhere.
pub fn scan(haystack: &[u8], needle: &[Option<u8>]) -> (r: Option<usize>)
    ensures
        match r {
            Some(i) => spec_scan(haystack@, needle@) == Some(i as int),
            None => spec_scan(haystack@, needle@) is None,
        },
        r matches Some(i) ==> pattern_matches_at(haystack@, needle@, i as int)
            && forall|k: int| 0 <= k < i ==> !pattern_matches_at(haystack@, needle@, k),
        r is None ==> forall|k: int| !pattern_matches_at(haystack@, needle@, k),
{
    let n = haystack.len();
    let m = needle.len();
    if m > n {
        proof {
            lemma_scan_short_haystack(haystack@, needle@);
        }
        return None;
    }
    let mut i: usize = 0;
    while i <= n - m
        invariant
            m <= n,
            n == haystack@.len(),
            m == needle@.len(),
            i <= n - m + 1,
            spec_scan(haystack@, needle@) == spec_scan_from(haystack@, needle@, i as int),
        decreases n - m + 1 - i,
    {
        if matches_at(haystack, needle, i) {
            proof {
                assert(spec_scan_from(haystack@, needle@, i as int) == Some(i as int));
                lemma_scan_from_characterizes(haystack@, needle@, 0);
            }
            return Some(i);
        }
        i += 1;
    }
    proof {
        assert(i + needle@.len() > haystack@.len());
        lemma_scan_from_characterizes(haystack@, needle@, 0);
    }
    None
}

/// A hexadecimal digit, either case.
pub open spec fn is_hex_digit(c: char) -> bool {
    ||| '0' as int <= c as int <= '9' as int
    ||| 'a' as int <= c as int <= 'f' as int
    ||| 'A' as int <= c as int <= 'F' as int
}

/// The numeric value of a hexadecimal digit.
pub open spec fn hex_digit_value(c: char) -> u8 {
    if '0' as int <= c as int <= '9' as int {
        (c as int - '0' as int) as u8
    } else if 'a' as int <= c as int <= 'f' as int {
        (c as int - 'a' as int + 10) as u8
    } else {
        (c as int - 'A' as int + 10) as u8
    }
}

/// The index just past the token that starts at `i`: the first space at or
/// after `i`, or the end of the text.
pub open spec fn token_end(s: Seq<char>, i: int) -> int
    decreases s.len() - i when 0 <= i <= s.len()
{
    if i >= s.len() || s[i] == ' ' {
        i
    } else {
        token_end(s, i + 1)
    }
}

pub proof fn lemma_token_end_bounds(s: Seq<char>, i: int)
    requires
        0 <= i <= s.len(),
    ensures
        i <= token_end(s, i) <= s.len(),
        token_end(s, i) < s.len() ==> s[token_end(s, i)] == ' ',
    decreases s.len() - i,
{
    if i >= s.len() || s[i] == ' ' {
    } else {
        lemma_token_end_bounds(s, i + 1);
    }
}

/// One signature token: `Some(None)` for the wildcard `?`, `Some(Some(b))`
/// for exactly two hexadecimal digits, and `None` for anything else, which is
/// a configuration error.
pub open spec fn parse_token(t: Seq<char>) -> Option<Option<u8>> {
    if t.len() == 1 && t[0] == '?' {
        Some(None)
    } else if t.len() == 2 && is_hex_digit(t[0]) && is_hex_digit(t[1]) {
        Some(Some((hex_digit_value(t[0]) * 16 + hex_digit_value(t[1])) as u8))
    } else {
        None
    }
}

/// Parses the space-separated tokens of `s` from position `i` on; `None`
/// when any token is ill-formed.
pub open spec fn spec_parse_signature(s: Seq<char>, i: int) -> Option<Seq<Option<u8>>>
    decreases s.len() - i when 0 <= i <= s.len()
    via spec_parse_signature_decreases
{
    let e = token_end(s, i);
    match parse_token(s.subrange(i, e)) {
        None => None,
        Some(v) => if e == s.len() {
            Some(seq![v])
        } else {
            match spec_parse_signature(s, e + 1) {
                None => None,
                Some(rest) => Some(seq![v] + rest),
            }
        },
    }
}

#[via_fn]
proof fn spec_parse_signature_decreases(s: Seq<char>, i: int) {
    lemma_token_end_bounds(s, i);
}

/// A well-formed signature text: every space-separated token is either `?`
/// or two hexadecimal digits. The empty text is not well formed (its single
/// token is empty), so a well-formed signature denotes a pattern of length
/// at least one.
pub open spec fn valid_signature(s: Seq<char>) -> bool {
    spec_parse_signature(s, 0) is Some
}

/// The byte pattern that a well-formed signature text denotes.
pub open spec fn spec_pattern(s: Seq<char>) -> Seq<Option<u8>> {
    spec_parse_signature(s, 0)->Some_0
}

/// A well-formed signature denotes a pattern with at least one entry.
pub proof fn lemma_pattern_nonempty(s: Seq<char>)
    requires
        valid_signature(s),
    ensures
        spec_pattern(s).len() >= 1,
{
}

/// The numeric value of a hexadecimal digit character.
fn hex_value(c: char) -> (r: u8)
    requires
        is_hex_digit(c),
    ensures
        r == hex_digit_value(c),
{
    let x = c as u32;
    if x >= 0x61 {
        (x - 0x61 + 10) as u8
    } else if x >= 0x41 {
        (x - 0x41 + 10) as u8
    } else {
        (x - 0x30) as u8
    }
}

/// Converts a signature text into a byte pattern with wildcards. `?` is the
/// wildcard token; every other token must be exactly two hex digits, with no
/// `0x` prefix. An ill-formed signature is a configuration error, which the
/// caller rules out up front, not a scan failure.
pub fn to_pattern(s: &str) -> (r: Vec<Option<u8>>)
    requires
        valid_signature(s@),
    ensures
        r@ == spec_pattern(s@),
{
    let n = s.unicode_len();
    let mut out: Vec<Option<u8>> = Vec::new();
    let mut i: usize = 0;
    loop
        invariant_except_break
            i <= n,
            n == s@.len(),
            spec_parse_signature(s@, i as int) is Some,
            spec_pattern(s@) == out@ + spec_parse_signature(s@, i as int)->Some_0,
        ensures
            out@ == spec_pattern(s@),
        decreases n - i,
    {
        let ghost gi = i as int;
        let ghost ge = token_end(s@, gi);
        proof {
            lemma_token_end_bounds(s@, gi);
        }
        let mut e: usize = i;
        while e < n && s.get_char(e) != ' '
            invariant
                i <= e <= n,
                n == s@.len(),
                token_end(s@, i as int) == token_end(s@, e as int),
            decreases n - e,
        {
            e += 1;
        }
        proof {
            assert(token_end(s@, e as int) == e);
            assert(ge == e);
        }
        let ghost t = s@.subrange(gi, e as int);
        proof {
            assert(parse_token(t) is Some);
        }
        if e == i + 1 && s.get_char(i) == '?' {
            proof {
                assert(t =~= seq![s@[gi]]);
            }
            out.push(None);
        } else {
            proof {
                if !(t.len() == 2 && is_hex_digit(t[0]) && is_hex_digit(t[1])) {
                    assert(t.len() == 1 && t[0] == '?');
                    assert(s@[gi] == '?');
                    assert(false);
                }
            }
            let c0 = s.get_char(i);
            let c1 = s.get_char(i + 1);
            proof {
                assert(t[0] == s@[gi]);
                assert(t[1] == s@[gi + 1]);
            }
            let b = hex_value(c0) * 16 + hex_value(c1);
            out.push(Some(b));
        }
        if e == n {
            proof {
                assert(spec_parse_signature(s@, gi)->Some_0 =~= seq![
                    parse_token(t)->Some_0,
                ]);
            }
            break;
        }
        proof {
            assert(s@[e as int] == ' ');
            assert(spec_parse_signature(s@, e + 1) is Some);
            assert(spec_parse_signature(s@, gi)->Some_0 =~= seq![parse_token(t)->Some_0]
                + spec_parse_signature(s@, e + 1)->Some_0);
        }
        i = e + 1;
    }
    out
}

} // verus!

