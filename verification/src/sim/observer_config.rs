use crate::observer::EventLevel;
use vstd::prelude::*;

verus! {

/// `pat` occurs in `s` at position `i`.
pub open spec fn matches_at(s: Seq<u8>, pat: Seq<u8>, i: int) -> bool {
    0 <= i && i + pat.len() <= s.len() && s.subrange(i, i + pat.len()) == pat
}

/// The first position at or after `from` where `pat` occurs in `s`.
pub open spec fn find_from(s: Seq<u8>, pat: Seq<u8>, from: int) -> Option<int>
    decreases s.len() - from,
{
    if from < 0 || from >= s.len() || from + pat.len() > s.len() {
        None
    } else if matches_at(s, pat, from) {
        Some(from)
    } else {
        find_from(s, pat, from + 1)
    }
}

/// A position that `find_from` reports holds an occurrence, at or after `from`.
pub proof fn lemma_find_from_found(s: Seq<u8>, pat: Seq<u8>, from: int)
    ensures
        find_from(s, pat, from) matches Some(i) ==> from <= i < s.len() && matches_at(s, pat, i),
    decreases s.len() - from,
{
    if !(from < 0 || from >= s.len() || from + pat.len() > s.len()) && !matches_at(s, pat, from) {
        lemma_find_from_found(s, pat, from + 1);
    }
}

/// A one-byte whitespace character: tab, line feed, vertical tab, form feed,
/// carriage return or space.
pub open spec fn is_space(b: u8) -> bool {
    b == 9 || b == 10 || b == 11 || b == 12 || b == 13 || b == 32
}

/// The UTF-8 encoding of a two-byte whitespace character: U+0085 or U+00A0.
pub open spec fn is_space2(a: u8, b: u8) -> bool {
    a == 0xC2 && (b == 0x85 || b == 0xA0)
}

/// The UTF-8 encoding of a three-byte whitespace character: U+1680, U+2000 to
/// U+200A, U+2028, U+2029, U+202F, U+205F or U+3000.
pub open spec fn is_space3(a: u8, b: u8, c: u8) -> bool {
    ||| a == 0xE1 && b == 0x9A && c == 0x80
    ||| a == 0xE2 && b == 0x80 && ((0x80 <= c && c <= 0x8A) || c == 0xA8 || c == 0xA9 || c == 0xAF)
    ||| a == 0xE2 && b == 0x81 && c == 0x9F
    ||| a == 0xE3 && b == 0x80 && c == 0x80
}

/// The length in bytes of the whitespace character that starts at `i` in `s`, or 0
/// when none does.
pub open spec fn space_len_at(s: Seq<u8>, i: int) -> int {
    if 0 <= i < s.len() && is_space(s[i]) {
        1
    } else if 0 <= i && i + 2 <= s.len() && is_space2(s[i], s[i + 1]) {
        2
    } else if 0 <= i && i + 3 <= s.len() && is_space3(s[i], s[i + 1], s[i + 2]) {
        3
    } else {
        0
    }
}

/// The length in bytes of the whitespace character that ends at `j` in `s` and starts
/// at or after `lo`, or 0 when none does.
pub open spec fn space_len_before(s: Seq<u8>, lo: int, j: int) -> int {
    if 0 <= lo < j <= s.len() && is_space(s[j - 1]) {
        1
    } else if 0 <= lo && lo + 2 <= j <= s.len() && is_space2(s[j - 2], s[j - 1]) {
        2
    } else if 0 <= lo && lo + 3 <= j <= s.len() && is_space3(s[j - 3], s[j - 2], s[j - 1]) {
        3
    } else {
        0
    }
}

/// Where `s` starts once the whitespace from `i` on is skipped.
pub open spec fn start_of(s: Seq<u8>, i: int) -> int
    decreases s.len() - i,
{
    let k = space_len_at(s, i);
    if k > 0 && 0 <= i < s.len() {
        start_of(s, i + k)
    } else {
        i
    }
}

/// Where `s` ends once the whitespace before `j` (and after `lo`) is dropped.
pub open spec fn end_of(s: Seq<u8>, lo: int, j: int) -> int
    decreases j - lo,
{
    let k = space_len_before(s, lo, j);
    if k > 0 && lo < j {
        end_of(s, lo, j - k)
    } else {
        j
    }
}

/// `s` without whitespace at either end.
pub open spec fn trimmed(s: Seq<u8>) -> Seq<u8> {
    let lo = start_of(s, 0);
    s.subrange(lo, end_of(s, lo, s.len() as int))
}

/// The key under which the configuration names the observer level, with its quotes.
pub open spec fn level_key() -> Seq<u8> {
    seq![34u8, 111u8, 98u8, 115u8, 101u8, 114u8, 118u8, 101u8, 114u8, 95u8, 108u8, 101u8, 118u8, 101u8, 108u8, 34u8]
}

/// The level a name stands for; an unknown name stands for `Essential`.
pub open spec fn level_named(name: Seq<u8>) -> EventLevel {
    if name == seq![78u8, 111u8, 110u8, 101u8] {
        EventLevel::Off
    } else if name == seq![73u8, 110u8, 102u8, 111u8] {
        EventLevel::Info
    } else if name == seq![68u8, 101u8, 98u8, 117u8, 103u8] {
        EventLevel::Debug
    } else if name == seq![84u8, 114u8, 97u8, 99u8, 101u8] {
        EventLevel::Trace
    } else {
        EventLevel::Essential
    }
}

/// The observer level that a configuration text sets: the quoted value after the
/// first `"observer_level"` and the colon that follows it, trimmed and read by
/// `level_named`; `Essential` when the text holds no such value.
pub open spec fn config_level(text: Seq<u8>) -> EventLevel {
    match find_from(text, level_key(), 0) {
        None => EventLevel::Essential,
        Some(start) => match find_from(text, seq![58u8], start) {
            None => EventLevel::Essential,
            Some(colon) => match find_from(text, seq![34u8], colon + 1) {
                None => EventLevel::Essential,
                Some(open) => match find_from(text, seq![34u8], open + 1) {
                    None => EventLevel::Essential,
                    Some(close) => level_named(trimmed(text.subrange(open + 1, close))),
                },
            },
        },
    }
}

fn matches_here(s: &[u8], pat: &[u8], i: usize) -> (r: bool)
    requires
        i + pat@.len() <= s@.len(),
    ensures
        r == matches_at(s@, pat@, i as int),
{
    let mut j: usize = 0;
    while j < pat.len()
        invariant
            j <= pat@.len(),
            i + pat.len() <= s.len(),
            i + pat@.len() <= s@.len(),
            forall|k: int| 0 <= k < j ==> s@[i + k] == pat@[k],
        decreases pat@.len() - j,
    {
        if s[i + j] != pat[j] {
            assert(s@.subrange(i as int, i + pat@.len())[j as int] != pat@[j as int]);
            return false;
        }
        j = j + 1;
    }
    assert(s@.subrange(i as int, i + pat@.len()) =~= pat@);
    true
}

fn find_in(s: &[u8], pat: &[u8], from: usize) -> (r: Option<usize>)
    ensures
        match r {
            Some(i) => find_from(s@, pat@, from as int) == Some(i as int),
            None => find_from(s@, pat@, from as int) is None,
        },
{
    let mut i: usize = from;
    while i < s.len() && pat.len() <= s.len() - i
        invariant
            from <= i,
            find_from(s@, pat@, from as int) == find_from(s@, pat@, i as int),
        decreases s@.len() - i,
    {
        if matches_here(s, pat, i) {
            return Some(i);
        }
        i = i + 1;
    }
    None
}

/// `space_len_at` of `s[lo..hi]` at `i - lo`.
fn space_len(s: &[u8], lo: usize, hi: usize, i: usize) -> (r: usize)
    requires
        lo <= i <= hi <= s@.len(),
    ensures
        r == space_len_at(s@.subrange(lo as int, hi as int), i - lo),
        i + r <= hi,
{
    let ghost t = s@.subrange(lo as int, hi as int);
    if i < hi {
        assert(t[i - lo] == s@[i as int]);
        let a = s[i];
        if a == 9 || a == 10 || a == 11 || a == 12 || a == 13 || a == 32 {
            return 1;
        }
        if hi - i >= 2 {
            assert(t[i - lo + 1] == s@[i + 1]);
            let b = s[i + 1];
            if a == 0xC2 && (b == 0x85 || b == 0xA0) {
                return 2;
            }
            if hi - i >= 3 {
                assert(t[i - lo + 2] == s@[i + 2]);
                let c = s[i + 2];
                if (a == 0xE1 && b == 0x9A && c == 0x80) || (a == 0xE2 && b == 0x80 && ((0x80 <= c && c <= 0x8A)
                    || c == 0xA8 || c == 0xA9 || c == 0xAF)) || (a == 0xE2 && b == 0x81 && c == 0x9F) || (a == 0xE3
                    && b == 0x80 && c == 0x80) {
                    return 3;
                }
            }
        }
    }
    0
}

/// `space_len_before` of `s[lo..hi]` from `a - lo` to `j - lo`.
fn space_len_back(s: &[u8], lo: usize, hi: usize, a: usize, j: usize) -> (r: usize)
    requires
        lo <= a <= j <= hi <= s@.len(),
    ensures
        r == space_len_before(s@.subrange(lo as int, hi as int), a - lo, j - lo),
        a + r <= j,
{
    let ghost t = s@.subrange(lo as int, hi as int);
    if a < j {
        assert(t[j - 1 - lo] == s@[j - 1]);
        let z = s[j - 1];
        if z == 9 || z == 10 || z == 11 || z == 12 || z == 13 || z == 32 {
            return 1;
        }
        if j - a >= 2 {
            assert(t[j - 2 - lo] == s@[j - 2]);
            let y = s[j - 2];
            if y == 0xC2 && (z == 0x85 || z == 0xA0) {
                return 2;
            }
            if j - a >= 3 {
                assert(t[j - 3 - lo] == s@[j - 3]);
                let x = s[j - 3];
                if (x == 0xE1 && y == 0x9A && z == 0x80) || (x == 0xE2 && y == 0x80 && ((0x80 <= z && z <= 0x8A)
                    || z == 0xA8 || z == 0xA9 || z == 0xAF)) || (x == 0xE2 && y == 0x81 && z == 0x9F) || (x == 0xE3
                    && y == 0x80 && z == 0x80) {
                    return 3;
                }
            }
        }
    }
    0
}

fn trim_bounds(s: &[u8], lo: usize, hi: usize) -> (r: (usize, usize))
    requires
        lo <= hi <= s@.len(),
    ensures
        ({
            let t = s@.subrange(lo as int, hi as int);
            let a = start_of(t, 0);
            &&& r.0 == lo + a
            &&& r.1 == lo + end_of(t, a, t.len() as int)
            &&& lo <= r.0 <= r.1 <= hi
        }),
{
    let ghost t = s@.subrange(lo as int, hi as int);
    let mut a: usize = lo;
    let mut k: usize = space_len(s, lo, hi, a);
    while k > 0
        invariant
            lo <= a <= hi <= s@.len(),
            t == s@.subrange(lo as int, hi as int),
            k == space_len_at(t, a - lo),
            a + k <= hi,
            start_of(t, 0) == start_of(t, a - lo),
        decreases hi - a,
    {
        a = a + k;
        k = space_len(s, lo, hi, a);
    }
    let mut b: usize = hi;
    let mut m: usize = space_len_back(s, lo, hi, a, b);
    while m > 0
        invariant
            lo <= a <= b <= hi <= s@.len(),
            t == s@.subrange(lo as int, hi as int),
            start_of(t, 0) == a - lo,
            m == space_len_before(t, a - lo, b - lo),
            a + m <= b,
            end_of(t, a - lo, t.len() as int) == end_of(t, a - lo, b - lo),
        decreases b - a,
    {
        b = b - m;
        m = space_len_back(s, lo, hi, a, b);
    }
    (a, b)
}

fn is_name(s: &[u8], lo: usize, hi: usize, name: &[u8]) -> (r: bool)
    requires
        lo <= hi <= s@.len(),
    ensures
        r == (s@.subrange(lo as int, hi as int) == name@),
{
    if hi - lo != name.len() {
        return false;
    }
    matches_here(s, name, lo)
}

/// Reads the observer level from a configuration text (see `config_level`).
pub fn parse_observer_level(config: &[u8]) -> (r: EventLevel)
    ensures
        r == config_level(config@),
{
    let key: [u8; 16] = [
        34u8, 111u8, 98u8, 115u8, 101u8, 114u8, 118u8, 101u8, 114u8, 95u8, 108u8, 101u8, 118u8, 101u8, 108u8, 34u8,
    ];
    let colon: [u8; 1] = [58u8];
    let quote: [u8; 1] = [34u8];
    assert(key@ =~= level_key());
    assert(colon@ =~= seq![58u8]);
    assert(quote@ =~= seq![34u8]);
    let n = config.len();
    assert(n == config@.len());
    proof {
        lemma_find_from_found(config@, level_key(), 0);
    }
    let start = match find_in(config, &key, 0) {
        Some(i) => i,
        None => return EventLevel::Essential,
    };
    let colon_at = match find_in(config, &colon, start) {
        Some(i) => i,
        None => return EventLevel::Essential,
    };
    proof {
        lemma_find_from_found(config@, seq![58u8], start as int);
    }
    let open = match find_in(config, &quote, colon_at + 1) {
        Some(i) => i,
        None => return EventLevel::Essential,
    };
    proof {
        lemma_find_from_found(config@, seq![34u8], colon_at + 1);
    }
    let close = match find_in(config, &quote, open + 1) {
        Some(i) => i,
        None => return EventLevel::Essential,
    };
    proof {
        lemma_find_from_found(config@, seq![34u8], open + 1);
    }
    let (lo, hi) = trim_bounds(config, open + 1, close);
    let ghost value = config@.subrange(open + 1, close as int);
    proof {
        assert(config@.subrange(lo as int, hi as int) =~= trimmed(value));
    }
    let none: [u8; 4] = [78u8, 111u8, 110u8, 101u8];
    let info: [u8; 4] = [73u8, 110u8, 102u8, 111u8];
    let debug: [u8; 5] = [68u8, 101u8, 98u8, 117u8, 103u8];
    let trace: [u8; 5] = [84u8, 114u8, 97u8, 99u8, 101u8];
    assert(none@ =~= seq![78u8, 111u8, 110u8, 101u8]);
    assert(info@ =~= seq![73u8, 110u8, 102u8, 111u8]);
    assert(debug@ =~= seq![68u8, 101u8, 98u8, 117u8, 103u8]);
    assert(trace@ =~= seq![84u8, 114u8, 97u8, 99u8, 101u8]);
    if is_name(config, lo, hi, &none) {
        EventLevel::Off
    } else if is_name(config, lo, hi, &info) {
        EventLevel::Info
    } else if is_name(config, lo, hi, &debug) {
        EventLevel::Debug
    } else if is_name(config, lo, hi, &trace) {
        EventLevel::Trace
    } else {
        EventLevel::Essential
    }
}

} // verus!
