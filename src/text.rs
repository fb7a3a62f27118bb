//! Reading of sensor text: decimal integers as std's integer parsing accepts
//! them, and ASCII case-insensitive substring search.

use vstd::prelude::*;

verus! {

pub open spec fn is_digit(c: char) -> bool {
    '0' <= c && c <= '9'
}

pub open spec fn digit_value(c: char) -> int {
    c as int - '0' as int
}

pub open spec fn all_digits(s: Seq<char>) -> bool {
    forall|i: int| 0 <= i < s.len() ==> is_digit(#[trigger] s[i])
}

/// Value of a string of decimal digits, most significant first.
pub open spec fn digits_value(s: Seq<char>) -> int
    decreases s.len(),
{
    if s.len() == 0 {
        0
    } else {
        digits_value(s.drop_last()) * 10 + digit_value(s.last())
    }
}

/// The magnitude written from position `start` to the end: one or more digits.
pub open spec fn magnitude_from(s: Seq<char>, start: int) -> Option<int> {
    let d = s.subrange(start, s.len() as int);
    if d.len() > 0 && all_digits(d) {
        Some(digits_value(d))
    } else {
        None
    }
}

/// An unsigned decimal numeral: an optional `+`, then one or more digits.
pub open spec fn unsigned_numeral(s: Seq<char>) -> Option<int> {
    if s.len() > 0 && s[0] == '+' {
        magnitude_from(s, 1)
    } else {
        magnitude_from(s, 0)
    }
}

/// A signed decimal numeral: an optional `+` or `-`, then one or more digits.
pub open spec fn signed_numeral(s: Seq<char>) -> Option<int> {
    if s.len() > 0 && s[0] == '-' {
        match magnitude_from(s, 1) {
            Some(m) => Some(-m),
            None => None,
        }
    } else {
        unsigned_numeral(s)
    }
}

/// `v` when it is present and lies in `[lo, hi]`.
pub open spec fn within(v: Option<int>, lo: int, hi: int) -> Option<int> {
    match v {
        Some(x) => if lo <= x && x <= hi {
            Some(x)
        } else {
            None
        },
        None => None,
    }
}

/// The `u8` that `s` writes, if any.
pub open spec fn u8_of(s: Seq<char>) -> Option<u8> {
    match within(unsigned_numeral(s), 0, 255) {
        Some(v) => Some(v as u8),
        None => None,
    }
}

/// The `u32` that `s` writes, if any.
pub open spec fn u32_of(s: Seq<char>) -> Option<u32> {
    match within(unsigned_numeral(s), 0, 0xffff_ffff) {
        Some(v) => Some(v as u32),
        None => None,
    }
}

/// The `i32` that `s` writes, if any.
pub open spec fn i32_of(s: Seq<char>) -> Option<i32> {
    match within(signed_numeral(s), -0x8000_0000, 0x7fff_ffff) {
        Some(v) => Some(v as i32),
        None => None,
    }
}

proof fn lemma_digits_value_nonneg(s: Seq<char>)
    requires
        all_digits(s),
    ensures
        digits_value(s) >= 0,
    decreases s.len(),
{
    if s.len() > 0 {
        lemma_digits_value_nonneg(s.drop_last());
    }
}

proof fn lemma_magnitude_nonneg(s: Seq<char>, start: int)
    requires
        0 <= start <= s.len(),
    ensures
        magnitude_from(s, start) matches Some(m) ==> m >= 0,
{
    let d = s.subrange(start, s.len() as int);
    if d.len() > 0 && all_digits(d) {
        lemma_digits_value_nonneg(d);
    }
}

/// Appending digits never makes the value smaller.
proof fn lemma_digits_value_prefix(s: Seq<char>, k: int)
    requires
        all_digits(s),
        0 <= k <= s.len(),
    ensures
        digits_value(s.subrange(0, k)) <= digits_value(s),
    decreases s.len(),
{
    if k < s.len() {
        let t = s.drop_last();
        assert(t.subrange(0, k) =~= s.subrange(0, k));
        lemma_digits_value_prefix(t, k);
        lemma_digits_value_nonneg(t);
    } else {
        assert(s.subrange(0, k) =~= s);
    }
}

/// The characters of a string, one per element.
pub fn chars_of(s: &str) -> (r: Vec<char>)
    ensures
        r@ == s@,
{
    let n = s.unicode_len();
    let mut r: Vec<char> = Vec::new();
    let mut i: usize = 0;
    while i < n
        invariant
            n == s@.len(),
            i <= n,
            r@ == s@.subrange(0, i as int),
        decreases n - i,
    {
        r.push(s.get_char(i));
        i = i + 1;
        assert(r@ =~= s@.subrange(0, i as int));
    }
    assert(r@ =~= s@);
    r
}

/// Reads the digits of `s` from `start` to the end; `None` where there are
/// none, where another character occurs, or where the value exceeds `limit`.
fn parse_magnitude(s: &Vec<char>, start: usize, limit: u64) -> (r: Option<u64>)
    requires
        start <= s@.len(),
        limit <= 0xffff_ffff,
    ensures
        r == (match within(magnitude_from(s@, start as int), 0, limit as int) {
            Some(v) => Some(v as u64),
            None => None::<u64>,
        }),
{
    let n = s.len();
    if start == n {
        return None;
    }
    let ghost full = s@.subrange(start as int, n as int);
    let mut acc: u64 = 0;
    let mut i: usize = start;
    while i < n
        invariant
            n == s@.len(),
            start < n,
            start <= i <= n,
            full == s@.subrange(start as int, n as int),
            limit <= 0xffff_ffff,
            all_digits(s@.subrange(start as int, i as int)),
            acc as int == digits_value(s@.subrange(start as int, i as int)),
            acc <= limit,
        decreases n - i,
    {
        let c = s[i];
        if !('0' <= c && c <= '9') {
            proof {
                assert(full[i - start] == c);
                assert(!all_digits(full));
            }
            return None;
        }
        let d = (c as u32 - '0' as u32) as u64;
        let next = acc * 10 + d;
        proof {
            let pre = s@.subrange(start as int, i as int);
            let ext = s@.subrange(start as int, i + 1);
            assert(ext.drop_last() =~= pre);
            assert(ext.last() == c);
            assert(all_digits(ext));
            assert(next as int == digits_value(ext));
        }
        if next > limit {
            proof {
                let ext = s@.subrange(start as int, i + 1);
                if all_digits(full) {
                    assert(full.subrange(0, i + 1 - start) =~= ext);
                    lemma_digits_value_prefix(full, i + 1 - start);
                }
            }
            return None;
        }
        acc = next;
        i = i + 1;
    }
    proof {
        lemma_digits_value_nonneg(full);
    }
    Some(acc)
}

/// Parses an unsigned decimal numeral no larger than `limit`, as std's
/// `str::parse` does for unsigned integer types of that maximum.
fn parse_unsigned(s: &Vec<char>, limit: u64) -> (r: Option<u64>)
    requires
        limit <= 0xffff_ffff,
    ensures
        r == (match within(unsigned_numeral(s@), 0, limit as int) {
            Some(v) => Some(v as u64),
            None => None::<u64>,
        }),
{
    if s.len() > 0 && s[0] == '+' {
        parse_magnitude(s, 1, limit)
    } else {
        parse_magnitude(s, 0, limit)
    }
}

/// Parses text as a `u8`, as `str::parse::<u8>` accepts it.
pub fn parse_u8(s: &str) -> (r: Option<u8>)
    ensures
        r == u8_of(s@),
{
    let cs = chars_of(s);
    match parse_unsigned(&cs, 255) {
        Some(v) => Some(v as u8),
        None => None,
    }
}

/// Parses text as a `u32`, as `str::parse::<u32>` accepts it.
pub fn parse_u32(s: &str) -> (r: Option<u32>)
    ensures
        r == u32_of(s@),
{
    let cs = chars_of(s);
    match parse_unsigned(&cs, 0xffff_ffff) {
        Some(v) => Some(v as u32),
        None => None,
    }
}

/// Parses text as an `i32`, as `str::parse::<i32>` accepts it.
pub fn parse_i32(s: &str) -> (r: Option<i32>)
    ensures
        r == i32_of(s@),
{
    let cs = chars_of(s);
    proof {
        lemma_magnitude_nonneg(cs@, 0);
        if cs@.len() > 0 {
            lemma_magnitude_nonneg(cs@, 1);
        }
    }
    if cs.len() > 0 && cs[0] == '-' {
        match parse_magnitude(&cs, 1, 0x8000_0000) {
            Some(m) => Some((0 - m as i64) as i32),
            None => None,
        }
    } else {
        match parse_unsigned(&cs, 0x7fff_ffff) {
            Some(v) => Some(v as i32),
            None => None,
        }
    }
}

/// `c` is the letter `p` up to ASCII case, for a lower-case `p`; any other
/// character matches only itself.
pub open spec fn same_letter(c: char, p: char) -> bool {
    c == p || ('A' <= c && c <= 'Z' && c as u32 + 32 == p as u32)
}

pub open spec fn occurs_at(text: Seq<char>, pat: Seq<char>, i: int) -> bool {
    forall|j: int| 0 <= j < pat.len() ==> same_letter(#[trigger] text[i + j], pat[j])
}

/// `pat` occurs in `text`, ignoring the case of ASCII letters in `text`.
pub open spec fn contains_folded(text: Seq<char>, pat: Seq<char>) -> bool {
    exists|i: int| 0 <= i && i + pat.len() <= text.len() && #[trigger] occurs_at(text, pat, i)
}

/// Searches `text` for the lower-case `pat`, ignoring the case of ASCII
/// letters in `text`.
pub fn contains_folded_exec(text: &Vec<char>, pat: &str) -> (r: bool)
    ensures
        r == contains_folded(text@, pat@),
{
    let p = chars_of(pat);
    let n = text.len();
    let m = p.len();
    if m > n {
        return false;
    }
    let mut i: usize = 0;
    while i <= n - m
        invariant
            m <= n,
            n == text@.len(),
            m == p@.len(),
            p@ == pat@,
            i <= n - m + 1,
            forall|k: int| 0 <= k < i ==> !occurs_at(text@, pat@, k),
        decreases n - m + 1 - i,
    {
        let mut j: usize = 0;
        let mut ok = true;
        while j < m && ok
            invariant
                m <= n,
                i <= n - m,
                n == text@.len(),
                m == p@.len(),
                p@ == pat@,
                j <= m,
                ok ==> forall|k: int| 0 <= k < j ==> same_letter(text@[i + k], pat@[k]),
                !ok ==> !occurs_at(text@, pat@, i as int),
            decreases m - j, (if ok { 1int } else { 0int }),
        {
            let c = text[i + j];
            let q = p[j];
            if !(c == q || ('A' <= c && c <= 'Z' && c as u32 + 32 == q as u32)) {
                ok = false;
                assert(!same_letter(text@[i + j as int], pat@[j as int]));
            } else {
                j = j + 1;
            }
        }
        if ok {
            assert(occurs_at(text@, pat@, i as int));
            return true;
        }
        i = i + 1;
    }
    proof {
        assert forall|k: int| 0 <= k && k + pat@.len() <= text@.len() implies !occurs_at(
            text@,
            pat@,
            k,
        ) by {
            assert(k < i);
        }
    }
    false
}

} // verus!
