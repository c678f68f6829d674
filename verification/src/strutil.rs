//! Verified string primitives used throughout the crate: substring
//! matching, ASCII case-insensitive comparison, and decimal rendering of
//! unsigned integers.

use vstd::prelude::*;

verus! {

/// `p` occurs in `s` starting at position `i`.
pub open spec fn occurs_at(s: Seq<char>, p: Seq<char>, i: int) -> bool {
    0 <= i && i + p.len() <= s.len() && s.subrange(i, i + p.len() as int) == p
}

/// `p` is a prefix of `s`.
pub open spec fn has_prefix(s: Seq<char>, p: Seq<char>) -> bool {
    occurs_at(s, p, 0)
}

/// `p` is a suffix of `s`.
pub open spec fn has_suffix(s: Seq<char>, p: Seq<char>) -> bool {
    p.len() <= s.len() && occurs_at(s, p, s.len() - p.len())
}

/// `p` occurs somewhere in `s`.
pub open spec fn contains_seq(s: Seq<char>, p: Seq<char>) -> bool {
    exists|i: int| occurs_at(s, p, i)
}

/// What a sequence contains, it still contains after more is appended.
pub proof fn lemma_contains_extend(s: Seq<char>, t: Seq<char>, p: Seq<char>)
    requires
        contains_seq(s, p),
    ensures
        contains_seq(s + t, p),
{
    let i = choose|i: int| occurs_at(s, p, i);
    assert((s + t).subrange(i, i + p.len() as int) =~= s.subrange(i, i + p.len() as int));
    assert(occurs_at(s + t, p, i));
}

/// A sequence contains what was just appended to it.
pub proof fn lemma_contains_append(s: Seq<char>, p: Seq<char>)
    ensures
        contains_seq(s + p, p),
{
    assert((s + p).subrange(s.len() as int, s.len() + p.len() as int) =~= p);
    assert(occurs_at(s + p, p, s.len() as int));
}

/// The lower-case image of a character under ASCII folding, as a code
/// point; characters outside `A`..`Z` are left as they are.
pub open spec fn lower_code(c: char) -> u32 {
    if 65 <= c as u32 && c as u32 <= 90 {
        (c as u32 + 32) as u32
    } else {
        c as u32
    }
}

/// Two character sequences are equal up to ASCII case.
pub open spec fn eq_ignore_ascii_case(a: Seq<char>, b: Seq<char>) -> bool {
    a.len() == b.len() && forall|i: int| 0 <= i < a.len() ==> lower_code(a[i]) == lower_code(b[i])
}

/// Whether `p` occurs in `s` at offset `off`, by character comparison.
pub fn str_eq_at(s: &str, off: usize, p: &str) -> (r: bool)
    requires
        off + p@.len() <= s@.len(),
    ensures
        r == occurs_at(s@, p@, off as int),
{
    let slen: usize = s.unicode_len();
    let plen: usize = p.unicode_len();
    let mut j: usize = 0;
    while j < plen
        invariant
            slen == s@.len(),
            plen == p@.len(),
            off + plen <= slen,
            0 <= j <= plen,
            forall|k: int| 0 <= k < j ==> s@[off + k] == p@[k],
        decreases plen - j,
    {
        if s.get_char(off + j) != p.get_char(j) {
            assert(!occurs_at(s@, p@, off as int)) by {
                if s@.subrange(off as int, off + plen) == p@ {
                    assert(s@.subrange(off as int, off + plen)[j as int] == p@[j as int]);
                }
            }
            return false;
        }
        j += 1;
    }
    assert(s@.subrange(off as int, off + plen) =~= p@);
    true
}

/// Whether `p` is a prefix of `s`.
pub fn str_has_prefix(s: &str, p: &str) -> (r: bool)
    ensures
        r == has_prefix(s@, p@),
{
    let slen: usize = s.unicode_len();
    let plen: usize = p.unicode_len();
    if plen > slen {
        return false;
    }
    str_eq_at(s, 0, p)
}

/// Whether `p` is a suffix of `s`.
pub fn str_has_suffix(s: &str, p: &str) -> (r: bool)
    ensures
        r == has_suffix(s@, p@),
{
    let slen: usize = s.unicode_len();
    let plen: usize = p.unicode_len();
    if plen > slen {
        return false;
    }
    str_eq_at(s, slen - plen, p)
}

/// Whether `p` occurs anywhere in `s`.
pub fn str_contains(s: &str, p: &str) -> (r: bool)
    ensures
        r == contains_seq(s@, p@),
{
    let slen: usize = s.unicode_len();
    let plen: usize = p.unicode_len();
    if plen > slen {
        assert forall|i: int| !occurs_at(s@, p@, i) by {}
        return false;
    }
    if plen == 0 {
        assert(s@.subrange(0, 0) =~= p@);
        assert(occurs_at(s@, p@, 0));
        return true;
    }
    let last: usize = slen - plen;
    let mut i: usize = 0;
    while i <= last
        invariant
            slen == s@.len(),
            plen == p@.len(),
            1 <= plen <= slen,
            last == slen - plen,
            0 <= i <= last + 1,
            forall|k: int| 0 <= k < i ==> !occurs_at(s@, p@, k),
        decreases last + 1 - i,
    {
        if str_eq_at(s, i, p) {
            assert(occurs_at(s@, p@, i as int));
            return true;
        }
        i += 1;
    }
    assert forall|k: int| !occurs_at(s@, p@, k) by {
        if occurs_at(s@, p@, k) {
            assert(0 <= k <= last);
        }
    }
    false
}

/// Whether two strings are equal up to ASCII case.
pub fn str_eq_ignore_ascii_case(a: &str, b: &str) -> (r: bool)
    ensures
        r == eq_ignore_ascii_case(a@, b@),
{
    let alen: usize = a.unicode_len();
    let blen: usize = b.unicode_len();
    if alen != blen {
        return false;
    }
    let mut i: usize = 0;
    while i < alen
        invariant
            alen == a@.len(),
            alen == b@.len(),
            0 <= i <= alen,
            forall|k: int| 0 <= k < i ==> lower_code(a@[k]) == lower_code(b@[k]),
        decreases alen - i,
    {
        let ca: u32 = a.get_char(i) as u32;
        let cb: u32 = b.get_char(i) as u32;
        let la: u32 = if 65 <= ca && ca <= 90 { ca + 32 } else { ca };
        let lb: u32 = if 65 <= cb && cb <= 90 { cb + 32 } else { cb };
        if la != lb {
            return false;
        }
        i += 1;
    }
    true
}

/// The character that renders a single decimal digit.
pub open spec fn dec_digit_char(d: int) -> char {
    if d == 0 { '0' }
    else if d == 1 { '1' }
    else if d == 2 { '2' }
    else if d == 3 { '3' }
    else if d == 4 { '4' }
    else if d == 5 { '5' }
    else if d == 6 { '6' }
    else if d == 7 { '7' }
    else if d == 8 { '8' }
    else { '9' }
}

/// The decimal rendering of a non-negative integer, most significant
/// digit first and without leading zeroes (`0` renders as "0").
pub open spec fn dec_digits(n: int) -> Seq<char>
    decreases n,
{
    if n < 10 {
        seq![dec_digit_char(n)]
    } else {
        dec_digits(n / 10).push(dec_digit_char(n % 10))
    }
}

/// The one-character string for a decimal digit.
fn digit_str(d: u64) -> (r: &'static str)
    requires
        d < 10,
    ensures
        r@ == seq![dec_digit_char(d as int)],
{
    proof {
        reveal_strlit("0");
        reveal_strlit("1");
        reveal_strlit("2");
        reveal_strlit("3");
        reveal_strlit("4");
        reveal_strlit("5");
        reveal_strlit("6");
        reveal_strlit("7");
        reveal_strlit("8");
        reveal_strlit("9");
    }
    let r: &'static str = match d {
        0 => "0",
        1 => "1",
        2 => "2",
        3 => "3",
        4 => "4",
        5 => "5",
        6 => "6",
        7 => "7",
        8 => "8",
        _ => "9",
    };
    proof {
        assert(r@ =~= seq![dec_digit_char(d as int)]);
    }
    r
}

/// Renders an unsigned integer in decimal.
pub fn u64_to_dec(n: u64) -> (r: String)
    ensures
        r@ == dec_digits(n as int),
    decreases n,
{
    if n < 10 {
        digit_str(n).to_owned()
    } else {
        let mut s = u64_to_dec(n / 10);
        s.append(digit_str(n % 10));
        proof {
            assert(s@ =~= dec_digits(n as int));
        }
        s
    }
}


/// `s` with every copy of the prefix `p` removed from its front; an
/// empty `p` strips nothing.
pub open spec fn spec_strip_prefix_all(s: Seq<char>, p: Seq<char>) -> Seq<char>
    decreases s.len(),
{
    if p.len() == 0 {
        s
    } else if has_prefix(s, p) {
        spec_strip_prefix_all(s.skip(p.len() as int), p)
    } else {
        s
    }
}

/// `s` with every copy of the suffix `p` removed from its end; an
/// empty `p` strips nothing.
pub open spec fn spec_strip_suffix_all(s: Seq<char>, p: Seq<char>) -> Seq<char>
    decreases s.len(),
{
    if p.len() == 0 {
        s
    } else if has_suffix(s, p) {
        spec_strip_suffix_all(s.take(s.len() - p.len()), p)
    } else {
        s
    }
}

/// Strips every leading copy of `p` off `s`.
pub fn str_strip_prefix_all(s: &str, p: &str) -> (r: String)
    ensures
        r@ == spec_strip_prefix_all(s@, p@),
{
    let plen: usize = p.unicode_len();
    if plen == 0 {
        return s.to_owned();
    }
    let mut cur: String = s.to_owned();
    let mut cur_len: usize = s.unicode_len();
    loop
        invariant
            plen == p@.len(),
            plen > 0,
            cur_len == cur@.len(),
            spec_strip_prefix_all(cur@, p@) == spec_strip_prefix_all(s@, p@),
        decreases cur@.len(),
    {
        if !str_has_prefix(cur.as_str(), p) {
            return cur;
        }
        let next = cur.as_str().substring_char(plen, cur_len).to_owned();
        proof {
            assert(next@ =~= cur@.skip(plen as int));
        }
        cur = next;
        cur_len = cur_len - plen;
    }
}

/// Strips every trailing copy of `p` off `s`.
pub fn str_strip_suffix_all(s: &str, p: &str) -> (r: String)
    ensures
        r@ == spec_strip_suffix_all(s@, p@),
{
    let plen: usize = p.unicode_len();
    if plen == 0 {
        return s.to_owned();
    }
    let mut cur: String = s.to_owned();
    let mut cur_len: usize = s.unicode_len();
    loop
        invariant
            plen == p@.len(),
            plen > 0,
            cur_len == cur@.len(),
            spec_strip_suffix_all(cur@, p@) == spec_strip_suffix_all(s@, p@),
        decreases cur@.len(),
    {
        if !str_has_suffix(cur.as_str(), p) {
            return cur;
        }
        let next = cur.as_str().substring_char(0, cur_len - plen).to_owned();
        proof {
            assert(next@ =~= cur@.take(cur@.len() - p@.len()));
        }
        cur = next;
        cur_len = cur_len - plen;
    }
}


/// The whitespace that output trimming removes: the ASCII whitespace
/// characters.
pub open spec fn is_ascii_ws(c: char) -> bool {
    c == ' ' || c == '\t' || c == '\n' || c == '\r' || c == '\u{c}'
}

/// `s` without its leading ASCII whitespace.
pub open spec fn spec_trim_start(s: Seq<char>) -> Seq<char>
    decreases s.len(),
{
    if s.len() > 0 && is_ascii_ws(s[0]) {
        spec_trim_start(s.drop_first())
    } else {
        s
    }
}

/// `s` without its trailing ASCII whitespace.
pub open spec fn spec_trim_end(s: Seq<char>) -> Seq<char>
    decreases s.len(),
{
    if s.len() > 0 && is_ascii_ws(s.last()) {
        spec_trim_end(s.drop_last())
    } else {
        s
    }
}

/// `s` without its surrounding ASCII whitespace.
pub open spec fn spec_trim(s: Seq<char>) -> Seq<char> {
    spec_trim_end(spec_trim_start(s))
}

/// Whether the character is ASCII whitespace.
fn is_ws_char(c: char) -> (r: bool)
    ensures
        r == is_ascii_ws(c),
{
    c == ' ' || c == '\t' || c == '\n' || c == '\r' || (c as u32) == 12
}

/// Removes the surrounding ASCII whitespace of a string.
pub fn str_trim(s: &str) -> (r: String)
    ensures
        r@ == spec_trim(s@),
{
    let n = s.unicode_len();
    proof {
        assert(s@.skip(0) =~= s@);
    }
    let mut i: usize = 0;
    while i < n && is_ws_char(s.get_char(i))
        invariant
            n == s@.len(),
            0 <= i <= n,
            spec_trim_start(s@.skip(i as int)) == spec_trim_start(s@),
        decreases n - i,
    {
        proof {
            assert(s@.skip(i as int).drop_first() =~= s@.skip(i + 1 as int));
        }
        i += 1;
    }
    proof {
        assert(spec_trim_start(s@) == s@.skip(i as int));
        assert(s@.subrange(i as int, n as int) =~= s@.skip(i as int));
    }
    let mut j: usize = n;
    while j > i && is_ws_char(s.get_char(j - 1))
        invariant
            n == s@.len(),
            0 <= i <= j <= n,
            spec_trim_start(s@) == s@.skip(i as int),
            spec_trim_end(s@.subrange(i as int, j as int)) == spec_trim_end(s@.skip(i as int)),
        decreases j,
    {
        proof {
            assert(s@.subrange(i as int, j as int).last() == s@[j - 1]);
            assert(s@.subrange(i as int, j as int).drop_last() =~= s@.subrange(
                i as int,
                j - 1 as int,
            ));
        }
        j -= 1;
    }
    proof {
        assert(spec_trim_end(s@.subrange(i as int, j as int)) == s@.subrange(i as int, j as int));
    }
    s.substring_char(i, j).to_owned()
}

} // verus!
