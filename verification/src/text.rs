//! Character and string helpers shared across the crate.
//!
//! All contracts speak about `Seq<char>` views. The suffix heuristics of the
//! word tagger compare UTF-8 byte lengths, so those lengths are defined here
//! from the width of each character's encoding.

use vstd::prelude::*;

verus! {

/// Lowercase form of a character sequence, as `str::to_lowercase` computes it.
pub uninterp spec fn lower_of(s: Seq<char>) -> Seq<char>;

/// Relies on str::to_lowercase: the lowercase form of a string depends on its
/// characters alone, and an empty string stays empty.
#[verifier::external_body]
pub fn lowercase(s: &str) -> (r: String)
    ensures
        r@ == lower_of(s@),
        s@.len() == 0 ==> r@.len() == 0,
{
    s.to_lowercase()
}

/// Whether a character has the Unicode `Alphabetic` property.
pub uninterp spec fn is_alpha_char(c: char) -> bool;

/// Relies on char::is_alphabetic: the answer depends on the character alone.
pub assume_specification[ char::is_alphabetic ](c: char) -> (r: bool)
    ensures
        r == is_alpha_char(c),
;

/// Whether a character is alphabetic or numeric under Unicode.
pub uninterp spec fn is_alnum_char(c: char) -> bool;

/// Relies on char::is_alphanumeric: the answer depends on the character alone.
pub assume_specification[ char::is_alphanumeric ](c: char) -> (r: bool)
    ensures
        r == is_alnum_char(c),
;

/// Relies on str::chars and Iterator::count, and on Rust's allocation limit:
/// a string buffer holds at most isize::MAX bytes and every character takes
/// at least one byte, so the character count stays below half of usize::MAX.
#[verifier::external_body]
pub fn char_count(s: &str) -> (n: usize)
    ensures
        n == s@.len(),
        n <= usize::MAX / 2,
{
    s.chars().count()
}

/// Width in bytes of the UTF-8 encoding of one character.
pub open spec fn char_utf8_width(c: char) -> nat {
    if (c as u32) < 0x80 {
        1
    } else if (c as u32) < 0x800 {
        2
    } else if (c as u32) < 0x10000 {
        3
    } else {
        4
    }
}

pub fn char_width(c: char) -> (w: usize)
    ensures
        w == char_utf8_width(c),
{
    let u = c as u32;
    if u < 0x80 {
        1
    } else if u < 0x800 {
        2
    } else if u < 0x10000 {
        3
    } else {
        4
    }
}

/// UTF-8 byte length of the characters of `s` from position `i` on.
pub open spec fn utf8_len_from(s: Seq<char>, i: int) -> nat
    decreases s.len() - i,
{
    if i < 0 || i >= s.len() {
        0
    } else {
        (char_utf8_width(s[i]) + utf8_len_from(s, i + 1)) as nat
    }
}

/// UTF-8 byte length of a character sequence, as `str::len` reports it.
pub open spec fn utf8_len(s: Seq<char>) -> nat {
    utf8_len_from(s, 0)
}

/// Does the UTF-8 byte length of `s` exceed `k`?
pub fn utf8_len_gt(s: &str, k: usize) -> (r: bool)
    ensures
        r == (utf8_len(s@) > k),
{
    let n = char_count(s);
    let mut i: usize = 0;
    let mut acc: usize = 0;
    while i < n
        invariant
            i <= n,
            n == s@.len(),
            acc <= k,
            acc + utf8_len_from(s@, i as int) == utf8_len(s@),
        decreases n - i,
    {
        let c = s.get_char(i);
        let w = char_width(c);
        assert(utf8_len_from(s@, i as int) == char_utf8_width(s@[i as int]) + utf8_len_from(
            s@,
            i as int + 1,
        ));
        if w > k - acc {
            return true;
        }
        acc = acc + w;
        i = i + 1;
    }
    assert(utf8_len_from(s@, n as int) == 0);
    acc > k
}

/// `p` is a suffix of `s`.
pub open spec fn str_ends_with(s: Seq<char>, p: Seq<char>) -> bool {
    p.len() <= s.len() && s.subrange(s.len() - p.len(), s.len() as int) == p
}

pub fn ends_with_str(s: &str, p: &str) -> (r: bool)
    ensures
        r == str_ends_with(s@, p@),
{
    let n = char_count(s);
    let m = char_count(p);
    if m > n {
        return false;
    }
    let mut j: usize = 0;
    while j < m
        invariant
            j <= m <= n,
            n == s@.len(),
            m == p@.len(),
            forall|t: int| 0 <= t < j ==> s@[n - m + t] == p@[t],
        decreases m - j,
    {
        if s.get_char(n - m + j) != p.get_char(j) {
            return false;
        }
        j = j + 1;
    }
    assert(s@.subrange(n - m, n as int) =~= p@);
    true
}

pub fn str_eq(a: &str, b: &str) -> (r: bool)
    ensures
        r == (a@ == b@),
{
    let n = char_count(a);
    let m = char_count(b);
    if n != m {
        return false;
    }
    let mut i: usize = 0;
    while i < n
        invariant
            i <= n,
            n == a@.len(),
            n == b@.len(),
            forall|t: int| 0 <= t < i ==> a@[t] == b@[t],
        decreases n - i,
    {
        if a.get_char(i) != b.get_char(i) {
            return false;
        }
        i = i + 1;
    }
    assert(a@ =~= b@);
    true
}

/// The characters that `char::is_whitespace` accepts: the Unicode
/// `White_Space` property.
pub open spec fn is_space_char(c: char) -> bool {
    c == ' ' || c == '\t' || c == '\n' || c == '\u{b}' || c == '\u{c}' || c == '\r' || c
        == '\u{85}' || c == '\u{a0}' || c == '\u{1680}' || ('\u{2000}' <= c && c <= '\u{200a}') || c
        == '\u{2028}' || c == '\u{2029}' || c == '\u{202f}' || c == '\u{205f}' || c == '\u{3000}'
}

pub fn space_char(c: char) -> (r: bool)
    ensures
        r == is_space_char(c),
{
    c == ' ' || c == '\t' || c == '\n' || c == '\u{b}' || c == '\u{c}' || c == '\r' || c
        == '\u{85}' || c == '\u{a0}' || c == '\u{1680}' || ('\u{2000}' <= c && c <= '\u{200a}') || c
        == '\u{2028}' || c == '\u{2029}' || c == '\u{202f}' || c == '\u{205f}' || c == '\u{3000}'
}

/// First position at or after `i` that holds a character that is not
/// whitespace, or the length of `s`.
pub open spec fn trim_start_idx(s: Seq<char>, i: int) -> int
    decreases s.len() - i,
{
    if i < 0 || i >= s.len() {
        i
    } else if is_space_char(s[i]) {
        trim_start_idx(s, i + 1)
    } else {
        i
    }
}

/// Position one past the last character before `j` that is not whitespace,
/// or zero.
pub open spec fn trim_end_idx(s: Seq<char>, j: int) -> int
    decreases j,
{
    if j <= 0 || j > s.len() {
        0
    } else if is_space_char(s[j - 1]) {
        trim_end_idx(s, j - 1)
    } else {
        j
    }
}

/// `s` with leading and trailing whitespace removed, as `str::trim` leaves it.
pub open spec fn trim_of(s: Seq<char>) -> Seq<char> {
    let lo = trim_start_idx(s, 0);
    let hi = trim_end_idx(s, s.len() as int);
    if lo < hi {
        s.subrange(lo, hi)
    } else {
        Seq::empty()
    }
}

proof fn lemma_trim_end_idx_bounds(s: Seq<char>, j: int)
    requires
        0 <= j <= s.len(),
    ensures
        0 <= trim_end_idx(s, j) <= j,
    decreases j,
{
    if j > 0 && is_space_char(s[j - 1]) {
        lemma_trim_end_idx_bounds(s, j - 1);
    }
}

/// The trimmed text between character positions `a` and `b` of `s`.
pub fn trimmed_between(s: &str, a: usize, b: usize) -> (r: String)
    requires
        a <= b <= s@.len(),
    ensures
        r@ == trim_of(s@.subrange(a as int, b as int)),
{
    let ghost frag = s@.subrange(a as int, b as int);
    let mut lo: usize = a;
    while lo < b && space_char(s.get_char(lo))
        invariant
            a <= lo <= b <= s@.len(),
            frag == s@.subrange(a as int, b as int),
            trim_start_idx(frag, 0) == trim_start_idx(frag, lo - a),
        decreases b - lo,
    {
        assert(frag[lo - a] == s@[lo as int]);
        assert(trim_start_idx(frag, lo - a) == trim_start_idx(frag, lo - a + 1));
        lo = lo + 1;
    }
    assert(trim_start_idx(frag, 0) == lo - a) by {
        if lo < b {
            assert(frag[lo - a] == s@[lo as int]);
        }
    }
    let mut hi: usize = b;
    while hi > lo && space_char(s.get_char(hi - 1))
        invariant
            a <= lo <= hi <= b <= s@.len(),
            frag == s@.subrange(a as int, b as int),
            trim_start_idx(frag, 0) == lo - a,
            trim_end_idx(frag, b - a) == trim_end_idx(frag, hi - a),
        decreases hi - lo,
    {
        assert(frag[hi - 1 - a] == s@[hi - 1]);
        assert(trim_end_idx(frag, hi - a) == trim_end_idx(frag, hi - a - 1));
        hi = hi - 1;
    }
    if lo >= hi {
        proof {
            lemma_trim_end_idx_bounds(frag, hi - a);
            if hi > lo {
                assert(frag[hi - 1 - a] == s@[hi - 1]);
            }
            assert(trim_end_idx(frag, hi - a) <= hi - a);
            assert(trim_of(frag) =~= Seq::<char>::empty());
        }
        String::new()
    } else {
        proof {
            assert(frag[hi - 1 - a] == s@[hi - 1]);
            assert(trim_end_idx(frag, hi - a) == hi - a);
            assert(s@.subrange(lo as int, hi as int) =~= frag.subrange(lo - a, hi - a));
        }
        let piece = s.substring_char(lo, hi);
        piece.to_owned()
    }
}

/// Some character of `s` is alphabetic.
pub open spec fn contains_alpha(s: Seq<char>) -> bool {
    exists|i: int| 0 <= i < s.len() && is_alpha_char(#[trigger] s[i])
}

pub fn str_contains_alpha(s: &str) -> (r: bool)
    ensures
        r == contains_alpha(s@),
{
    let n = char_count(s);
    let mut i: usize = 0;
    while i < n
        invariant
            i <= n,
            n == s@.len(),
            forall|t: int| 0 <= t < i ==> !is_alpha_char(#[trigger] s@[t]),
        decreases n - i,
    {
        if s.get_char(i).is_alphabetic() {
            return true;
        }
        i = i + 1;
    }
    false
}

} // verus!
