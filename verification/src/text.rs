//! Small text utilities: characters of a string, folding to small ASCII
//! letters, and case-insensitive comparison and search.

use vstd::prelude::*;

verus! {

/// The Kelvin sign, which Unicode writes in lower case as the letter `k`.
pub const KELVIN_SIGN: char = '\u{212A}';

/// `c` folded towards the small ASCII letters: the capitals `A`..`Z` go to
/// `a`..`z` and the Kelvin sign to `k`; every other character is unchanged.
/// No other character has a small ASCII letter as its lower-case form, so
/// text folded this way equals a word of small ASCII letters exactly when
/// its full lower-case form does.
pub open spec fn ascii_lower(c: char) -> char {
    if 'A' <= c && c <= 'Z' {
        ((c as u8) + 32) as char
    } else if c == KELVIN_SIGN {
        'k'
    } else {
        c
    }
}

/// `s` with every character folded by [`ascii_lower`].
pub open spec fn ascii_lower_seq(s: Seq<char>) -> Seq<char> {
    Seq::new(s.len(), |i: int| ascii_lower(s[i]))
}

/// Whether `needle` stands in `hay` at offset `k`.
pub open spec fn occurs_at(hay: Seq<char>, needle: Seq<char>, k: int) -> bool {
    &&& 0 <= k
    &&& k + needle.len() <= hay.len()
    &&& hay.subrange(k, k + needle.len()) == needle
}

/// Whether `needle` stands somewhere in `hay`.
pub open spec fn contains_seq(hay: Seq<char>, needle: Seq<char>) -> bool {
    exists|k: int| occurs_at(hay, needle, k)
}

pub fn to_ascii_lower(c: char) -> (r: char)
    ensures
        r == ascii_lower(c),
{
    if 'A' <= c && c <= 'Z' {
        ((c as u8) + 32) as char
    } else if c == KELVIN_SIGN {
        'k'
    } else {
        c
    }
}

/// The characters of `s`, folded by [`ascii_lower`].
pub fn lower_chars(s: &str) -> (r: Vec<char>)
    ensures
        r@ == ascii_lower_seq(s@),
{
    let n = s.unicode_len();
    let mut r: Vec<char> = Vec::new();
    let mut i: usize = 0;
    while i < n
        invariant
            i <= n,
            n == s@.len(),
            r@.len() == i,
            forall|j: int| 0 <= j < i ==> r@[j] == ascii_lower(s@[j]),
        decreases n - i,
    {
        r.push(to_ascii_lower(s.get_char(i)));
        i = i + 1;
    }
    assert(r@ =~= ascii_lower_seq(s@));
    r
}

/// Whether two vectors of characters hold the same sequence.
pub fn vec_eq(x: &Vec<char>, y: &Vec<char>) -> (r: bool)
    ensures
        r == (x@ == y@),
{
    if x.len() != y.len() {
        return false;
    }
    let mut i: usize = 0;
    while i < x.len()
        invariant
            i <= x.len(),
            x.len() == y.len(),
            forall|j: int| 0 <= j < i ==> x@[j] == y@[j],
        decreases x.len() - i,
    {
        if x[i] != y[i] {
            return false;
        }
        i = i + 1;
    }
    assert(x@ =~= y@);
    true
}

/// Whether `needle` stands in `hay` at offset `k`.
fn matches_at(hay: &Vec<char>, needle: &Vec<char>, k: usize) -> (r: bool)
    requires
        k + needle.len() <= hay.len(),
    ensures
        r == occurs_at(hay@, needle@, k as int),
{
    let mut j: usize = 0;
    while j < needle.len()
        invariant
            j <= needle.len(),
            k + needle.len() <= hay.len(),
            forall|t: int| 0 <= t < j ==> hay@[k + t] == needle@[t],
        decreases needle.len() - j,
    {
        if hay[k + j] != needle[j] {
            assert(hay@.subrange(k as int, k + needle.len())[j as int] != needle@[j as int]);
            return false;
        }
        j = j + 1;
    }
    assert(hay@.subrange(k as int, k + needle.len()) =~= needle@);
    true
}

/// Whether `needle` stands somewhere in `hay`.
pub fn contains_chars(hay: &Vec<char>, needle: &Vec<char>) -> (r: bool)
    ensures
        r == contains_seq(hay@, needle@),
{
    if needle.len() > hay.len() {
        assert forall|k: int| !occurs_at(hay@, needle@, k) by {}
        return false;
    }
    let last = hay.len() - needle.len();
    let mut k: usize = 0;
    while k < last
        invariant
            k <= last,
            last == hay.len() - needle.len(),
            forall|t: int| 0 <= t < k ==> !occurs_at(hay@, needle@, t),
        decreases last - k,
    {
        if matches_at(hay, needle, k) {
            return true;
        }
        k = k + 1;
    }
    if matches_at(hay, needle, last) {
        return true;
    }
    assert forall|t: int| !occurs_at(hay@, needle@, t) by {}
    false
}

/// Whether `text`, already folded, contains `needle` folded by
/// [`ascii_lower`].
pub fn lower_contains(text: &Vec<char>, needle: &str) -> (r: bool)
    ensures
        r == contains_seq(text@, ascii_lower_seq(needle@)),
{
    let n = lower_chars(needle);
    contains_chars(text, &n)
}

/// Whether two strings hold the same characters.
pub fn str_eq(a: &str, b: &str) -> (r: bool)
    ensures
        r == (a@ == b@),
{
    let x = String::from_str(a);
    let y = String::from_str(b);
    x == y
}

/// `text` cut for display: a text of more than `max` characters keeps its
/// first `keep` and ends in three dots.
pub open spec fn shorten_spec(text: Seq<char>, max: usize, keep: usize) -> Seq<char> {
    if text.len() > max {
        text.subrange(0, keep as int) + "..."@
    } else {
        text
    }
}

/// Cuts a text for display.
pub fn shorten(text: &str, max: usize, keep: usize) -> (r: String)
    requires
        keep <= max,
    ensures
        r@ == shorten_spec(text@, max, keep),
{
    if text.unicode_len() > max {
        String::from_str(text.substring_char(0, keep)).concat("...")
    } else {
        String::from_str(text)
    }
}

} // verus!
