//! Plain-text helpers on `str`: equality, prefix, substring and
//! ASCII case-insensitive equality, each proved against its spec function.
use vstd::prelude::*;

verus! {

/// `needle` occurs in `hay` starting at position `i`.
pub open spec fn occurs_at(hay: Seq<char>, needle: Seq<char>, i: int) -> bool {
    0 <= i && i + needle.len() <= hay.len() && hay.subrange(i, i + needle.len()) == needle
}

/// `needle` occurs somewhere in `hay` (the empty text occurs everywhere).
pub open spec fn contains_seq(hay: Seq<char>, needle: Seq<char>) -> bool {
    exists|i: int| occurs_at(hay, needle, i)
}

/// `hay` begins with `prefix`.
pub open spec fn starts_with_seq(hay: Seq<char>, prefix: Seq<char>) -> bool {
    occurs_at(hay, prefix, 0)
}

/// The code point of a character after ASCII lower-casing; other
/// characters keep their own code point.
pub open spec fn ascii_lower(c: char) -> u32 {
    if 'A' <= c && c <= 'Z' {
        ((c as u32) + 32) as u32
    } else {
        c as u32
    }
}

/// The two texts are equal once ASCII letters are folded to lower case.
pub open spec fn eq_ignore_ascii_case_seq(a: Seq<char>, b: Seq<char>) -> bool {
    a.len() == b.len() && forall|i: int| 0 <= i < a.len() ==> ascii_lower(#[trigger] a[i]) == ascii_lower(b[i])
}

fn lower_code(c: char) -> (r: u32)
    ensures
        r == ascii_lower(c),
{
    if 'A' <= c && c <= 'Z' {
        ((c as u32) + 32) as u32
    } else {
        c as u32
    }
}

/// Whether `needle` occurs in `hay` at position `at`.
fn matches_at(hay: &str, needle: &str, at: usize) -> (r: bool)
    requires
        at + needle@.len() <= hay@.len(),
    ensures
        r == occurs_at(hay@, needle@, at as int),
{
    let h = hay.unicode_len();
    let n = needle.unicode_len();
    let mut k: usize = 0;
    while k < n
        invariant
            n == needle@.len(),
            h == hay@.len(),
            at + n <= h,
            0 <= k <= n,
            forall|j: int| 0 <= j < k ==> hay@[at + j] == needle@[j],
        decreases n - k,
    {
        if hay.get_char(at + k) != needle.get_char(k) {
            assert(hay@.subrange(at as int, at + n)[k as int] != needle@[k as int]);
            return false;
        }
        k = k + 1;
    }
    assert(hay@.subrange(at as int, at + n) =~= needle@);
    true
}

/// Character-wise equality of two texts.
pub fn text_equals(a: &str, b: &str) -> (r: bool)
    ensures
        r == (a@ == b@),
{
    if a.unicode_len() != b.unicode_len() {
        return false;
    }
    let r = matches_at(a, b, 0);
    proof {
        assert(a@.subrange(0, a@.len() as int) =~= a@);
    }
    r
}

/// Whether `hay` begins with `prefix`.
pub fn starts_with_text(hay: &str, prefix: &str) -> (r: bool)
    ensures
        r == starts_with_seq(hay@, prefix@),
{
    if prefix.unicode_len() > hay.unicode_len() {
        return false;
    }
    matches_at(hay, prefix, 0)
}

/// Whether `needle` occurs in `hay`; case-sensitive.
pub fn contains_text(hay: &str, needle: &str) -> (r: bool)
    ensures
        r == contains_seq(hay@, needle@),
{
    let h = hay.unicode_len();
    let n = needle.unicode_len();
    if n > h {
        return false;
    }
    let mut i: usize = 0;
    while i <= h - n
        invariant
            h == hay@.len(),
            n == needle@.len(),
            n <= h,
            i <= h - n + 1,
            forall|j: int| 0 <= j < i ==> !occurs_at(hay@, needle@, j),
        decreases h - n + 1 - i,
    {
        if matches_at(hay, needle, i) {
            return true;
        }
        if i == h - n {
            return false;
        }
        i = i + 1;
    }
    false
}

/// Equality of two texts once ASCII letters are folded to lower case.
pub fn eq_ignore_ascii_case(a: &str, b: &str) -> (r: bool)
    ensures
        r == eq_ignore_ascii_case_seq(a@, b@),
{
    let n = a.unicode_len();
    if n != b.unicode_len() {
        return false;
    }
    let mut k: usize = 0;
    while k < n
        invariant
            n == a@.len(),
            n == b@.len(),
            0 <= k <= n,
            forall|j: int| 0 <= j < k ==> ascii_lower(#[trigger] a@[j]) == ascii_lower(b@[j]),
        decreases n - k,
    {
        if lower_code(a.get_char(k)) != lower_code(b.get_char(k)) {
            return false;
        }
        k = k + 1;
    }
    true
}

} // verus!
