//! Byte-level text matching and ordering.
//!
//! Search patterns match like a catalog lookup: a needle occurs anywhere in
//! the haystack, with ASCII letters compared without regard to case. Text
//! sorts in plain byte order. Both views work on the UTF-8 bytes of the
//! string, so contracts speak of [`vstd::utf8::encode_utf8`] of the string's
//! characters.

use vstd::prelude::*;
use vstd::utf8::encode_utf8;

verus! {

/// The UTF-8 bytes of a string.
pub open spec fn str_bytes(s: String) -> Seq<u8> {
    encode_utf8(s@)
}

/// ASCII upper-case letters folded to lower case; every other byte as is.
pub open spec fn fold_case(b: u8) -> u8 {
    if 65 <= b <= 90 {
        (b + 32) as u8
    } else {
        b
    }
}

/// The needle matches the haystack at offset `i`, case-folded.
pub open spec fn ci_match_at(hay: Seq<u8>, needle: Seq<u8>, i: int) -> bool {
    forall|j: int|
        0 <= j < needle.len() ==> fold_case(hay[i + j]) == fold_case(#[trigger] needle[j])
}

/// The needle occurs somewhere in the haystack, case-folded — the byte form
/// of an ASCII case-insensitive substring match.
pub open spec fn contains_ci(hay: Seq<u8>, needle: Seq<u8>) -> bool {
    exists|i: int| 0 <= i && i + needle.len() <= hay.len() && ci_match_at(hay, needle, i)
}

/// Plain byte order on byte sequences: the order a byte-wise text collation
/// sorts by.
pub open spec fn bytes_le(a: Seq<u8>, b: Seq<u8>) -> bool
    decreases a.len(),
{
    if a.len() == 0 {
        true
    } else if b.len() == 0 {
        false
    } else if a[0] < b[0] {
        true
    } else if a[0] > b[0] {
        false
    } else {
        bytes_le(a.drop_first(), b.drop_first())
    }
}

/// Byte order is total: one of the two directions always holds.
pub proof fn lemma_bytes_le_total(a: Seq<u8>, b: Seq<u8>)
    ensures
        bytes_le(a, b) || bytes_le(b, a),
    decreases a.len(),
{
    if a.len() > 0 && b.len() > 0 && a[0] == b[0] {
        lemma_bytes_le_total(a.drop_first(), b.drop_first());
    }
}

/// Byte order is reflexive.
pub proof fn lemma_bytes_le_refl(a: Seq<u8>)
    ensures
        bytes_le(a, a),
    decreases a.len(),
{
    if a.len() > 0 {
        lemma_bytes_le_refl(a.drop_first());
    }
}

/// Byte order is transitive.
pub proof fn lemma_bytes_le_trans(a: Seq<u8>, b: Seq<u8>, c: Seq<u8>)
    requires
        bytes_le(a, b),
        bytes_le(b, c),
    ensures
        bytes_le(a, c),
    decreases a.len(),
{
    if a.len() > 0 && b.len() > 0 && c.len() > 0 && a[0] == b[0] && b[0] == c[0] {
        lemma_bytes_le_trans(a.drop_first(), b.drop_first(), c.drop_first());
    }
}

/// Byte order below an index of disagreement is decided by the first
/// differing position: equal prefixes can be skipped.
proof fn lemma_bytes_le_skip(a: Seq<u8>, b: Seq<u8>, i: int)
    requires
        0 <= i <= a.len(),
        i <= b.len(),
        forall|t: int| 0 <= t < i ==> a[t] == #[trigger] b[t],
    ensures
        bytes_le(a, b) == bytes_le(a.skip(i), b.skip(i)),
    decreases i,
{
    if i > 0 {
        assert(a[0] == b[0]);
        lemma_bytes_le_skip(a.drop_first(), b.drop_first(), i - 1);
        assert(a.drop_first().skip(i - 1) =~= a.skip(i));
        assert(b.drop_first().skip(i - 1) =~= b.skip(i));
        assert(a.skip(0) =~= a);
        assert(b.skip(0) =~= b);
    } else {
        assert(a.skip(0) =~= a);
        assert(b.skip(0) =~= b);
    }
}

/// Case-folds one byte.
pub fn fold_case_byte(b: u8) -> (r: u8)
    ensures
        r == fold_case(b),
{
    if b >= 65 && b <= 90 {
        b + 32
    } else {
        b
    }
}

/// Whether the needle matches the haystack at offset `i`, case-folded.
fn ci_match_at_check(hay: &[u8], needle: &[u8], i: usize) -> (r: bool)
    requires
        i + needle@.len() <= hay@.len(),
    ensures
        r == ci_match_at(hay@, needle@, i as int),
{
    let n = hay.len();
    let m = needle.len();
    for j in 0..m
        invariant
            n == hay@.len(),
            m == needle@.len(),
            i + m <= n,
            forall|t: int|
                0 <= t < j ==> fold_case(hay@[i + t]) == fold_case(#[trigger] needle@[t]),
    {
        if fold_case_byte(hay[i + j]) != fold_case_byte(needle[j]) {
            return false;
        }
    }
    true
}

/// Whether the needle occurs anywhere in the haystack, ASCII letters
/// compared without regard to case.
pub fn contains_ci_bytes(hay: &[u8], needle: &[u8]) -> (r: bool)
    ensures
        r == contains_ci(hay@, needle@),
{
    let n = hay.len();
    let m = needle.len();
    if m > n {
        return false;
    }
    if m == 0 {
        proof {
            assert(ci_match_at(hay@, needle@, 0));
        }
        return true;
    }
    let bound = n - m;
    let mut i: usize = 0;
    while i <= bound
        invariant
            n == hay@.len(),
            m == needle@.len(),
            0 < m <= n,
            bound == n - m,
            i <= bound + 1,
            forall|t: int| 0 <= t < i ==> !ci_match_at(hay@, needle@, t),
        decreases bound + 1 - i,
    {
        if ci_match_at_check(hay, needle, i) {
            return true;
        }
        i += 1;
    }
    false
}

/// Case-insensitive substring match of one string in another, over their
/// UTF-8 bytes.
pub fn string_contains_ci(hay: &String, needle: &String) -> (r: bool)
    ensures
        r == contains_ci(str_bytes(*hay), str_bytes(*needle)),
{
    contains_ci_bytes(hay.as_str().as_bytes(), needle.as_str().as_bytes())
}

/// Byte-order comparison of two byte slices, `a <= b`.
pub fn bytes_le_check(a: &[u8], b: &[u8]) -> (r: bool)
    ensures
        r == bytes_le(a@, b@),
{
    let alen = a.len();
    let blen = b.len();
    let mut i: usize = 0;
    while i < alen && i < blen
        invariant
            alen == a@.len(),
            blen == b@.len(),
            i <= alen,
            i <= blen,
            forall|t: int| 0 <= t < i ==> a@[t] == #[trigger] b@[t],
        decreases alen - i,
    {
        if a[i] < b[i] {
            proof {
                lemma_bytes_le_skip(a@, b@, i as int);
                assert(a@.skip(i as int)[0] == a@[i as int]);
                assert(b@.skip(i as int)[0] == b@[i as int]);
            }
            return true;
        }
        if a[i] > b[i] {
            proof {
                lemma_bytes_le_skip(a@, b@, i as int);
                assert(a@.skip(i as int)[0] == a@[i as int]);
                assert(b@.skip(i as int)[0] == b@[i as int]);
            }
            return false;
        }
        i += 1;
    }
    proof {
        lemma_bytes_le_skip(a@, b@, i as int);
    }
    if i == alen {
        proof {
            assert(a@.skip(i as int).len() == 0);
        }
        true
    } else {
        proof {
            assert(a@.skip(i as int).len() > 0);
            assert(b@.skip(i as int).len() == 0);
        }
        false
    }
}

/// Byte-order comparison of two strings, `a <= b`, over their UTF-8 bytes.
pub fn string_le(a: &String, b: &String) -> (r: bool)
    ensures
        r == bytes_le(str_bytes(*a), str_bytes(*b)),
{
    bytes_le_check(a.as_str().as_bytes(), b.as_str().as_bytes())
}

} // verus!
