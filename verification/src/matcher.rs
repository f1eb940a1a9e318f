//! The URL matcher: decides whether an account's configured match pattern
//! applies to a concrete remote URL.
//!
//! A pattern ending in `*` matches every candidate that contains the pattern
//! with the `*` stripped as a substring anywhere (deliberately permissive;
//! in particular the pattern `"*"` matches every candidate). Any other
//! pattern matches exactly the candidate equal to it. A missing pattern
//! matches nothing.

use vstd::prelude::*;

verus! {

/// A needle occurs as a contiguous substring of a haystack.
pub open spec fn contains_sub(haystack: Seq<char>, needle: Seq<char>) -> bool {
    exists|k: int|
        0 <= k && k + needle.len() <= haystack.len() && #[trigger] haystack.subrange(
            k,
            k + needle.len(),
        ) == needle
}

/// What it means for a match pattern to accept a candidate URL.
pub open spec fn spec_matches(pattern: Option<Seq<char>>, candidate: Seq<char>) -> bool {
    match pattern {
        Option::None => false,
        Option::Some(p) => if p.len() > 0 && p.last() == '*' {
            contains_sub(candidate, p.drop_last())
        } else {
            candidate == p
        },
    }
}

/// Two strings hold the same characters.
pub fn str_eq(a: &str, b: &str) -> (r: bool)
    ensures
        r == (a@ == b@),
{
    let a_len = a.unicode_len();
    let b_len = b.unicode_len();
    if a_len != b_len {
        assert(a@.len() != b@.len());
        return false;
    }
    let mut i: usize = 0;
    while i < a_len
        invariant
            a_len == a@.len(),
            b_len == b@.len(),
            a_len == b_len,
            i <= a_len,
            forall|j: int| 0 <= j < i ==> a@[j] == b@[j],
        decreases a_len - i,
    {
        if a.get_char(i) != b.get_char(i) {
            assert(a@[i as int] != b@[i as int]);
            return false;
        }
        i = i + 1;
    }
    assert(a@ =~= b@);
    true
}

/// The needle's characters stand in the haystack starting at position `k`.
fn matches_at(haystack: &str, needle: &str, k: usize) -> (r: bool)
    requires
        k + needle@.len() <= haystack@.len(),
    ensures
        r == (haystack@.subrange(k as int, k + needle@.len()) == needle@),
{
    let h_len = haystack.unicode_len();
    let n_len = needle.unicode_len();
    let mut i: usize = 0;
    while i < n_len
        invariant
            h_len == haystack@.len(),
            n_len == needle@.len(),
            k + n_len <= h_len,
            i <= n_len,
            forall|j: int| 0 <= j < i ==> haystack@[k + j] == needle@[j],
        decreases n_len - i,
    {
        if haystack.get_char(k + i) != needle.get_char(i) {
            assert(haystack@.subrange(k as int, k + needle@.len())[i as int] != needle@[i as int]);
            return false;
        }
        i = i + 1;
    }
    assert(haystack@.subrange(k as int, k + needle@.len()) =~= needle@);
    true
}

/// Substring search: the needle occurs somewhere in the haystack.
pub fn str_contains(haystack: &str, needle: &str) -> (r: bool)
    ensures
        r == contains_sub(haystack@, needle@),
{
    let h_len = haystack.unicode_len();
    let n_len = needle.unicode_len();
    if n_len > h_len {
        assert(!contains_sub(haystack@, needle@));
        return false;
    }
    if n_len == 0 {
        assert(contains_sub(haystack@, needle@)) by {
            assert(haystack@.subrange(0, 0 + needle@.len() as int) =~= needle@);
        }
        return true;
    }
    let last = h_len - n_len;
    let mut k: usize = 0;
    while k <= last
        invariant
            h_len == haystack@.len(),
            n_len == needle@.len(),
            1 <= n_len <= h_len,
            last == h_len - n_len,
            k <= last + 1,
            forall|k2: int|
                0 <= k2 < k ==> #[trigger] haystack@.subrange(k2, k2 + needle@.len()) != needle@,
        decreases last + 1 - k,
    {
        if matches_at(haystack, needle, k) {
            return true;
        }
        k = k + 1;
    }
    false
}

/// Whether a match pattern accepts a candidate URL.
///
/// A pattern ending in `*` is a containment pattern: the candidate matches
/// iff it contains the pattern minus the `*` as a substring. Any other
/// pattern requires exact equality. No pattern matches nothing.
pub fn url_matches(pattern: Option<&str>, candidate: &str) -> (r: bool)
    ensures
        r == spec_matches(pattern.deep_view(), candidate@),
{
    match pattern {
        Option::None => false,
        Option::Some(p) => {
            let p_len = p.unicode_len();
            if p_len > 0 && p.get_char(p_len - 1) == '*' {
                let prefix = p.substring_char(0, p_len - 1);
                assert(prefix@ =~= p@.drop_last());
                str_contains(candidate, prefix)
            } else {
                str_eq(candidate, p)
            }
        },
    }
}

/// Law: a pattern that does not end in `*` matches exactly the candidate
/// equal to it.
pub proof fn lemma_matches_exact(p: Seq<char>, c: Seq<char>)
    requires
        p.len() == 0 || p.last() != '*',
    ensures
        spec_matches(Option::Some(p), c) == (p == c),
{
}

/// Law: a pattern of the form `prefix + "*"` matches exactly the candidates
/// that contain `prefix` as a substring.
pub proof fn lemma_matches_prefix(prefix: Seq<char>, c: Seq<char>)
    ensures
        spec_matches(Option::Some(prefix.push('*')), c) == contains_sub(c, prefix),
{
    assert(prefix.push('*').drop_last() =~= prefix);
}

/// Law: a missing pattern matches nothing.
pub proof fn lemma_matches_none(c: Seq<char>)
    ensures
        !spec_matches(Option::None, c),
{
}

} // verus!
