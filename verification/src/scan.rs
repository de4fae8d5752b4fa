//! Search for a byte sequence inside a byte buffer.

use vstd::prelude::*;

verus! {

/// `needle` lies in `haystack` as a contiguous run that starts at `at`.
pub open spec fn matches_at(haystack: Seq<u8>, needle: Seq<u8>, at: int) -> bool {
    &&& 0 <= at
    &&& at + needle.len() <= haystack.len()
    &&& haystack.subrange(at, at + needle.len()) == needle
}

/// `needle` lies somewhere in `haystack`.
pub open spec fn occurs(haystack: Seq<u8>, needle: Seq<u8>) -> bool {
    exists|at: int| matches_at(haystack, needle, at)
}

/// `needle` matches at `at` and nowhere to the left of it.
pub open spec fn is_first_match(haystack: Seq<u8>, needle: Seq<u8>, at: int) -> bool {
    &&& matches_at(haystack, needle, at)
    &&& forall|earlier: int| 0 <= earlier < at ==> !matches_at(haystack, needle, earlier)
}

/// The leftmost position at which `needle` matches, if it matches at all.
pub open spec fn first_match(haystack: Seq<u8>, needle: Seq<u8>) -> Option<int> {
    if occurs(haystack, needle) {
        Some(choose|at: int| is_first_match(haystack, needle, at))
    } else {
        None
    }
}

/// Among the positions up to a matching one there is a leftmost match.
proof fn lemma_leftmost_exists(haystack: Seq<u8>, needle: Seq<u8>, at: int)
    requires
        matches_at(haystack, needle, at),
    ensures
        exists|first: int| 0 <= first <= at && is_first_match(haystack, needle, first),
    decreases at,
{
    if exists|earlier: int| 0 <= earlier < at && matches_at(haystack, needle, earlier) {
        let earlier = choose|earlier: int| 0 <= earlier < at && matches_at(haystack, needle, earlier);
        lemma_leftmost_exists(haystack, needle, earlier);
    } else {
        assert(is_first_match(haystack, needle, at));
    }
}

/// A leftmost match is the value of `first_match`.
pub proof fn lemma_first_match_is(haystack: Seq<u8>, needle: Seq<u8>, at: int)
    requires
        is_first_match(haystack, needle, at),
    ensures
        first_match(haystack, needle) == Some(at),
{
    let chosen = choose|k: int| is_first_match(haystack, needle, k);
    assert(is_first_match(haystack, needle, chosen));
    assert(chosen == at) by {
        if chosen < at {
            assert(!matches_at(haystack, needle, chosen));
        } else if at < chosen {
            assert(!matches_at(haystack, needle, at));
        }
    }
}

/// What `first_match` says of its value: a match with none to its left, inside
/// the haystack; and `None` exactly where the needle does not occur.
pub proof fn lemma_first_match(haystack: Seq<u8>, needle: Seq<u8>)
    ensures
        match first_match(haystack, needle) {
            Some(at) => is_first_match(haystack, needle, at),
            None => !occurs(haystack, needle),
        },
{
    if occurs(haystack, needle) {
        let at = choose|at: int| matches_at(haystack, needle, at);
        lemma_leftmost_exists(haystack, needle, at);
    }
}

/// Whether `check` lies in `bytes` at position `at`.
fn window_matches(bytes: &[u8], check: &[u8], at: usize) -> (same: bool)
    requires
        at + check@.len() <= bytes@.len(),
    ensures
        same == matches_at(bytes@, check@, at as int),
{
    let width: usize = check.len();
    let total: usize = bytes.len();
    let mut k: usize = 0;
    while k < width
        invariant
            k <= width == check@.len(),
            at + width <= total == bytes@.len(),
            forall|j: int| 0 <= j < k ==> bytes@[at + j] == check@[j],
        decreases width - k,
    {
        if bytes[at + k] != check[k] {
            assert(bytes@.subrange(at as int, at + check@.len())[k as int] != check@[k as int]);
            return false;
        }
        k += 1;
    }
    assert(bytes@.subrange(at as int, at + check@.len()) =~= check@);
    true
}

/// Finds the first place where `check` lies in `bytes`, scanning from the left.
///
/// The result is the leftmost position at which `check` matches a contiguous
/// run of `bytes`. It is `None` where there is no such position, so also where
/// `check` is longer than `bytes`. An empty `check` matches at position 0.
pub fn bytes_check(bytes: &[u8], check: &[u8]) -> (found: Option<usize>)
    ensures
        found.is_some() == occurs(bytes@, check@),
        match found {
            Some(at) => first_match(bytes@, check@) == Some(at as int),
            None => first_match(bytes@, check@).is_none(),
        },
{
    if check.len() > bytes.len() {
        return None;
    }
    if check.len() == 0 {
        proof {
            assert(bytes@.subrange(0, 0) =~= check@);
            assert(matches_at(bytes@, check@, 0));
            lemma_first_match_is(bytes@, check@, 0);
        }
        return Some(0);
    }
    let total: usize = bytes.len();
    let last: usize = total - check.len();
    let mut at: usize = 0;
    while at <= last
        invariant
            0 < check@.len() <= bytes@.len() == total,
            last == total - check@.len(),
            at <= last + 1,
            forall|earlier: int| 0 <= earlier < at ==> !matches_at(bytes@, check@, earlier),
        decreases last + 1 - at,
    {
        if window_matches(bytes, check, at) {
            proof {
                lemma_first_match_is(bytes@, check@, at as int);
            }
            return Some(at);
        }
        at += 1;
    }
    assert(!occurs(bytes@, check@));
    None
}

} // verus!
