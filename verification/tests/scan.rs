use dtkit_patch::scan::bytes_check;

#[test]
fn finds_first_of_two_matches() {
    assert_eq!(bytes_check(b"abcabc", b"bc"), Some(1));
}

#[test]
fn finds_match_at_start_and_end() {
    assert_eq!(bytes_check(b"abcdef", b"abc"), Some(0));
    assert_eq!(bytes_check(b"abcdef", b"def"), Some(3));
    assert_eq!(bytes_check(b"abcdef", b"abcdef"), Some(0));
}

#[test]
fn no_match_gives_none() {
    assert_eq!(bytes_check(b"abcdef", b"abd"), None);
    assert_eq!(bytes_check(b"aaaa", b"b"), None);
}

#[test]
fn needle_longer_than_haystack_gives_none() {
    assert_eq!(bytes_check(b"ab", b"abc"), None);
    assert_eq!(bytes_check(b"", b"a"), None);
}

#[test]
fn empty_needle_matches_at_zero() {
    assert_eq!(bytes_check(b"abc", b""), Some(0));
    assert_eq!(bytes_check(b"", b""), Some(0));
}

#[test]
fn partial_match_is_followed_by_full_match() {
    assert_eq!(bytes_check(b"aab", b"ab"), Some(1));
    assert_eq!(bytes_check(b"ababac", b"abac"), Some(2));
}
