use identity::matcher::str_contains;
use identity::matcher::str_eq;
use identity::matcher::url_matches;

#[test]
fn exact_pattern_matches_only_equal_candidate() {
    assert!(url_matches(Some("https://github.com/org/repo.git"), "https://github.com/org/repo.git"));
    assert!(!url_matches(Some("https://github.com/org/repo.git"), "https://github.com/org/other.git"));
    assert!(!url_matches(Some("https://github.com/org/repo.git"), "https://github.com/org/repo"));
}

#[test]
fn star_pattern_matches_candidates_containing_prefix() {
    assert!(url_matches(Some("https://github.com/*"), "https://github.com/org/repo.git"));
    assert!(!url_matches(Some("https://github.com/*"), "https://gitlab.com/x"));
}

#[test]
fn star_pattern_is_substring_containment_not_anchored() {
    assert!(url_matches(Some("github.com/*"), "ssh://git@github.com/org/repo.git"));
}

#[test]
fn bare_star_pattern_matches_every_candidate() {
    assert!(url_matches(Some("*"), "https://github.com/org/repo.git"));
    assert!(url_matches(Some("*"), ""));
}

#[test]
fn missing_pattern_matches_nothing() {
    assert!(!url_matches(None, "https://github.com/org/repo.git"));
    assert!(!url_matches(None, ""));
}

#[test]
fn empty_exact_pattern_matches_only_empty_candidate() {
    assert!(url_matches(Some(""), ""));
    assert!(!url_matches(Some(""), "x"));
}

#[test]
fn str_eq_compares_contents() {
    assert!(str_eq("abc", "abc"));
    assert!(!str_eq("abc", "abd"));
    assert!(!str_eq("abc", "ab"));
    assert!(str_eq("", ""));
}

#[test]
fn str_contains_finds_substrings() {
    assert!(str_contains("hello world", "lo wo"));
    assert!(str_contains("hello", "hello"));
    assert!(str_contains("hello", ""));
    assert!(!str_contains("hello", "world"));
    assert!(!str_contains("ab", "abc"));
}
