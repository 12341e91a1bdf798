use gomaluum_auth::text::{bytes_contain, bytes_equal, bytes_match_at, str_contains, str_equal};

#[test]
fn substring_is_found_anywhere() {
    assert!(str_contains("Login failed", "Login failed"));
    assert!(str_contains("<p>Login failed</p>", "Login failed"));
    assert!(str_contains("xx Invalid credentials", "Invalid credentials"));
    assert!(str_contains("Invalid credentials yy", "Invalid credentials"));
}

#[test]
fn substring_is_matched_exactly() {
    assert!(!str_contains("login failed", "Login failed"));
    assert!(!str_contains("Login  failed", "Login failed"));
    assert!(!str_contains("Login faile", "Login failed"));
    assert!(!str_contains("", "Login failed"));
}

#[test]
fn empty_needle_occurs_everywhere() {
    assert!(str_contains("abc", ""));
    assert!(str_contains("", ""));
}

#[test]
fn substring_search_respects_characters() {
    assert!(str_contains("héllo wörld", "wör"));
    assert!(str_contains("héllo wörld", "é"));
    assert!(!str_contains("héllo", "e"));
    assert!(!str_contains("hello", "é"));
}

#[test]
fn substring_after_partial_match() {
    assert!(str_contains("aaab", "aab"));
    assert!(str_contains("LoLogin failed", "Login failed"));
    assert!(!str_contains("abababa", "abb"));
}

#[test]
fn strings_compare_by_content() {
    assert!(str_equal("MOD_AUTH_CAS", "MOD_AUTH_CAS"));
    assert!(str_equal("", ""));
    assert!(!str_equal("MOD_AUTH_CAS", "mod_auth_cas"));
    assert!(!str_equal("MOD_AUTH_CAS", "MOD_AUTH_CA"));
    assert!(!str_equal("a", "b"));
}

#[test]
fn bytes_compare_by_content() {
    assert!(bytes_equal(b"abc", b"abc"));
    assert!(bytes_equal(b"", b""));
    assert!(!bytes_equal(b"abc", b"abd"));
    assert!(!bytes_equal(b"abc", b"ab"));
}

#[test]
fn bytes_match_at_a_given_offset() {
    assert!(bytes_match_at(b"hello world", b"world", 6));
    assert!(!bytes_match_at(b"hello world", b"world", 5));
    assert!(bytes_match_at(b"hello", b"", 5));
    assert!(bytes_match_at(b"hello", b"hello", 0));
    assert!(!bytes_match_at(b"hello", b"lo", 4));
    assert!(!bytes_match_at(b"hello", b"", 6));
    assert!(!bytes_match_at(b"hello", b"hello!", 0));
    assert!(!bytes_match_at(b"hello", b"h", usize::MAX));
}

#[test]
fn bytes_contain_finds_first_and_last_positions() {
    assert!(bytes_contain(b"hello world", b"hello"));
    assert!(bytes_contain(b"hello world", b"world"));
    assert!(bytes_contain(b"hello world", b"o w"));
    assert!(!bytes_contain(b"hello world", b"worlds"));
    assert!(!bytes_contain(b"ab", b"abc"));
}
