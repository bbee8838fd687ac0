use url_cleaner::validator::is_valid_url;

#[test]
fn test_is_valid_url_valid() {
    assert!(is_valid_url("https://www.example.com"));
    assert!(is_valid_url("http://www.example.org"));
    assert!(is_valid_url("https://example.net"));
}

#[test]
fn test_is_valid_url_invalid() {
    assert!(!is_valid_url("example.com"));
    assert!(!is_valid_url("htp://www.example.com"));
    assert!(!is_valid_url("https//www.example.com"));
}

#[test]
fn no_scheme_means_invalid() {
    assert!(!is_valid_url(""));
    assert!(!is_valid_url("www.example.com"));
    assert!(!is_valid_url("ftp://example.com"));
    assert!(!is_valid_url("HTTP://example.com"));
    assert!(!is_valid_url(" https://example.com"));
}

#[test]
fn scheme_without_tld_is_invalid() {
    assert!(!is_valid_url("http://localhost"));
    assert!(!is_valid_url("http://"));
    assert!(!is_valid_url("https://."));
}

#[test]
fn trailing_text_is_invalid() {
    assert!(!is_valid_url("https://example.com "));
    assert!(!is_valid_url("https://example.com\n"));
    assert!(!is_valid_url("https://example.com|rest"));
}

#[test]
fn paths_queries_and_fragments_are_valid() {
    assert!(is_valid_url("https://example.com/"));
    assert!(is_valid_url("https://example.com/a/b?q=1&r=%20#frag"));
    assert!(is_valid_url("http://www.example.co.uk/path"));
    assert!(is_valid_url("https://example.com()"));
}

#[test]
fn tld_segment_length_is_bounded() {
    assert!(is_valid_url("https://example.abcdef"));
    assert!(!is_valid_url("https://example.abcdefg"));
}

#[test]
fn word_boundary_after_tld_is_required() {
    assert!(!is_valid_url("https://example.()"));
}

#[test]
fn host_length_is_bounded() {
    let host_256 = "a".repeat(256);
    let host_257 = "a".repeat(257);
    assert!(is_valid_url(&format!("https://{host_256}.com")));
    assert!(!is_valid_url(&format!("https://{host_257}.com")));
}
