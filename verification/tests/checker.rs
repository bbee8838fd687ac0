use url_cleaner::checker::classify_status;
use url_cleaner::checker::decimal_string;

#[test]
fn status_200_is_annotated_ok() {
    let result = classify_status("https://www.example.com", 200);
    assert!(result.is_ok());
    assert_eq!(result.unwrap(), "https://www.example.com (Ok)");
}

#[test]
fn status_301_and_300_are_annotated_redirect() {
    let result = classify_status("http://example.org", 301);
    assert_eq!(result.unwrap(), "http://example.org (Redirect)");
    let result = classify_status("http://example.org", 300);
    assert_eq!(result.unwrap(), "http://example.org (Redirect)");
}

#[test]
fn other_statuses_fail_with_the_code() {
    let result = classify_status("https://example.net", 404);
    assert!(result.is_err());
    assert_eq!(
        result.unwrap_err(),
        "Error checking URL: https://example.net (status code: 404)"
    );
    let result = classify_status("https://example.net", 500);
    assert_eq!(
        result.unwrap_err(),
        "Error checking URL: https://example.net (status code: 500)"
    );
    assert!(classify_status("https://example.net", 302).is_err());
    assert!(classify_status("https://example.net", 0).is_err());
}

#[test]
fn decimal_rendering_is_exact() {
    assert_eq!(decimal_string(0), "0");
    assert_eq!(decimal_string(7), "7");
    assert_eq!(decimal_string(10), "10");
    assert_eq!(decimal_string(404), "404");
    assert_eq!(decimal_string(65535), "65535");
}
