use zero2prod::startup::app_url;
use zero2prod::text::str_eq;

#[test]
fn url_of_port() {
    assert_eq!(app_url(8080), "http://127.0.0.1:8080");
}

#[test]
fn url_of_smallest_and_largest_port() {
    assert_eq!(app_url(0), "http://127.0.0.1:0");
    assert_eq!(app_url(65535), "http://127.0.0.1:65535");
    assert_eq!(app_url(10), "http://127.0.0.1:10");
}

#[test]
fn string_equality() {
    assert!(str_eq("abc", "abc"));
    assert!(str_eq("", ""));
    assert!(!str_eq("abc", "abd"));
    assert!(!str_eq("abc", "ab"));
    assert!(str_eq("é", "é"));
}
