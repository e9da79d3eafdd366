use axum_serde::check_content_type;
use axum_serde::headers::Headers;
use axum_serde::media_type::{media_type_matches, parse_media_type};

fn headers_with(value: &[u8]) -> Headers {
    let mut h = Headers::new();
    h.push(b"Content-Type".to_vec(), value.to_vec());
    h
}

#[test]
fn missing_header_never_matches() {
    let h = Headers::new();
    assert!(!check_content_type(&h, "application/json"));
    assert!(!check_content_type(&h, "application/cbor"));
    assert!(!check_content_type(&h, "text/plain"));
}

#[test]
fn exact_match() {
    let h = headers_with(b"application/json");
    assert!(check_content_type(&h, "application/json"));
}

#[test]
fn parameters_are_ignored() {
    let h = headers_with(b"application/json; charset=utf-8");
    assert!(check_content_type(&h, "application/json"));
    let h = headers_with(b"application/json;charset=utf-8");
    assert!(check_content_type(&h, "application/json"));
    let h = headers_with(b"application/json ; charset=utf-8 ; q=1");
    assert!(check_content_type(&h, "application/json"));
    let h = headers_with(b"application/json; title=\"a quoted value\"");
    assert!(check_content_type(&h, "application/json"));
}

#[test]
fn case_is_ignored() {
    let h = headers_with(b"Application/JSON");
    assert!(check_content_type(&h, "application/json"));
    let mut h = Headers::new();
    h.push(b"CONTENT-TYPE".to_vec(), b"application/json".to_vec());
    assert!(check_content_type(&h, "application/json"));
}

#[test]
fn different_media_type_never_matches() {
    let h = headers_with(b"invalid/type");
    assert!(!check_content_type(&h, "application/json"));
    let h = headers_with(b"text/json");
    assert!(!check_content_type(&h, "application/json"));
    let h = headers_with(b"application/jso");
    assert!(!check_content_type(&h, "application/json"));
}

#[test]
fn malformed_values_never_match() {
    assert!(!check_content_type(&headers_with(b""), "application/json"));
    assert!(!check_content_type(&headers_with(b"application"), "application/json"));
    assert!(!check_content_type(&headers_with(b"application/"), "application/json"));
    assert!(!check_content_type(&headers_with(b"/json"), "application/json"));
    assert!(!check_content_type(&headers_with(b"application/json;"), "application/json"));
    assert!(!check_content_type(&headers_with(b"application/json; charset"), "application/json"));
    assert!(!check_content_type(&headers_with(b"application/json; =utf-8"), "application/json"));
    assert!(!check_content_type(
        &headers_with(b"application/json; title=\"unclosed"),
        "application/json",
    ));
    assert!(!check_content_type(&headers_with(b" application/json"), "application/json"));
}

#[test]
fn non_ascii_value_never_matches() {
    assert!(!check_content_type(&headers_with(b"\xff\xfe"), "application/json"));
    assert!(!check_content_type(
        &headers_with("application/j\u{00e9}son".as_bytes()),
        "application/json",
    ));
}

#[test]
fn first_content_type_header_wins() {
    let mut h = Headers::new();
    h.push(b"Content-Type".to_vec(), b"text/html".to_vec());
    h.push(b"Content-Type".to_vec(), b"application/json".to_vec());
    assert!(!check_content_type(&h, "application/json"));

    let mut h = Headers::new();
    h.push(b"Content-Type".to_vec(), b"application/json".to_vec());
    h.push(b"Content-Type".to_vec(), b"text/html".to_vec());
    assert!(check_content_type(&h, "application/json"));
}

#[test]
fn parse_decomposes_and_lowercases() {
    let mt = parse_media_type(b"Text/HTML; charset=utf-8").unwrap();
    assert_eq!(mt.primary, b"text".to_vec());
    assert_eq!(mt.subtype, b"html".to_vec());
    assert!(parse_media_type(b"nonsense").is_none());
    assert!(parse_media_type(b"a/b c").is_none());
}

#[test]
fn matcher_handles_escapes_in_quoted_values() {
    assert!(media_type_matches(b"application/json; note=\"a \\\" quote\"", b"application/json"));
    assert!(!media_type_matches(b"application/json; note=\"bad \\\x01 escape\"", b"application/json"));
}

#[test]
fn other_headers_are_not_consulted() {
    let mut h = Headers::new();
    h.push(b"Accept".to_vec(), b"application/json".to_vec());
    assert!(!check_content_type(&h, "application/json"));
}
