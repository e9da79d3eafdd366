use axum_serde::envelope::{require_content_type, Envelope};
use axum_serde::headers::Headers;
use axum_serde::rejection::BodyError;
use axum_serde::response::ResponseBody;
use axum_serde::sonic::JsonFmt;
use axum_serde::{Rejection, Sonic};
use sonic_rs::JsonValueTrait;

const JSON_BODY: &[u8] = b"{\"v0\":\"x\",\"v1\":1}";

fn json_headers() -> Headers {
    let mut h = Headers::new();
    h.push(b"Content-Type".to_vec(), b"application/json".to_vec());
    h
}

fn response_text(body: ResponseBody) -> String {
    match body {
        ResponseBody::Text(t) => t,
        ResponseBody::Bytes(_) => panic!("expected a plain-text body"),
    }
}

#[test]
fn matching_request_is_decoded() {
    let h = json_headers();
    assert!(require_content_type::<sonic_rs::Error>(&h, "application/json").is_ok());

    let body: Result<Vec<u8>, BodyError> = Ok(JSON_BODY.to_vec());
    let env: Envelope<sonic_rs::Value, JsonFmt> = Sonic::from_body(body).unwrap();
    let value = env.into_inner();
    assert_eq!(value.get("v0").as_str(), Some("x"));
    assert_eq!(value.get("v1").as_i64(), Some(1));
}

#[test]
fn missing_content_type_is_415_naming_the_expected_type() {
    let h = Headers::new();
    let r = require_content_type::<sonic_rs::Error>(&h, "application/json");
    let rej = r.unwrap_err();
    assert!(matches!(rej, Rejection::UnsupportedMediaType("application/json")));
    assert_eq!(rej.status(), 415);
    let resp = rej.into_response();
    assert_eq!(resp.status, 415);
    assert_eq!(resp.content_type, "text/plain; charset=utf-8");
    let text = response_text(resp.body);
    assert!(text.contains("application/json"));
    assert_eq!(
        text,
        "Unsupported Media Type. The server expects requests with \
         'Content-Type: application/json'."
    );
}

#[test]
fn wrong_content_type_is_415() {
    let mut h = Headers::new();
    h.push(b"Content-Type".to_vec(), b"invalid/type".to_vec());
    let r = require_content_type::<sonic_rs::Error>(&h, "application/json");
    let rej = r.unwrap_err();
    assert_eq!(rej.status(), 415);
    assert_eq!(rej.into_response().status, 415);
}

#[test]
fn undecodable_body_is_422_reporting_the_parse_error() {
    let h = json_headers();
    assert!(require_content_type::<sonic_rs::Error>(&h, "application/json").is_ok());

    let body: Result<Vec<u8>, BodyError> = Ok(b"invalid data".to_vec());
    let r: Result<Envelope<sonic_rs::Value, JsonFmt>, _> = Sonic::from_body(body);
    let rej = r.unwrap_err();
    assert!(matches!(rej, Rejection::InvalidContentFormat(_)));
    assert_eq!(rej.status(), 422);
    let resp = rej.into_response();
    assert_eq!(resp.status, 422);
    let text = response_text(resp.body);
    assert!(text.starts_with("Invalid content format: "));
    assert!(text.len() > "Invalid content format: ".len());
}

#[test]
fn body_read_failure_keeps_the_host_status_and_message() {
    let body: Result<Vec<u8>, BodyError> =
        Err(BodyError { status: 400, message: "failed to buffer the request body".to_string() });
    let r: Result<Envelope<sonic_rs::Value, JsonFmt>, _> = Sonic::from_body(body);
    let rej = r.unwrap_err();
    assert_eq!(rej.status(), 400);
    let resp = rej.into_response();
    assert_eq!(resp.status, 400);
    assert_eq!(response_text(resp.body), "failed to buffer the request body");
}

#[test]
fn successful_response_carries_the_content_type_and_decodes_back() {
    let mut v = std::collections::BTreeMap::new();
    v.insert("k".to_string(), 3i64);
    let resp = Sonic::new(v.clone()).into_response();
    assert_eq!(resp.status, 200);
    assert_eq!(resp.content_type, "application/json");
    let bytes = match resp.body {
        ResponseBody::Bytes(b) => b,
        ResponseBody::Text(t) => panic!("expected an encoded body, got: {t}"),
    };
    let back = Sonic::<std::collections::BTreeMap<String, i64>>::from_bytes(&bytes)
        .unwrap()
        .into_inner();
    assert_eq!(back, v);
}

#[test]
fn envelope_wraps_and_unwraps() {
    let env: Sonic<u32> = Sonic::from(7u32);
    assert_eq!(*env.inner(), 7u32);
    assert_eq!(env.into_inner(), 7u32);
}
