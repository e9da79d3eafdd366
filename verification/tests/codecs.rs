use axum_serde::response::ResponseBody;
use axum_serde::{Cbor, MsgPack, MsgPackRaw, Rejection, Sonic, Toml, Xml, Yaml};
use std::collections::BTreeMap;
use std::ops::Range;

fn sample_map() -> BTreeMap<String, i64> {
    let mut m = BTreeMap::new();
    m.insert("alpha".to_string(), 1i64);
    m.insert("beta".to_string(), -2i64);
    m
}

fn body_bytes(body: ResponseBody) -> Vec<u8> {
    match body {
        ResponseBody::Bytes(b) => b,
        ResponseBody::Text(t) => panic!("expected an encoded body, got text: {t}"),
    }
}

#[test]
fn json_round_trip() {
    let v = sample_map();
    let resp = Sonic::new(v.clone()).into_response();
    assert_eq!(resp.status, 200);
    assert_eq!(resp.content_type, "application/json");
    let bytes = body_bytes(resp.body);
    let back = Sonic::<BTreeMap<String, i64>>::from_bytes(&bytes).unwrap().into_inner();
    assert_eq!(back, v);
}

#[test]
fn cbor_round_trip() {
    let v = sample_map();
    let resp = Cbor::new(v.clone()).into_response();
    assert_eq!(resp.status, 200);
    assert_eq!(resp.content_type, "application/cbor");
    let bytes = body_bytes(resp.body);
    let back = Cbor::<BTreeMap<String, i64>>::from_bytes(&bytes).unwrap().into_inner();
    assert_eq!(back, v);
}

#[test]
fn msgpack_round_trip() {
    let v = sample_map();
    let resp = MsgPack::new(v.clone()).into_response();
    assert_eq!(resp.status, 200);
    assert_eq!(resp.content_type, "application/msgpack");
    let bytes = body_bytes(resp.body);
    let back = MsgPack::<BTreeMap<String, i64>>::from_bytes(&bytes).unwrap().into_inner();
    assert_eq!(back, v);
}

#[test]
fn msgpack_one_decoder_accepts_both_encodings() {
    let v = ("a value".to_string(), 7i64);

    let named = MsgPack::new(v.clone()).into_response();
    assert_eq!(named.status, 200);
    let named_bytes = body_bytes(named.body);

    let raw = MsgPackRaw::new(v.clone()).into_response();
    assert_eq!(raw.status, 200);
    assert_eq!(raw.content_type, "application/msgpack");
    let raw_bytes = body_bytes(raw.body);

    let from_named =
        MsgPack::<(String, i64)>::from_bytes(&named_bytes).unwrap().into_inner();
    let from_raw = MsgPack::<(String, i64)>::from_bytes(&raw_bytes).unwrap().into_inner();
    assert_eq!(from_named, v);
    assert_eq!(from_raw, v);
}

#[test]
fn toml_round_trip() {
    let v = sample_map();
    let resp = Toml::new(v.clone()).into_response();
    assert_eq!(resp.status, 200);
    assert_eq!(resp.content_type, "application/toml");
    let bytes = body_bytes(resp.body);
    let back = Toml::<BTreeMap<String, i64>>::from_bytes(&bytes).unwrap().into_inner();
    assert_eq!(back, v);
}

#[test]
fn xml_round_trip() {
    let v: Range<i32> = 3..9;
    let resp = Xml::new(v.clone()).into_response();
    assert_eq!(resp.status, 200);
    assert_eq!(resp.content_type, "application/xml");
    let bytes = body_bytes(resp.body);
    let back = Xml::<Range<i32>>::from_bytes(&bytes).unwrap().into_inner();
    assert_eq!(back, v);
}

#[test]
fn yaml_round_trip() {
    let v = sample_map();
    let resp = Yaml::new(v.clone()).into_response();
    assert_eq!(resp.status, 200);
    assert_eq!(resp.content_type, "application/yaml");
    let bytes = body_bytes(resp.body);
    let back = Yaml::<BTreeMap<String, i64>>::from_bytes(&bytes).unwrap().into_inner();
    assert_eq!(back, v);
}

#[test]
fn json_rejects_bytes_that_are_not_text() {
    let r = Sonic::<BTreeMap<String, i64>>::from_bytes(b"\xff\xfe\x01");
    assert!(matches!(r, Err(Rejection::InvalidContentFormat(_))));
}

#[test]
fn toml_rejects_bytes_that_are_not_text() {
    let r = Toml::<BTreeMap<String, i64>>::from_bytes(b"\xff\xfe\x01");
    assert!(matches!(r, Err(Rejection::InvalidContentFormat(_))));
}

#[test]
fn decode_failures_are_invalid_content_format() {
    assert!(matches!(
        Cbor::<BTreeMap<String, i64>>::from_bytes(b""),
        Err(Rejection::InvalidContentFormat(_))
    ));
    assert!(matches!(
        MsgPack::<BTreeMap<String, i64>>::from_bytes(b"\xc1"),
        Err(Rejection::InvalidContentFormat(_))
    ));
    assert!(matches!(
        Xml::<Range<i32>>::from_bytes(b"<Range><start>oops"),
        Err(Rejection::InvalidContentFormat(_))
    ));
    assert!(matches!(
        Yaml::<BTreeMap<String, i64>>::from_bytes(b"- : -\n-"),
        Err(Rejection::InvalidContentFormat(_))
    ));
}

#[test]
fn encode_failure_is_a_plain_text_500() {
    // A TOML document must be a table, so a bare integer cannot be encoded.
    let resp = Toml::new(42i64).into_response();
    assert_eq!(resp.status, 500);
    assert_eq!(resp.content_type, "text/plain; charset=utf-8");
    match resp.body {
        ResponseBody::Text(t) => assert!(!t.is_empty()),
        ResponseBody::Bytes(_) => panic!("expected a plain-text error body"),
    }

    // XML cannot name a root tag for a bare string.
    let resp = Xml::new("no root".to_string()).into_response();
    assert_eq!(resp.status, 500);
    assert_eq!(resp.content_type, "text/plain; charset=utf-8");
}
