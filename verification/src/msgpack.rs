//! MessagePack, served as `application/msgpack` and carried by the
//! `rmp_serde` codec.
//!
//! The format has two response modes sharing one decoder: the named mode
//! writes structs as maps keyed by field name, the raw mode writes them as
//! positional arrays. Both are served under the same content type.

use crate::envelope::{body_or_reject, wrap_decoded, Envelope, Format};
use crate::rejection::{BodyError, Rejection};
use crate::response::{ok_response, text_response, ResponseBody, ResponseParts};
use vstd::prelude::*;

verus! {

/// The MessagePack format, encoding structs with named fields.
#[derive(Debug)]
pub struct MsgPackFmt;

impl Format for MsgPackFmt {
    open spec fn spec_content_type() -> Seq<char> {
        "application/msgpack"@
    }

    fn content_type() -> (r: &'static str) {
        "application/msgpack"
    }
}

/// The MessagePack format, encoding structs as positional arrays.
#[derive(Debug)]
pub struct MsgPackRawFmt;

impl Format for MsgPackRawFmt {
    open spec fn spec_content_type() -> Seq<char> {
        "application/msgpack"@
    }

    fn content_type() -> (r: &'static str) {
        "application/msgpack"
    }
}

/// MessagePack extractor / response in the named-fields mode.
pub type MsgPack<T> = Envelope<T, MsgPackFmt>;

/// MessagePack extractor / response in the raw, positional mode.
pub type MsgPackRaw<T> = Envelope<T, MsgPackRawFmt>;

/// `rmp_serde::decode::Error`, the MessagePack decoder's error, declared
/// so it can stand in signatures; it is carried through, never inspected.
#[verifier::external_type_specification]
#[verifier::external_body]
pub struct ExRmpDecodeError(rmp_serde::decode::Error);

/// `rmp_serde::encode::Error`, the MessagePack encoder's error, declared
/// so it can stand in signatures; it is carried through, never inspected.
#[verifier::external_type_specification]
#[verifier::external_body]
pub struct ExRmpEncodeError(rmp_serde::encode::Error);

/// Relies on `rmp_serde::from_slice` to decode MessagePack bytes; it is a
/// binary format, so the bytes are parsed directly. Both encode modes are
/// decoded by this one function.
#[verifier::external_body]
fn from_slice<T: serde::de::DeserializeOwned>(s: &[u8]) -> (r: Result<
    T,
    rmp_serde::decode::Error,
>) {
    rmp_serde::from_slice(s)
}

/// Relies on `rmp_serde::to_vec_named` to encode a value with field names.
#[verifier::external_body]
fn to_vec_named<T: serde::Serialize>(value: &T) -> (r: Result<Vec<u8>, rmp_serde::encode::Error>) {
    rmp_serde::to_vec_named(value)
}

/// Relies on `rmp_serde::to_vec` to encode a value positionally.
#[verifier::external_body]
fn to_vec<T: serde::Serialize>(value: &T) -> (r: Result<Vec<u8>, rmp_serde::encode::Error>) {
    rmp_serde::to_vec(value)
}

impl<T: serde::de::DeserializeOwned> Envelope<T, MsgPackFmt> {
    /// Decodes a buffered MessagePack body. A failure is always the
    /// invalid-content-format rejection.
    pub fn from_bytes(bytes: &[u8]) -> (r: Result<Self, Rejection<rmp_serde::decode::Error>>)
        ensures
            r matches Err(rej) ==> rej is InvalidContentFormat,
    {
        wrap_decoded(from_slice(bytes))
    }

    /// The body step of extraction: decodes the buffered body, or turns
    /// the host's body-read failure into the body-read rejection.
    pub fn from_body(body: Result<Vec<u8>, BodyError>) -> (r: Result<
        Self,
        Rejection<rmp_serde::decode::Error>,
    >)
        ensures
            body matches Err(e) ==> r matches Err(rej) && rej == Rejection::<
                rmp_serde::decode::Error,
            >::BytesRejection(e),
            body is Ok ==> (r matches Err(rej) ==> rej is InvalidContentFormat),
    {
        match body_or_reject(body) {
            Err(rej) => Err(rej),
            Ok(b) => Self::from_bytes(b.as_slice()),
        }
    }
}

impl<T: serde::de::DeserializeOwned> Envelope<T, MsgPackRawFmt> {
    /// Decodes a buffered MessagePack body; the decoder is the one the
    /// named mode uses. A failure is always the invalid-content-format
    /// rejection.
    pub fn from_bytes(bytes: &[u8]) -> (r: Result<Self, Rejection<rmp_serde::decode::Error>>)
        ensures
            r matches Err(rej) ==> rej is InvalidContentFormat,
    {
        wrap_decoded(from_slice(bytes))
    }

    /// The body step of extraction: decodes the buffered body, or turns
    /// the host's body-read failure into the body-read rejection.
    pub fn from_body(body: Result<Vec<u8>, BodyError>) -> (r: Result<
        Self,
        Rejection<rmp_serde::decode::Error>,
    >)
        ensures
            body matches Err(e) ==> r matches Err(rej) && rej == Rejection::<
                rmp_serde::decode::Error,
            >::BytesRejection(e),
            body is Ok ==> (r matches Err(rej) ==> rej is InvalidContentFormat),
    {
        match body_or_reject(body) {
            Err(rej) => Err(rej),
            Ok(b) => Self::from_bytes(b.as_slice()),
        }
    }
}

impl<T: serde::Serialize> Envelope<T, MsgPackFmt> {
    /// Encodes the payload as MessagePack with named fields: on success, a
    /// 200 response under `application/msgpack`; on an encode failure, a
    /// 500 response whose plain-text body reports the error.
    pub fn into_response(self) -> (r: ResponseParts)
        ensures
            r.status == 200 || r.status == 500,
            r.status == 200 ==> r.content_type@ == MsgPackFmt::spec_content_type()
                && r.body matches ResponseBody::Bytes(_),
            r.status == 500 ==> r.content_type@ == crate::response::text_plain() && r.body matches
                ResponseBody::Text(_),
    {
        match to_vec_named(&self.value) {
            Ok(b) => ok_response(MsgPackFmt::content_type(), b),
            Err(e) => text_response(500, e.to_string()),
        }
    }
}

impl<T: serde::Serialize> Envelope<T, MsgPackRawFmt> {
    /// Encodes the payload as positional MessagePack: on success, a 200
    /// response under `application/msgpack`; on an encode failure, a 500
    /// response whose plain-text body reports the error.
    pub fn into_response(self) -> (r: ResponseParts)
        ensures
            r.status == 200 || r.status == 500,
            r.status == 200 ==> r.content_type@ == MsgPackRawFmt::spec_content_type()
                && r.body matches ResponseBody::Bytes(_),
            r.status == 500 ==> r.content_type@ == crate::response::text_plain() && r.body matches
                ResponseBody::Text(_),
    {
        match to_vec(&self.value) {
            Ok(b) => ok_response(MsgPackRawFmt::content_type(), b),
            Err(e) => text_response(500, e.to_string()),
        }
    }
}

} // verus!
