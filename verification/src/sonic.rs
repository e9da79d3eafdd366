//! JSON, served as `application/json` and carried by the `sonic_rs` codec.

use crate::envelope::{body_or_reject, wrap_decoded, Envelope, Format};
use crate::rejection::{BodyError, Rejection};
use crate::response::{ok_response, text_response, ResponseBody, ResponseParts};
use vstd::prelude::*;
use vstd::utf8::valid_utf8;

verus! {

/// The JSON format.
#[derive(Debug)]
pub struct JsonFmt;

impl Format for JsonFmt {
    open spec fn spec_content_type() -> Seq<char> {
        "application/json"@
    }

    fn content_type() -> (r: &'static str) {
        "application/json"
    }
}

/// JSON extractor / response: an envelope under `application/json`.
pub type Sonic<T> = Envelope<T, JsonFmt>;

/// `sonic_rs::Error`, the JSON codec's error, declared so it can stand
/// in signatures; it is carried through, never inspected.
#[verifier::external_type_specification]
#[verifier::external_body]
pub struct ExSonicError(sonic_rs::Error);

/// Relies on `sonic_rs::from_str` to decode JSON text, after
/// `std::str::from_utf8` has checked the bytes: a body that is not valid
/// UTF-8 is refused before the parser runs.
#[verifier::external_body]
fn from_slice<T: serde::de::DeserializeOwned>(s: &[u8]) -> (r: Result<T, sonic_rs::Error>)
    ensures
        !valid_utf8(s@) ==> r is Err,
{
    let src = match std::str::from_utf8(s) {
        Ok(src) => src,
        Err(e) => return Err(<sonic_rs::Error as serde::de::Error>::custom(e)),
    };
    sonic_rs::from_str(src)
}

/// Relies on `sonic_rs::to_string` to encode a value as JSON text; the
/// resulting bytes are UTF-8, as text of a `String` is.
#[verifier::external_body]
fn to_vec<T: serde::Serialize>(value: &T) -> (r: Result<Vec<u8>, sonic_rs::Error>)
    ensures
        r matches Ok(b) ==> valid_utf8(b@),
{
    match sonic_rs::to_string(value) {
        Ok(s) => Ok(s.into_bytes()),
        Err(e) => Err(e),
    }
}

impl<T: serde::de::DeserializeOwned> Envelope<T, JsonFmt> {
    /// Decodes a buffered JSON body. A failure is always the
    /// invalid-content-format rejection, and a body that is not valid
    /// UTF-8 always fails.
    pub fn from_bytes(bytes: &[u8]) -> (r: Result<Self, Rejection<sonic_rs::Error>>)
        ensures
            !valid_utf8(bytes@) ==> r is Err,
            r matches Err(rej) ==> rej is InvalidContentFormat,
    {
        wrap_decoded(from_slice(bytes))
    }

    /// The body step of extraction: decodes the buffered body, or turns
    /// the host's body-read failure into the body-read rejection.
    pub fn from_body(body: Result<Vec<u8>, BodyError>) -> (r: Result<
        Self,
        Rejection<sonic_rs::Error>,
    >)
        ensures
            body matches Err(e) ==> r matches Err(rej) && rej
                == Rejection::<sonic_rs::Error>::BytesRejection(e),
            body is Ok ==> (r matches Err(rej) ==> rej is InvalidContentFormat),
            body matches Ok(b) && !valid_utf8(b@) ==> r is Err,
    {
        match body_or_reject(body) {
            Err(rej) => Err(rej),
            Ok(b) => Self::from_bytes(b.as_slice()),
        }
    }
}

impl<T: serde::Serialize> Envelope<T, JsonFmt> {
    /// Encodes the payload as JSON: on success, a 200 response whose body
    /// holds the encoded bytes under `application/json`; on an encode
    /// failure, a 500 response whose plain-text body reports the error.
    pub fn into_response(self) -> (r: ResponseParts)
        ensures
            r.status == 200 || r.status == 500,
            r.status == 200 ==> r.content_type@ == JsonFmt::spec_content_type() && r.body matches
                ResponseBody::Bytes(_),
            r.status == 500 ==> r.content_type@ == crate::response::text_plain() && r.body matches
                ResponseBody::Text(_),
    {
        match to_vec(&self.value) {
            Ok(b) => ok_response(JsonFmt::content_type(), b),
            Err(e) => text_response(500, e.to_string()),
        }
    }
}

} // verus!
