//! TOML, served as `application/toml` and carried by the `toml` codec.

use crate::envelope::{body_or_reject, wrap_decoded, Envelope, Format};
use crate::rejection::{BodyError, Rejection};
use crate::response::{ok_response, text_response, ResponseBody, ResponseParts};
use vstd::prelude::*;
use vstd::utf8::valid_utf8;

verus! {

/// The TOML format.
#[derive(Debug)]
pub struct TomlFmt;

impl Format for TomlFmt {
    open spec fn spec_content_type() -> Seq<char> {
        "application/toml"@
    }

    fn content_type() -> (r: &'static str) {
        "application/toml"
    }
}

/// TOML extractor / response: an envelope under `application/toml`.
pub type Toml<T> = Envelope<T, TomlFmt>;

/// `toml::de::Error`, the TOML decoder's error, declared so it can stand
/// in signatures; it is carried through, never inspected.
#[verifier::external_type_specification]
#[verifier::external_body]
pub struct ExTomlDeError(::toml::de::Error);

/// `toml::ser::Error`, the TOML encoder's error, declared so it can stand
/// in signatures; it is carried through, never inspected.
#[verifier::external_type_specification]
#[verifier::external_body]
pub struct ExTomlSerError(::toml::ser::Error);

/// Relies on `toml::from_slice` to decode a TOML document; it checks the
/// bytes for valid UTF-8 itself and refuses a body that is not text.
#[verifier::external_body]
fn from_slice<T: serde::de::DeserializeOwned>(s: &[u8]) -> (r: Result<T, ::toml::de::Error>)
    ensures
        !valid_utf8(s@) ==> r is Err,
{
    ::toml::from_slice(s)
}

/// Relies on `toml::to_string` to encode a value as a TOML document; the
/// resulting bytes are UTF-8, as text of a `String` is.
#[verifier::external_body]
fn to_vec<T: serde::Serialize>(value: &T) -> (r: Result<Vec<u8>, ::toml::ser::Error>)
    ensures
        r matches Ok(b) ==> valid_utf8(b@),
{
    match ::toml::to_string(value) {
        Ok(s) => Ok(s.into_bytes()),
        Err(e) => Err(e),
    }
}

impl<T: serde::de::DeserializeOwned> Envelope<T, TomlFmt> {
    /// Decodes a buffered TOML body. A failure is always the
    /// invalid-content-format rejection, and a body that is not valid
    /// UTF-8 always fails.
    pub fn from_bytes(bytes: &[u8]) -> (r: Result<Self, Rejection<::toml::de::Error>>)
        ensures
            !valid_utf8(bytes@) ==> r is Err,
            r matches Err(rej) ==> rej is InvalidContentFormat,
    {
        wrap_decoded(from_slice(bytes))
    }

    /// The body step of extraction: decodes the buffered body, or turns
    /// the host's body-read failure into the body-read rejection.
    pub fn from_body(body: Result<Vec<u8>, BodyError>) -> (r: Result<
        Self,
        Rejection<::toml::de::Error>,
    >)
        ensures
            body matches Err(e) ==> r matches Err(rej) && rej == Rejection::<
                ::toml::de::Error,
            >::BytesRejection(e),
            body is Ok ==> (r matches Err(rej) ==> rej is InvalidContentFormat),
            body matches Ok(b) && !valid_utf8(b@) ==> r is Err,
    {
        match body_or_reject(body) {
            Err(rej) => Err(rej),
            Ok(b) => Self::from_bytes(b.as_slice()),
        }
    }
}

impl<T: serde::Serialize> Envelope<T, TomlFmt> {
    /// Encodes the payload as TOML: on success, a 200 response whose body
    /// holds the encoded document under `application/toml`; on an encode
    /// failure, a 500 response whose plain-text body reports the error.
    pub fn into_response(self) -> (r: ResponseParts)
        ensures
            r.status == 200 || r.status == 500,
            r.status == 200 ==> r.content_type@ == TomlFmt::spec_content_type() && r.body matches
                ResponseBody::Bytes(_),
            r.status == 500 ==> r.content_type@ == crate::response::text_plain() && r.body matches
                ResponseBody::Text(_),
    {
        match to_vec(&self.value) {
            Ok(b) => ok_response(TomlFmt::content_type(), b),
            Err(e) => text_response(500, e.to_string()),
        }
    }
}

} // verus!
