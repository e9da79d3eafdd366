//! YAML, served as `application/yaml` and carried by the `serde_yaml`
//! codec.

use crate::envelope::{body_or_reject, wrap_decoded, Envelope, Format};
use crate::rejection::{BodyError, Rejection};
use crate::response::{ok_response, text_response, ResponseBody, ResponseParts};
use vstd::prelude::*;
use vstd::utf8::valid_utf8;

verus! {

/// The YAML format.
#[derive(Debug)]
pub struct YamlFmt;

impl Format for YamlFmt {
    open spec fn spec_content_type() -> Seq<char> {
        "application/yaml"@
    }

    fn content_type() -> (r: &'static str) {
        "application/yaml"
    }
}

/// YAML extractor / response: an envelope under `application/yaml`.
pub type Yaml<T> = Envelope<T, YamlFmt>;

/// `serde_yaml::Error`, the YAML codec's error, declared so it can stand
/// in signatures; it is carried through, never inspected.
#[verifier::external_type_specification]
#[verifier::external_body]
pub struct ExYamlError(serde_yaml::Error);

/// Relies on `serde_yaml::from_slice` to decode a YAML document from the
/// buffered bytes.
#[verifier::external_body]
fn from_slice<T: serde::de::DeserializeOwned>(s: &[u8]) -> (r: Result<T, serde_yaml::Error>) {
    serde_yaml::from_slice(s)
}

/// Relies on `serde_yaml::to_string` to encode a value as a YAML
/// document; the resulting bytes are UTF-8, as text of a `String` is.
#[verifier::external_body]
fn to_vec<T: serde::Serialize>(value: &T) -> (r: Result<Vec<u8>, serde_yaml::Error>)
    ensures
        r matches Ok(b) ==> valid_utf8(b@),
{
    match serde_yaml::to_string(value) {
        Ok(s) => Ok(s.into_bytes()),
        Err(e) => Err(e),
    }
}

impl<T: serde::de::DeserializeOwned> Envelope<T, YamlFmt> {
    /// Decodes a buffered YAML body. A failure is always the
    /// invalid-content-format rejection.
    pub fn from_bytes(bytes: &[u8]) -> (r: Result<Self, Rejection<serde_yaml::Error>>)
        ensures
            r matches Err(rej) ==> rej is InvalidContentFormat,
    {
        wrap_decoded(from_slice(bytes))
    }

    /// The body step of extraction: decodes the buffered body, or turns
    /// the host's body-read failure into the body-read rejection.
    pub fn from_body(body: Result<Vec<u8>, BodyError>) -> (r: Result<
        Self,
        Rejection<serde_yaml::Error>,
    >)
        ensures
            body matches Err(e) ==> r matches Err(rej) && rej == Rejection::<
                serde_yaml::Error,
            >::BytesRejection(e),
            body is Ok ==> (r matches Err(rej) ==> rej is InvalidContentFormat),
    {
        match body_or_reject(body) {
            Err(rej) => Err(rej),
            Ok(b) => Self::from_bytes(b.as_slice()),
        }
    }
}

impl<T: serde::Serialize> Envelope<T, YamlFmt> {
    /// Encodes the payload as YAML: on success, a 200 response whose body
    /// holds the encoded document under `application/yaml`; on an encode
    /// failure, a 500 response whose plain-text body reports the error.
    pub fn into_response(self) -> (r: ResponseParts)
        ensures
            r.status == 200 || r.status == 500,
            r.status == 200 ==> r.content_type@ == YamlFmt::spec_content_type() && r.body matches
                ResponseBody::Bytes(_),
            r.status == 500 ==> r.content_type@ == crate::response::text_plain() && r.body matches
                ResponseBody::Text(_),
    {
        match to_vec(&self.value) {
            Ok(b) => ok_response(YamlFmt::content_type(), b),
            Err(e) => text_response(500, e.to_string()),
        }
    }
}

} // verus!
