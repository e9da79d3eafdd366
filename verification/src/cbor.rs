//! CBOR, served as `application/cbor` and carried by the `ciborium` codec.

use crate::envelope::{body_or_reject, wrap_decoded, Envelope, Format};
use crate::rejection::{BodyError, Rejection};
use crate::response::{ok_response, text_response, ResponseBody, ResponseParts};
use vstd::prelude::*;

verus! {

/// The CBOR format.
#[derive(Debug)]
pub struct CborFmt;

impl Format for CborFmt {
    open spec fn spec_content_type() -> Seq<char> {
        "application/cbor"@
    }

    fn content_type() -> (r: &'static str) {
        "application/cbor"
    }
}

/// CBOR extractor / response: an envelope under `application/cbor`.
pub type Cbor<T> = Envelope<T, CborFmt>;

/// `ciborium::de::Error`, the CBOR decoder's error, declared so it can
/// stand in signatures; it is carried through, never inspected.
#[verifier::external_type_specification]
#[verifier::external_body]
#[verifier::reject_recursive_types(T)]
pub struct ExCiboriumDeError<T>(ciborium::de::Error<T>);

/// `ciborium::ser::Error`, the CBOR encoder's error, declared so it can
/// stand in signatures; it is carried through, never inspected.
#[verifier::external_type_specification]
#[verifier::external_body]
#[verifier::reject_recursive_types(T)]
pub struct ExCiboriumSerError<T>(ciborium::ser::Error<T>);

/// `std::io::Error`, the transport error `ciborium` wraps when it reads
/// from or writes to a buffer.
#[verifier::external_type_specification]
#[verifier::external_body]
pub struct ExIoError(std::io::Error);

/// The error `ciborium` reports for a byte slice that is not the CBOR
/// picture of a `T`.
pub type CborDeError = ciborium::de::Error<std::io::Error>;

/// Relies on `ciborium::de::from_reader` to decode CBOR bytes; CBOR is a
/// binary format, so the bytes are parsed directly.
#[verifier::external_body]
fn from_slice<T: serde::de::DeserializeOwned>(s: &[u8]) -> (r: Result<T, CborDeError>) {
    ciborium::de::from_reader(s)
}

/// Relies on `ciborium::ser::into_writer` to encode a value as CBOR bytes.
#[verifier::external_body]
fn to_vec<T: serde::Serialize>(value: &T) -> (r: Result<
    Vec<u8>,
    ciborium::ser::Error<std::io::Error>,
>) {
    let mut vec = Vec::with_capacity(128);
    match ciborium::ser::into_writer(value, &mut vec) {
        Ok(()) => Ok(vec),
        Err(e) => Err(e),
    }
}

impl<T: serde::de::DeserializeOwned> Envelope<T, CborFmt> {
    /// Decodes a buffered CBOR body. A failure is always the
    /// invalid-content-format rejection.
    pub fn from_bytes(bytes: &[u8]) -> (r: Result<Self, Rejection<CborDeError>>)
        ensures
            r matches Err(rej) ==> rej is InvalidContentFormat,
    {
        wrap_decoded(from_slice(bytes))
    }

    /// The body step of extraction: decodes the buffered body, or turns
    /// the host's body-read failure into the body-read rejection.
    pub fn from_body(body: Result<Vec<u8>, BodyError>) -> (r: Result<Self, Rejection<CborDeError>>)
        ensures
            body matches Err(e) ==> r matches Err(rej) && rej
                == Rejection::<CborDeError>::BytesRejection(e),
            body is Ok ==> (r matches Err(rej) ==> rej is InvalidContentFormat),
    {
        match body_or_reject(body) {
            Err(rej) => Err(rej),
            Ok(b) => Self::from_bytes(b.as_slice()),
        }
    }
}

impl<T: serde::Serialize> Envelope<T, CborFmt> {
    /// Encodes the payload as CBOR: on success, a 200 response whose body
    /// holds the encoded bytes under `application/cbor`; on an encode
    /// failure, a 500 response whose plain-text body reports the error.
    pub fn into_response(self) -> (r: ResponseParts)
        ensures
            r.status == 200 || r.status == 500,
            r.status == 200 ==> r.content_type@ == CborFmt::spec_content_type() && r.body matches
                ResponseBody::Bytes(_),
            r.status == 500 ==> r.content_type@ == crate::response::text_plain() && r.body matches
                ResponseBody::Text(_),
    {
        match to_vec(&self.value) {
            Ok(b) => ok_response(CborFmt::content_type(), b),
            Err(e) => text_response(500, e.to_string()),
        }
    }
}

} // verus!
