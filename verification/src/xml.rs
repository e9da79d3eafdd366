//! XML, served as `application/xml` and carried by the `quick_xml` codec.

use crate::envelope::{body_or_reject, wrap_decoded, Envelope, Format};
use crate::rejection::{BodyError, Rejection};
use crate::response::{ok_response, text_response, ResponseBody, ResponseParts};
use vstd::prelude::*;
use vstd::utf8::valid_utf8;

verus! {

/// The XML format.
#[derive(Debug)]
pub struct XmlFmt;

impl Format for XmlFmt {
    open spec fn spec_content_type() -> Seq<char> {
        "application/xml"@
    }

    fn content_type() -> (r: &'static str) {
        "application/xml"
    }
}

/// XML extractor / response: an envelope under `application/xml`.
pub type Xml<T> = Envelope<T, XmlFmt>;

/// `quick_xml::DeError`, the XML decoder's error, declared so it can
/// stand in signatures; it is carried through, never inspected.
#[verifier::external_type_specification]
#[verifier::external_body]
pub struct ExXmlDeError(quick_xml::DeError);

/// `quick_xml::SeError`, the XML encoder's error, declared so it can
/// stand in signatures; it is carried through, never inspected.
#[verifier::external_type_specification]
#[verifier::external_body]
pub struct ExXmlSeError(quick_xml::SeError);

/// Relies on `quick_xml::de::from_reader` to decode an XML document from
/// the buffered bytes.
#[verifier::external_body]
fn from_slice<T: serde::de::DeserializeOwned>(s: &[u8]) -> (r: Result<T, quick_xml::DeError>) {
    quick_xml::de::from_reader(s)
}

/// Relies on `quick_xml::se::to_string` to encode a value as an XML
/// document; the resulting bytes are UTF-8, as text of a `String` is.
#[verifier::external_body]
fn to_vec<T: serde::Serialize>(value: &T) -> (r: Result<Vec<u8>, quick_xml::SeError>)
    ensures
        r matches Ok(b) ==> valid_utf8(b@),
{
    match quick_xml::se::to_string(value) {
        Ok(s) => Ok(s.into_bytes()),
        Err(e) => Err(e),
    }
}

impl<T: serde::de::DeserializeOwned> Envelope<T, XmlFmt> {
    /// Decodes a buffered XML body. A failure is always the
    /// invalid-content-format rejection.
    pub fn from_bytes(bytes: &[u8]) -> (r: Result<Self, Rejection<quick_xml::DeError>>)
        ensures
            r matches Err(rej) ==> rej is InvalidContentFormat,
    {
        wrap_decoded(from_slice(bytes))
    }

    /// The body step of extraction: decodes the buffered body, or turns
    /// the host's body-read failure into the body-read rejection.
    pub fn from_body(body: Result<Vec<u8>, BodyError>) -> (r: Result<
        Self,
        Rejection<quick_xml::DeError>,
    >)
        ensures
            body matches Err(e) ==> r matches Err(rej) && rej == Rejection::<
                quick_xml::DeError,
            >::BytesRejection(e),
            body is Ok ==> (r matches Err(rej) ==> rej is InvalidContentFormat),
    {
        match body_or_reject(body) {
            Err(rej) => Err(rej),
            Ok(b) => Self::from_bytes(b.as_slice()),
        }
    }
}

impl<T: serde::Serialize> Envelope<T, XmlFmt> {
    /// Encodes the payload as XML: on success, a 200 response whose body
    /// holds the encoded document under `application/xml`; on an encode
    /// failure, a 500 response whose plain-text body reports the error.
    pub fn into_response(self) -> (r: ResponseParts)
        ensures
            r.status == 200 || r.status == 500,
            r.status == 200 ==> r.content_type@ == XmlFmt::spec_content_type() && r.body matches
                ResponseBody::Bytes(_),
            r.status == 500 ==> r.content_type@ == crate::response::text_plain() && r.body matches
                ResponseBody::Text(_),
    {
        match to_vec(&self.value) {
            Ok(b) => ok_response(XmlFmt::content_type(), b),
            Err(e) => text_response(500, e.to_string()),
        }
    }
}

} // verus!
