//! A host-neutral picture of an HTTP response: a status code, a
//! `Content-Type` header value, and a body.

use vstd::prelude::*;

verus! {

/// A response body: raw encoded bytes, or plain text for error reports.
pub enum ResponseBody {
    Bytes(Vec<u8>),
    Text(String),
}

/// What a response is made of, for the host layer to send.
pub struct ResponseParts {
    pub status: u16,
    pub content_type: &'static str,
    pub body: ResponseBody,
}

/// The content type of plain-text error bodies.
pub open spec fn text_plain() -> Seq<char> {
    "text/plain; charset=utf-8"@
}

/// A success response: status 200, the given content type, the encoded body.
pub fn ok_response(content_type: &'static str, body: Vec<u8>) -> (r: ResponseParts)
    ensures
        r.status == 200,
        r.content_type == content_type,
        r.body matches ResponseBody::Bytes(b) && b == body,
{
    ResponseParts { status: 200, content_type, body: ResponseBody::Bytes(body) }
}

/// A plain-text response under the given status.
pub fn text_response(status: u16, message: String) -> (r: ResponseParts)
    ensures
        r.status == status,
        r.content_type@ == text_plain(),
        r.body matches ResponseBody::Text(t) && t == message,
{
    ResponseParts {
        status,
        content_type: "text/plain; charset=utf-8",
        body: ResponseBody::Text(message),
    }
}

} // verus!
