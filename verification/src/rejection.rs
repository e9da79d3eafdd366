//! Why an inbound request was turned away, and the response that says so.
//!
//! There are three kinds of rejection, uniform across all formats: the
//! declared content type does not match (HTTP 415), the body could not be
//! buffered (the status the host body reader assigns, a bad-request status
//! in the common case), and the body could not be decoded into the target
//! shape (HTTP 422).

use crate::response::{text_response, ResponseBody, ResponseParts};
use vstd::prelude::*;
use vstd::string::StringExecFns;

verus! {

/// A failure while buffering the request body, as the host reports it:
/// the status it assigns and its message.
#[derive(Debug)]
pub struct BodyError {
    pub status: u16,
    pub message: String,
}

/// The rejection of one inbound request. `E` is the decode error type of
/// the format at hand, kept whole for diagnostic fidelity.
#[derive(Debug)]
pub enum Rejection<E> {
    /// The request's `Content-Type` was missing or named another media
    /// type; carries the expected content type.
    UnsupportedMediaType(&'static str),
    /// The request body could not be read.
    BytesRejection(BodyError),
    /// The body was read but was not valid for the format, or did not fit
    /// the target shape; carries the decoder's error.
    InvalidContentFormat(E),
}

/// The text that introduces an unsupported-media-type report.
pub open spec fn unsupported_prefix() -> Seq<char> {
    "Unsupported Media Type. The server expects requests with 'Content-Type: "@
}

/// The text that closes an unsupported-media-type report.
pub open spec fn unsupported_suffix() -> Seq<char> {
    "'."@
}

/// The text that introduces a decode-failure report.
pub open spec fn invalid_prefix() -> Seq<char> {
    "Invalid content format: "@
}

impl<E> Rejection<E> {
    /// The HTTP status a rejection answers with.
    pub open spec fn spec_status(self) -> u16 {
        match self {
            Rejection::UnsupportedMediaType(_) => 415,
            Rejection::BytesRejection(b) => b.status,
            Rejection::InvalidContentFormat(_) => 422,
        }
    }

    /// The HTTP status of this rejection: 415 for a content-type mismatch,
    /// 422 for a decode failure, and the host's own status for a body that
    /// could not be read.
    pub fn status(&self) -> (r: u16)
        ensures
            r == self.spec_status(),
    {
        match self {
            Rejection::UnsupportedMediaType(_) => 415,
            Rejection::BytesRejection(b) => b.status,
            Rejection::InvalidContentFormat(_) => 422,
        }
    }

    /// The response a rejection turns into: its status, and a plain-text
    /// body that names the expected content type, repeats the host's
    /// body-read message, or carries the decoder's own report.
    pub fn into_response(self) -> (r: ResponseParts) where E: core::fmt::Display
        ensures
            r.status == self.spec_status(),
            r.content_type@ == crate::response::text_plain(),
            self matches Rejection::UnsupportedMediaType(expected) ==> r.body matches
                ResponseBody::Text(t) && t@ == unsupported_prefix() + expected@
                + unsupported_suffix(),
            self matches Rejection::BytesRejection(b) ==> r.body matches ResponseBody::Text(t)
                && t@ == b.message@,
            self matches Rejection::InvalidContentFormat(_) ==> r.body matches ResponseBody::Text(
                t,
            ) && invalid_prefix().is_prefix_of(t@),
    {
        match self {
            Rejection::UnsupportedMediaType(expected) => {
                let text = String::from_str(
                    "Unsupported Media Type. The server expects requests with 'Content-Type: ",
                ).concat(expected).concat("'.");
                text_response(415, text)
            },
            Rejection::BytesRejection(b) => text_response(b.status, b.message),
            Rejection::InvalidContentFormat(e) => {
                let detail = e.to_string();
                let text = String::from_str("Invalid content format: ").concat(detail.as_str());
                proof {
                    assert(invalid_prefix().is_prefix_of(text@));
                }
                text_response(422, text)
            },
        }
    }
}

} // verus!
