//! Content-type based request and response codecs for an HTTP service.
//!
//! The crate checks a request's `Content-Type` header against the media type
//! a codec expects, decodes the request body into a typed value, and encodes
//! typed values back into response bodies carrying the matching header.

pub mod cbor;
pub mod envelope;
pub mod headers;
pub mod media_type;
pub mod msgpack;
pub mod rejection;
pub mod response;
pub mod sonic;
pub mod toml;
pub mod xml;
pub mod yaml;

pub use cbor::Cbor;
pub use envelope::Envelope;
pub use msgpack::{MsgPack, MsgPackRaw};
pub use rejection::Rejection;
pub use sonic::Sonic;
pub use toml::Toml;
pub use xml::Xml;
pub use yaml::Yaml;

use crate::headers::{content_type_name, first_value, Headers};
use crate::media_type::{media_type_matches, spec_media_type_matches};
use vstd::prelude::*;
use vstd::string::StringSliceAdditionalSpecFns;

verus! {

/// True when `h` carries a `Content-Type` value that names the media type
/// `expected`, parameters and ASCII case aside.
pub open spec fn spec_check_content_type(h: Seq<(Seq<u8>, Seq<u8>)>, expected: Seq<u8>) -> bool {
    match first_value(h, content_type_name()) {
        Some(v) => spec_media_type_matches(v, expected),
        None => false,
    }
}

/// Checks whether the `Content-Type` header in `headers` names the expected
/// media type.
///
/// The first `Content-Type` value is consulted, whatever the case of the
/// header name. It matches when it parses as a media type whose primary type
/// and subtype equal those of `expected`, ASCII-case-insensitively; any
/// parameters, such as `; charset=utf-8`, are ignored. A missing header, a
/// value that is not a media type, and a value that is not ASCII text all
/// fail to match.
pub fn check_content_type(headers: &Headers, expected_content_type: &str) -> (r: bool)
    ensures
        r == spec_check_content_type(headers@, expected_content_type.spec_bytes()),
{
    match headers.content_type_value() {
        Some(v) => media_type_matches(v.as_slice(), expected_content_type.as_bytes()),
        None => false,
    }
}

/// Without a `Content-Type` header there is no match, whatever content
/// type was expected.
pub proof fn lemma_missing_content_type_never_matches(
    h: Seq<(Seq<u8>, Seq<u8>)>,
    expected: Seq<u8>,
)
    requires
        first_value(h, content_type_name()) is None,
    ensures
        !spec_check_content_type(h, expected),
{
}

/// Parameters are ignored: headers whose `Content-Type` value is the
/// expected bare media type followed by any well-formed parameter list —
/// `; charset=utf-8`, say — pass the check for that media type.
pub proof fn lemma_check_ignores_parameters(
    h: Seq<(Seq<u8>, Seq<u8>)>,
    expected: Seq<u8>,
    params: Seq<u8>,
)
    requires
        first_value(h, content_type_name()) == Some(expected + params),
        crate::media_type::is_bare_media_type(expected),
        crate::media_type::params_ok(params, 0),
    ensures
        spec_check_content_type(h, expected),
{
    crate::media_type::lemma_parameters_ignored(expected, params);
}

/// Headers whose `Content-Type` value is a well-formed media type naming a
/// different primary type/subtype pair than the expected one fail the
/// check.
pub proof fn lemma_check_rejects_other_media_type(
    h: Seq<(Seq<u8>, Seq<u8>)>,
    expected: Seq<u8>,
    value: Seq<u8>,
)
    requires
        first_value(h, content_type_name()) == Some(value),
        crate::media_type::spec_parse_essence(value) is Some,
        crate::media_type::spec_parse_essence(value) != crate::media_type::spec_parse_essence(
            expected,
        ),
    ensures
        !spec_check_content_type(h, expected),
{
}

} // verus!
