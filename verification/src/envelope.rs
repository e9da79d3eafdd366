//! The typed envelope: one value of type `T`, tagged at the type level with
//! the format `F` that carries it over HTTP, plus the format-independent
//! steps of the extraction and response pipelines.
//!
//! Extraction runs in two steps so that the content-type check strictly
//! precedes body consumption: [`require_content_type`] decides from the
//! headers alone whether the body is worth reading, and only then does the
//! host buffer the body and hand the outcome to a format's decoder.

use crate::headers::Headers;
use crate::rejection::{BodyError, Rejection};
use crate::spec_check_content_type;
use vstd::prelude::*;
use vstd::string::StringSliceAdditionalSpecFns;

verus! {

/// A serialization format: its associated content type.
pub trait Format {
    /// The content type the format is served under.
    spec fn spec_content_type() -> Seq<char>;

    /// The content type the format is served under.
    fn content_type() -> (r: &'static str)
        ensures
            r@ == Self::spec_content_type(),
    ;
}

/// One value of type `T`, to be decoded from or encoded into the body of
/// an HTTP message under format `F`'s content type.
#[derive(Debug)]
pub struct Envelope<T, F> {
    /// The payload.
    pub value: T,
    /// The format tag; it takes no room.
    pub format: core::marker::PhantomData<F>,
}

impl<T, F> Envelope<T, F> {
    /// Wraps a value; this never fails.
    pub fn new(value: T) -> (r: Self)
        ensures
            r.value == value,
    {
        Envelope { value, format: core::marker::PhantomData }
    }

    /// Consumes the envelope and yields the payload; this never fails.
    pub fn into_inner(self) -> (r: T)
        ensures
            r == self.value,
    {
        self.value
    }

    /// Borrows the payload.
    pub fn inner(&self) -> (r: &T)
        ensures
            r == &self.value,
    {
        &self.value
    }
}

impl<T, F> From<T> for Envelope<T, F> {
    fn from(value: T) -> (r: Self) {
        Envelope::new(value)
    }
}

impl<T, F> vstd::std_specs::convert::FromSpecImpl<T> for Envelope<T, F> {
    open spec fn obeys_from_spec() -> bool {
        true
    }

    open spec fn from_spec(value: T) -> Self {
        Envelope { value, format: core::marker::PhantomData }
    }
}

/// The header check that opens every extraction: `Ok` when the request
/// declares the expected content type, and the unsupported-media-type
/// rejection otherwise. The request body plays no part in it.
pub fn require_content_type<E>(headers: &Headers, expected: &'static str) -> (r: Result<
    (),
    Rejection<E>,
>)
    ensures
        r is Ok <==> spec_check_content_type(headers@, expected.spec_bytes()),
        r matches Err(rej) ==> rej == Rejection::<E>::UnsupportedMediaType(expected),
{
    if crate::check_content_type(headers, expected) {
        Ok(())
    } else {
        Err(Rejection::UnsupportedMediaType(expected))
    }
}

/// Passes a buffered body through, or turns the host's body-read failure
/// into the body-read rejection.
pub fn body_or_reject<E>(body: Result<Vec<u8>, BodyError>) -> (r: Result<Vec<u8>, Rejection<E>>)
    ensures
        body matches Ok(b) ==> r matches Ok(rb) && rb == b,
        body matches Err(e) ==> r matches Err(rej) && rej == Rejection::<E>::BytesRejection(e),
{
    match body {
        Ok(b) => Ok(b),
        Err(e) => Err(Rejection::BytesRejection(e)),
    }
}

/// Wraps a decoder's outcome: a decoded value becomes an envelope, and a
/// decode error becomes the invalid-content-format rejection.
pub fn wrap_decoded<T, E, F>(d: Result<T, E>) -> (r: Result<Envelope<T, F>, Rejection<E>>)
    ensures
        d matches Ok(v) ==> r matches Ok(env) && env.value == v,
        d matches Err(e) ==> r matches Err(rej) && rej == Rejection::<E>::InvalidContentFormat(e),
{
    match d {
        Ok(v) => Ok(Envelope::new(v)),
        Err(e) => Err(Rejection::InvalidContentFormat(e)),
    }
}

} // verus!
