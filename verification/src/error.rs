//! The failures that an operation of this library can report.
use vstd::prelude::*;

verus! {

/// The transport's own error type. Nothing inside it is visible to proofs:
/// such a value is only carried from the transport to the caller.
#[verifier::external_type_specification]
#[verifier::external_body]
pub struct ExTransportError(reqwest::Error);

/// What can go wrong in one operation.
#[derive(Debug)]
pub enum SPError {
    /// The transport failed, or the response body could not be decoded.
    /// The transport's error is handed on as it came.
    ReqwestError(reqwest::Error),
    /// The exchange succeeded, but the envelope held no content.
    ContentMissingError,
    /// Any other condition, with a message for a human reader.
    UnspecifiedError(String),
}

/// The message of [`SPError::ContentMissingError`].
pub open spec fn content_missing_message() -> Seq<char> {
    "response is missing content"@
}

/// `reqwest::Error`'s `Display` text. Nothing is claimed of the text.
#[verifier::external_body]
fn transport_message(error: &reqwest::Error) -> (text: String) {
    error.to_string()
}

/// What the transport says of one of its own errors: whether it is a
/// failure to decode the body of a response. The answer is read off the
/// error's kind, so one error always gets one answer.
pub uninterp spec fn transport_says_decode(error: reqwest::Error) -> bool;

/// `reqwest::Error::is_decode`: the transport's answer for `error`.
#[verifier::external_body]
fn transport_is_decode(error: &reqwest::Error) -> (decode: bool)
    ensures
        decode == transport_says_decode(*error),
{
    error.is_decode()
}

impl From<reqwest::Error> for SPError {
    /// A failure of the transport, handed on as it came.
    fn from(error: reqwest::Error) -> (r: SPError) {
        SPError::ReqwestError(error)
    }
}

impl vstd::std_specs::convert::FromSpecImpl<reqwest::Error> for SPError {
    open spec fn obeys_from_spec() -> bool {
        true
    }

    open spec fn from_spec(error: reqwest::Error) -> SPError {
        SPError::ReqwestError(error)
    }
}

impl SPError {
    /// Whether `self` is a failure to decode a response body.
    pub open spec fn is_decode_failure(self) -> bool {
        self matches SPError::ReqwestError(e) && transport_says_decode(e)
    }

    /// Whether the failure is one of decoding a response body: a failure
    /// of the transport of which the transport says so. No other kind of
    /// failure is one.
    pub fn is_decode(&self) -> (decode: bool)
        ensures
            decode == self.is_decode_failure(),
    {
        match self {
            SPError::ReqwestError(e) => transport_is_decode(e),
            _ => false,
        }
    }

    /// A human-readable description of the failure.
    pub fn message(&self) -> (text: String)
        ensures
            *self is ContentMissingError ==> text@ == content_missing_message(),
            *self matches SPError::UnspecifiedError(m) ==> text@ == m@,
    {
        match self {
            SPError::ReqwestError(e) => transport_message(e),
            SPError::ContentMissingError => "response is missing content".to_owned(),
            SPError::UnspecifiedError(m) => m.clone(),
        }
    }
}

} // verus!
