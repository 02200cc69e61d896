//! Failures of API calls.
use vstd::prelude::*;
use crate::data::PiHoleError;
use crate::json::json_error_text;

verus! {

#[verifier::external_type_specification]
#[verifier::external_body]
pub struct ExReqwestError(reqwest::Error);

/// Why a response body could not be read as an expected shape.
#[derive(Debug)]
pub enum DecodeFailure {
    /// The body is not valid JSON; the parser's message.
    Syntax(String),
    /// The body is valid JSON of another shape than the one named.
    Mismatch(String),
}

/// A failed API call.
#[derive(Debug)]
pub enum PiHoleApiError {
    /// An authenticated call was attempted without a session; nothing was sent.
    AuthenticationRequired,
    /// The appliance answered with its structured error.
    HttpApiError(PiHoleError),
    /// The request could not be carried out by the transport.
    ReqwestError(reqwest::Error),
    /// A reply without content did not fit the expected shape.
    SerdeJsonError(DecodeFailure),
    /// The body matched neither the expected shape (first) nor the error shape (second).
    SerdeJsonBiError(DecodeFailure, DecodeFailure),
}

/// Relies on reqwest::Error's `Display`: the error's message.
#[verifier::external_body]
fn transport_error_text(e: &reqwest::Error) -> String {
    e.to_string()
}

/// The message for a decode failure.
pub open spec fn failure_text(f: DecodeFailure) -> Seq<char> {
    match f {
        DecodeFailure::Syntax(m) => m@,
        DecodeFailure::Mismatch(expected) => "unexpected shape of the response body, expected "@
            + expected@,
    }
}

impl DecodeFailure {
    /// A message for the failure.
    pub fn describe(&self) -> (r: String)
        ensures
            r@ == failure_text(*self),
    {
        match self {
            DecodeFailure::Syntax(m) => m.clone(),
            DecodeFailure::Mismatch(expected) => {
                let mut s = String::from_str("unexpected shape of the response body, expected ");
                s.append(expected.as_str());
                s
            },
        }
    }
}

impl PiHoleApiError {
    /// A message for the failure.
    pub fn describe(&self) -> (r: String)
        ensures
            self is AuthenticationRequired ==> r@ == "Unauthorized: Authentication required."@,
            self matches PiHoleApiError::HttpApiError(e) ==> r@ == "PiHole API error: (key: "@
                + e.error.key@ + ", message: "@ + e.error.message@ + ")"@,
            self is ReqwestError ==> exists|t: Seq<char>| r@ == "Reqwest error: "@ + t,
            self matches PiHoleApiError::SerdeJsonError(f) ==> r@ == "serde_json error: "@
                + failure_text(*f),
            self matches PiHoleApiError::SerdeJsonBiError(outer, inner) ==> r@
                == "serde_json error: (outer: "@ + failure_text(*outer) + ", inner: "@
                + failure_text(*inner) + ")"@,
    {
        match self {
            PiHoleApiError::AuthenticationRequired => String::from_str(
                "Unauthorized: Authentication required.",
            ),
            PiHoleApiError::HttpApiError(e) => {
                let mut s = String::from_str("PiHole API error: (key: ");
                s.append(e.error.key.as_str());
                s.append(", message: ");
                s.append(e.error.message.as_str());
                s.append(")");
                s
            },
            PiHoleApiError::ReqwestError(e) => {
                let mut s = String::from_str("Reqwest error: ");
                let t = transport_error_text(e);
                s.append(t.as_str());
                s
            },
            PiHoleApiError::SerdeJsonError(f) => {
                let mut s = String::from_str("serde_json error: ");
                let t = f.describe();
                s.append(t.as_str());
                s
            },
            PiHoleApiError::SerdeJsonBiError(outer, inner) => {
                let mut s = String::from_str("serde_json error: (outer: ");
                let t = outer.describe();
                s.append(t.as_str());
                s.append(", inner: ");
                let u = inner.describe();
                s.append(u.as_str());
                s.append(")");
                s
            },
        }
    }
}

impl DecodeFailure {
    /// The failure for a body that the JSON parser refused.
    pub fn from_syntax(e: &serde_json::Error) -> (r: DecodeFailure)
        ensures
            r is Syntax,
    {
        DecodeFailure::Syntax(json_error_text(e))
    }
}

impl From<PiHoleError> for PiHoleApiError {
    fn from(err: PiHoleError) -> (r: PiHoleApiError) {
        PiHoleApiError::HttpApiError(err)
    }
}

impl vstd::std_specs::convert::FromSpecImpl<PiHoleError> for PiHoleApiError {
    open spec fn obeys_from_spec() -> bool {
        true
    }

    open spec fn from_spec(v: PiHoleError) -> PiHoleApiError {
        PiHoleApiError::HttpApiError(v)
    }
}

impl From<reqwest::Error> for PiHoleApiError {
    fn from(err: reqwest::Error) -> (r: PiHoleApiError) {
        PiHoleApiError::ReqwestError(err)
    }
}

impl vstd::std_specs::convert::FromSpecImpl<reqwest::Error> for PiHoleApiError {
    open spec fn obeys_from_spec() -> bool {
        true
    }

    open spec fn from_spec(v: reqwest::Error) -> PiHoleApiError {
        PiHoleApiError::ReqwestError(v)
    }
}

} // verus!
