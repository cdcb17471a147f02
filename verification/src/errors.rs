//! Failure taxonomy and its externally observable mapping.
//!
//! Internally a failure is one of seven kinds; a caller only ever sees one
//! of three outcomes: too-many-requests, not-found, or an opaque internal
//! error whose detail stays in server-side logs and is never put in a
//! response body.

use vstd::prelude::*;

verus! {

/// The internal failure kinds of the pipeline.
#[derive(Clone, Copy, PartialEq, Eq, Structural, Debug)]
pub enum ErrorKind {
    /// The admission limiter had no token for this request.
    AdmissionRejected,
    /// The upstream provider could not be reached at the transport level.
    Unreachable,
    /// The upstream answered with something other than a JSON object.
    BadUpstreamShape,
    /// The document has no object member for the base currency.
    BaseNotFound,
    /// The base currency's table has no member for the quote currency.
    QuoteNotFound,
    /// The quote currency's member exists but is not a number.
    BadNumber,
    /// The fault injector failed the request on purpose.
    InjectedFailure,
}

/// How an upstream fetch can fail: the provider could not be reached at
/// the transport level, or it answered with a body that is not a JSON
/// object.
#[derive(Clone, Copy, PartialEq, Eq, Structural, Debug)]
pub enum FetchError {
    Unreachable,
    BadShape,
}

/// The failure kind of each fetch error.
pub open spec fn spec_fetch_kind(e: FetchError) -> ErrorKind {
    match e {
        FetchError::Unreachable => ErrorKind::Unreachable,
        FetchError::BadShape => ErrorKind::BadUpstreamShape,
    }
}

/// Classify a fetch error.
pub fn fetch_kind(e: FetchError) -> (k: ErrorKind)
    ensures
        k == spec_fetch_kind(e),
{
    match e {
        FetchError::Unreachable => ErrorKind::Unreachable,
        FetchError::BadShape => ErrorKind::BadUpstreamShape,
    }
}

/// The externally observable outcome of a failed request. The `Internal`
/// detail is for server-side logs only; a response body never carries it.
#[derive(Debug)]
pub enum Error {
    NotFound,
    TooManyRequests,
    Internal(String),
}

/// The outcome that each internal failure kind is surfaced as:
/// admission rejection becomes too-many-requests; an unreachable provider
/// and an absent quote currency become not-found, since both may reflect
/// legitimately absent data; every other kind becomes an opaque internal
/// error that keeps `detail` for the logs.
pub open spec fn spec_external(kind: ErrorKind, detail: String) -> Error {
    match kind {
        ErrorKind::AdmissionRejected => Error::TooManyRequests,
        ErrorKind::Unreachable => Error::NotFound,
        ErrorKind::QuoteNotFound => Error::NotFound,
        ErrorKind::BadUpstreamShape => Error::Internal(detail),
        ErrorKind::BaseNotFound => Error::Internal(detail),
        ErrorKind::BadNumber => Error::Internal(detail),
        ErrorKind::InjectedFailure => Error::Internal(detail),
    }
}

/// Surface an internal failure kind as its external outcome.
pub fn external_error(kind: ErrorKind, detail: String) -> (e: Error)
    ensures
        e == spec_external(kind, detail),
{
    match kind {
        ErrorKind::AdmissionRejected => Error::TooManyRequests,
        ErrorKind::Unreachable => Error::NotFound,
        ErrorKind::QuoteNotFound => Error::NotFound,
        _ => Error::Internal(detail),
    }
}

/// Whether `e` is the outcome that surfaces the failure kind `k`:
/// too-many-requests for an admission rejection, not-found for an
/// unreachable provider or an absent quote currency, an opaque internal
/// error for everything else.
pub open spec fn surfaced_as(k: ErrorKind, e: Error) -> bool {
    match k {
        ErrorKind::AdmissionRejected => e == Error::TooManyRequests,
        ErrorKind::Unreachable => e == Error::NotFound,
        ErrorKind::QuoteNotFound => e == Error::NotFound,
        _ => e is Internal,
    }
}

/// The cause string an internal error records for each failure kind.
pub open spec fn detail_text(k: ErrorKind) -> Seq<char> {
    match k {
        ErrorKind::AdmissionRejected => "admission rejected"@,
        ErrorKind::Unreachable => "upstream unreachable"@,
        ErrorKind::BadUpstreamShape => "failed to get object from forex results"@,
        ErrorKind::BaseNotFound => "could not find base in quotes"@,
        ErrorKind::QuoteNotFound => "could not find quote in quotes"@,
        ErrorKind::BadNumber => "could not convert rate quote to number"@,
        ErrorKind::InjectedFailure => "simulated fault"@,
    }
}

/// Surface a failure kind, recording its cause string where the outcome
/// is internal.
pub fn failure_of(k: ErrorKind) -> (e: Error)
    ensures
        surfaced_as(k, e),
        e matches Error::Internal(m) ==> m@ == detail_text(k),
{
    match k {
        ErrorKind::AdmissionRejected => Error::TooManyRequests,
        ErrorKind::Unreachable => Error::NotFound,
        ErrorKind::QuoteNotFound => Error::NotFound,
        ErrorKind::BadUpstreamShape => Error::Internal(
            "failed to get object from forex results".to_owned(),
        ),
        ErrorKind::BaseNotFound => Error::Internal("could not find base in quotes".to_owned()),
        ErrorKind::BadNumber => Error::Internal(
            "could not convert rate quote to number".to_owned(),
        ),
        ErrorKind::InjectedFailure => Error::Internal("simulated fault".to_owned()),
    }
}

/// An opaque internal error around a human-readable cause.
pub fn internal_error(msg: String) -> (e: Error)
    ensures
        e == Error::Internal(msg),
{
    Error::Internal(msg)
}

impl Error {
    /// The HTTP status this outcome answers with: 429 for an admission
    /// rejection, 404 for not-found, 500 for an internal error.
    pub fn status_code(&self) -> (s: u16)
        ensures
            s == self.spec_status_code(),
    {
        match self {
            Error::NotFound => 404,
            Error::TooManyRequests => 429,
            Error::Internal(_) => 500,
        }
    }

    /// The status of each outcome.
    pub open spec fn spec_status_code(self) -> u16 {
        match self {
            Error::NotFound => 404,
            Error::TooManyRequests => 429,
            Error::Internal(_) => 500,
        }
    }

    /// The detail kept for server-side logging: present exactly on the
    /// internal-error outcome, which answers with an empty body.
    pub fn log_detail<'a>(&'a self) -> (r: Option<&'a String>)
        ensures
            match r {
                Some(detail) => self == Error::Internal(*detail),
                None => !(self is Internal),
            },
    {
        match self {
            Error::Internal(detail) => Some(detail),
            _ => None,
        }
    }
}

} // verus!
