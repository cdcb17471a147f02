//! The request pipeline: admission, fault injection, and the answers the
//! gateway builds from a fetched document.
//!
//! The upstream fetch itself is an outbound HTTPS call and lives in the
//! embedding; the pipeline decides everything around it. `begin_request`
//! yields a plan for one inbound request: reject it, fail it after a
//! delay, or fetch after a delay. `answer_quote` and `answer_currencies`
//! turn the fetch's result into the response the caller sees.

use vstd::prelude::*;

use crate::codes::upper_code;
use crate::codes::to_upper;
use crate::doc::JsonValue;
use crate::errors::detail_text;
use crate::errors::failure_of;
use crate::errors::fetch_kind;
use crate::errors::spec_fetch_kind;
use crate::errors::surfaced_as;
use crate::errors::Error;
use crate::errors::ErrorKind;
use crate::errors::FetchError;
use crate::fault::inject;
use crate::fault::FaultOutcome;
use crate::fault::COMPOUND_DELAY_MS;
use crate::fault::FAILURE_CUTOFF;
use crate::fault::SHORT_DELAY_MS;
use crate::limiter::AdmissionLimiter;
use crate::resolve::list_currencies;
use crate::resolve::resolve_rate;
use crate::resolve::spec_list_currencies;
use crate::resolve::spec_resolve_rate;

verus! {

/// One inbound quote request: the two currency codes, taken
/// case-insensitively.
#[derive(Debug)]
pub struct QuoteRequest {
    pub quote: Vec<u8>,
    pub base: Vec<u8>,
}

/// A successful answer: the reported quotation date, the rate exactly as
/// the document stores it (its 64-bit wire value), and both codes echoed
/// in uppercase.
#[derive(Debug)]
pub struct QuoteResponse {
    pub date: Vec<u8>,
    pub rate_bits: u64,
    pub quote: Vec<u8>,
    pub base: Vec<u8>,
}

/// What happens to one inbound request before any fetch: it is rejected
/// outright, failed on purpose after a delay (no fetch at all), or
/// forwarded upstream after a delay. Only `FetchAfter` reaches the
/// network.
#[derive(Debug)]
pub enum RequestPlan {
    /// Rejected by admission control; answered too-many-requests.
    Reject,
    /// Failed by the fault injector after the given delay, with its
    /// synthetic cause; the upstream is never contacted.
    FailAfter(u64, String),
    /// Admitted and passed: fetch the document after the given delay.
    FetchAfter(u64),
}

/// The plans the pipeline can produce at all: an injected failure's delay
/// stays inside the failure band, and a pre-fetch delay is zero or one of
/// the two fixed totals.
pub open spec fn plan_in_policy(p: RequestPlan) -> bool {
    match p {
        RequestPlan::Reject => true,
        RequestPlan::FailAfter(ms, cause) => ms < FAILURE_CUTOFF && cause@ == "simulated fault"@,
        RequestPlan::FetchAfter(ms) => ms == 0 || ms == SHORT_DELAY_MS || ms == COMPOUND_DELAY_MS,
    }
}

/// Combine the admission decision with a fault outcome: a rejected
/// request goes nowhere, an injected failure carries its delay and cause,
/// and every successful outcome becomes a fetch after its delay.
pub fn plan_request(admitted: bool, outcome: FaultOutcome) -> (r: RequestPlan)
    ensures
        !admitted ==> r == RequestPlan::Reject,
        admitted ==> match outcome {
            FaultOutcome::ImmediateSuccess => r == RequestPlan::FetchAfter(0u64),
            FaultOutcome::DelayedSuccess(ms) => r == RequestPlan::FetchAfter(ms),
            FaultOutcome::ExtraDelayedSuccess(ms) => r == RequestPlan::FetchAfter(ms),
            FaultOutcome::InjectedFailure(ms, cause) => r == RequestPlan::FailAfter(ms, cause),
        },
{
    if !admitted {
        return RequestPlan::Reject;
    }
    match outcome {
        FaultOutcome::ImmediateSuccess => RequestPlan::FetchAfter(0),
        FaultOutcome::DelayedSuccess(ms) => RequestPlan::FetchAfter(ms),
        FaultOutcome::ExtraDelayedSuccess(ms) => RequestPlan::FetchAfter(ms),
        FaultOutcome::InjectedFailure(ms, cause) => RequestPlan::FailAfter(ms, cause),
    }
}

/// Open one request against the shared limiter at clock reading
/// `now_ms`.
///
/// The limiter is consulted first: with no whole token available the
/// request is rejected and nothing else happens — no draw, no delay, no
/// fetch. An admitted request is then subjected to the fault injector,
/// unless it carries the bypass marker, in which case it goes straight to
/// the fetch with no delay.
pub fn begin_request(limiter: &mut AdmissionLimiter, now_ms: u64, bypass: bool) -> (r: RequestPlan)
    requires
        old(limiter).wf(),
    ensures
        final (limiter).wf(),
        final (limiter).rate_per_sec == old(limiter).rate_per_sec,
        final (limiter).burst == old(limiter).burst,
        !old(limiter).would_admit(now_ms as int) ==> r == RequestPlan::Reject,
        old(limiter).would_admit(now_ms as int) ==> final (limiter).millitokens == old(
            limiter,
        ).refilled_milli(now_ms as int) - 1000,
        !old(limiter).would_admit(now_ms as int) ==> final (limiter).millitokens == old(
            limiter,
        ).refilled_milli(now_ms as int),
        old(limiter).would_admit(now_ms as int) && bypass ==> r == RequestPlan::FetchAfter(0u64),
        old(limiter).would_admit(now_ms as int) ==> !(r is Reject),
        plan_in_policy(r),
{
    let admitted = limiter.try_admit(now_ms);
    if !admitted {
        return RequestPlan::Reject;
    }
    let outcome = inject(bypass);
    plan_request(true, outcome)
}

/// The failure kind a quote request ends with, given what the fetch and
/// then the resolver made of it; nothing, when it succeeds.
pub open spec fn spec_quote_failure(
    fetched: Result<JsonValue, FetchError>,
    base: Seq<u8>,
    quote: Seq<u8>,
) -> Option<ErrorKind> {
    match fetched {
        Err(e) => Some(spec_fetch_kind(e)),
        Ok(doc) => match spec_resolve_rate(doc, base, quote) {
            Err(k) => Some(k),
            Ok(_) => None,
        },
    }
}

/// The failure kind a catalog request ends with; nothing, when it
/// succeeds.
pub open spec fn spec_currencies_failure(fetched: Result<JsonValue, FetchError>, base: Seq<u8>) -> Option<
    ErrorKind,
> {
    match fetched {
        Err(e) => Some(spec_fetch_kind(e)),
        Ok(doc) => match spec_list_currencies(doc, base) {
            Err(k) => Some(k),
            Ok(_) => None,
        },
    }
}

/// Answer a quote request from the fetch's result.
///
/// On a well-formed document that carries both currencies the answer is
/// exactly the stored rate and the reported date, with both codes echoed
/// in uppercase whatever case they arrived in. Every failure — of the
/// fetch or of the document's shape — is surfaced per the taxonomy, an
/// internal one with its cause recorded for the logs.
pub fn answer_quote(fetched: Result<JsonValue, FetchError>, request: &QuoteRequest) -> (r: Result<
    QuoteResponse,
    Error,
>)
    ensures
        match r {
            Ok(resp) => {
                &&& spec_quote_failure(fetched, request.base@, request.quote@) is None
                &&& fetched matches Ok(doc) && spec_resolve_rate(doc, request.base@, request.quote@)
                    == Ok::<_, ErrorKind>((resp.date@, resp.rate_bits))
                &&& resp.quote@ == upper_code(request.quote@)
                &&& resp.base@ == upper_code(request.base@)
            },
            Err(e) => {
                &&& spec_quote_failure(fetched, request.base@, request.quote@) matches Some(k)
                    && surfaced_as(k, e) && (e matches Error::Internal(m) ==> m@ == detail_text(k))
            },
        },
{
    match fetched {
        Err(fe) => Err(failure_of(fetch_kind(fe))),
        Ok(doc) => match resolve_rate(&doc, &request.base, &request.quote) {
            Err(k) => Err(failure_of(k)),
            Ok(p) => Ok(
                QuoteResponse {
                    date: p.0,
                    rate_bits: p.1,
                    quote: to_upper(&request.quote),
                    base: to_upper(&request.base),
                },
            ),
        },
    }
}

/// The fixed reference base of the currency catalog: `usd`.
pub open spec fn usd_code() -> Seq<u8> {
    seq![117u8, 115u8, 100u8]
}

/// The reference base, as a byte string.
pub fn reference_base() -> (r: Vec<u8>)
    ensures
        r@ == usd_code(),
{
    let mut v: Vec<u8> = Vec::new();
    v.push(117);
    v.push(115);
    v.push(100);
    proof {
        assert(v@ =~= usd_code());
    }
    v
}

/// Answer a catalog request from the fetch's result: the codes known for
/// the fixed reference base, in document order. Failures are surfaced
/// exactly as for a quote request.
pub fn answer_currencies(fetched: Result<JsonValue, FetchError>) -> (r: Result<
    Vec<Vec<u8>>,
    Error,
>)
    ensures
        match r {
            Ok(keys) => {
                &&& spec_currencies_failure(fetched, usd_code()) is None
                &&& fetched matches Ok(doc) && spec_list_currencies(doc, usd_code()) == Ok::<
                    _,
                    ErrorKind,
                >(keys@.map_values(|k: Vec<u8>| k@))
            },
            Err(e) => {
                &&& spec_currencies_failure(fetched, usd_code()) matches Some(k) && surfaced_as(
                    k,
                    e,
                ) && (e matches Error::Internal(m) ==> m@ == detail_text(k))
            },
        },
{
    match fetched {
        Err(fe) => Err(failure_of(fetch_kind(fe))),
        Ok(doc) => {
            let base = reference_base();
            match list_currencies(&doc, &base) {
                Err(k) => Err(failure_of(k)),
                Ok(keys) => Ok(keys),
            }
        },
    }
}

} // verus!
