//! Randomized fault injection.
//!
//! Each admitted request draws one uniform value and is then failed,
//! delayed, or passed through untouched. The draw is an integer `d` below
//! `DRAW_SCALE`, standing for the probability value `d / DRAW_SCALE`.
//!
//! The policy's bands overlap on purpose: every draw below `SHORT_CUTOFF`
//! (other than an injected failure) incurs the short delay, and a draw
//! below `LONG_CUTOFF` additionally incurs the long delay, the two served
//! in sequence. The outcome for that overlap carries the compounded total.
//! This layered design is deliberate and is kept as it is.

use vstd::prelude::*;

verus! {

/// Number of equally likely draw values; a draw `d` stands for the
/// probability value `d / DRAW_SCALE`.
pub const DRAW_SCALE: u64 = 10000;

/// Draws below this fail outright: the failure band `[0, 0.15)`.
pub const FAILURE_CUTOFF: u64 = 1500;

/// Draws below this (and not failing) also incur the long delay: the
/// band `[0.15, 0.3)`.
pub const LONG_CUTOFF: u64 = 3000;

/// Draws below this (and not failing) incur the short delay: the band
/// `[0.15, 0.6)`.
pub const SHORT_CUTOFF: u64 = 6000;

/// The short fixed delay before success, in milliseconds.
pub const SHORT_DELAY_MS: u64 = 2000;

/// The long fixed delay before success, in milliseconds.
pub const LONG_DELAY_MS: u64 = 18000;

/// Both delays served in sequence, for the overlapping band.
pub const COMPOUND_DELAY_MS: u64 = 20000;

/// What the fault injector decides for one request: pass it through now,
/// pass it through after a delay (in milliseconds), or fail it after a
/// delay with a synthetic cause.
#[derive(Debug)]
pub enum FaultOutcome {
    ImmediateSuccess,
    DelayedSuccess(u64),
    ExtraDelayedSuccess(u64),
    InjectedFailure(u64, String),
}

/// The outcomes the policy can produce at all: an injected failure delays
/// at most as long as the failure band is wide, and each success delay is
/// one of the two fixed totals.
pub open spec fn outcome_in_policy(o: FaultOutcome) -> bool {
    match o {
        FaultOutcome::ImmediateSuccess => true,
        FaultOutcome::DelayedSuccess(ms) => ms == SHORT_DELAY_MS,
        FaultOutcome::ExtraDelayedSuccess(ms) => ms == COMPOUND_DELAY_MS,
        FaultOutcome::InjectedFailure(ms, cause) => ms < FAILURE_CUTOFF && cause@
            == "simulated fault"@,
    }
}

/// The synthetic cause attached to every injected failure.
pub fn fault_cause() -> (r: String)
    ensures
        r@ == "simulated fault"@,
{
    "simulated fault".to_owned()
}

/// Map one draw to its outcome.
///
/// With `bypass` set the draw is ignored and the request passes through
/// untouched. Otherwise: a draw in the failure band fails after a delay
/// that scales linearly across the band (`d` milliseconds, the image of
/// `round(p * 10000)`); a draw in the overlap band `[0.15, 0.3)` succeeds
/// after both fixed delays; a draw in `[0.3, 0.6)` succeeds after the
/// short delay alone; any higher draw succeeds immediately.
pub fn outcome_of(bypass: bool, draw: u64) -> (r: FaultOutcome)
    requires
        draw < DRAW_SCALE,
    ensures
        bypass ==> r is ImmediateSuccess,
        !bypass && draw < FAILURE_CUTOFF ==> (r matches FaultOutcome::InjectedFailure(ms, cause)
            && ms == draw && cause@ == "simulated fault"@),
        !bypass && FAILURE_CUTOFF <= draw < LONG_CUTOFF ==> r
            == FaultOutcome::ExtraDelayedSuccess(COMPOUND_DELAY_MS),
        !bypass && LONG_CUTOFF <= draw < SHORT_CUTOFF ==> r == FaultOutcome::DelayedSuccess(
            SHORT_DELAY_MS,
        ),
        !bypass && SHORT_CUTOFF <= draw ==> r is ImmediateSuccess,
        outcome_in_policy(r),
{
    if bypass {
        return FaultOutcome::ImmediateSuccess;
    }
    if draw < FAILURE_CUTOFF {
        return FaultOutcome::InjectedFailure(draw, fault_cause());
    }
    if draw < LONG_CUTOFF {
        return FaultOutcome::ExtraDelayedSuccess(COMPOUND_DELAY_MS);
    }
    if draw < SHORT_CUTOFF {
        return FaultOutcome::DelayedSuccess(SHORT_DELAY_MS);
    }
    FaultOutcome::ImmediateSuccess
}

/// Relies on rand::random_range over `0..n`: a uniform draw within the
/// given range, from the thread-local generator. The range is never empty
/// here, so the call does not panic.
#[verifier::external_body]
fn draw_below(n: u64) -> (r: u64)
    requires
        n > 0,
    ensures
        r < n,
{
    rand::random_range(0..n)
}

/// Decide the fate of one request: draw once, unless the request is
/// marked trusted, in which case it passes through untouched.
///
/// The draw is random, so nothing relates two calls; whatever was drawn,
/// the outcome is one the policy can produce, and a bypassed request is
/// never failed nor delayed.
pub fn inject(bypass: bool) -> (r: FaultOutcome)
    ensures
        bypass ==> r is ImmediateSuccess,
        outcome_in_policy(r),
{
    if bypass {
        FaultOutcome::ImmediateSuccess
    } else {
        let draw = draw_below(DRAW_SCALE);
        outcome_of(false, draw)
    }
}

} // verus!
