use flakysaas::errors::external_error;
use flakysaas::errors::internal_error;
use flakysaas::errors::Error;
use flakysaas::errors::ErrorKind;
use flakysaas::fault::inject;
use flakysaas::fault::outcome_of;
use flakysaas::fault::FaultOutcome;
use flakysaas::fault::COMPOUND_DELAY_MS;
use flakysaas::fault::DRAW_SCALE;
use flakysaas::fault::FAILURE_CUTOFF;
use flakysaas::fault::LONG_CUTOFF;
use flakysaas::fault::SHORT_CUTOFF;
use flakysaas::fault::SHORT_DELAY_MS;
use flakysaas::limiter::AdmissionLimiter;
use flakysaas::pipeline::begin_request;
use flakysaas::pipeline::plan_request;
use flakysaas::pipeline::RequestPlan;

#[test]
fn bypass_always_passes_through() {
    for draw in 0..DRAW_SCALE {
        match outcome_of(true, draw) {
            FaultOutcome::ImmediateSuccess => {}
            _ => panic!("a bypassed request must always pass through untouched"),
        }
    }
    for _ in 0..10000 {
        match inject(true) {
            FaultOutcome::ImmediateSuccess => {}
            _ => panic!("a bypassed request must always pass through untouched"),
        }
    }
}

#[test]
fn bands_partition_exactly() {
    let mut injected: u64 = 0;
    let mut compound: u64 = 0;
    let mut short: u64 = 0;
    let mut immediate: u64 = 0;
    for draw in 0..DRAW_SCALE {
        match outcome_of(false, draw) {
            FaultOutcome::InjectedFailure(ms, cause) => {
                injected += 1;
                assert_eq!(ms, draw);
                assert_eq!(cause, "simulated fault");
                assert!(draw < FAILURE_CUTOFF);
            }
            FaultOutcome::ExtraDelayedSuccess(ms) => {
                compound += 1;
                assert_eq!(ms, COMPOUND_DELAY_MS);
                assert!(FAILURE_CUTOFF <= draw && draw < LONG_CUTOFF);
            }
            FaultOutcome::DelayedSuccess(ms) => {
                short += 1;
                assert_eq!(ms, SHORT_DELAY_MS);
                assert!(LONG_CUTOFF <= draw && draw < SHORT_CUTOFF);
            }
            FaultOutcome::ImmediateSuccess => {
                immediate += 1;
                assert!(draw >= SHORT_CUTOFF);
            }
        }
    }
    assert_eq!(injected, 1500);
    assert_eq!(compound, 1500);
    assert_eq!(short, 3000);
    assert_eq!(immediate, 4000);
}

#[test]
fn random_draws_follow_the_bands() {
    let rounds: u64 = 10000;
    let mut injected: u64 = 0;
    let mut immediate: u64 = 0;
    for _ in 0..rounds {
        match inject(false) {
            FaultOutcome::InjectedFailure(ms, cause) => {
                injected += 1;
                assert!(ms < FAILURE_CUTOFF);
                assert_eq!(cause, "simulated fault");
            }
            FaultOutcome::ExtraDelayedSuccess(ms) => assert_eq!(ms, COMPOUND_DELAY_MS),
            FaultOutcome::DelayedSuccess(ms) => assert_eq!(ms, SHORT_DELAY_MS),
            FaultOutcome::ImmediateSuccess => immediate += 1,
        }
    }
    // ~15% of draws fail and ~40% pass untouched; each margin is over
    // eight standard deviations wide.
    assert!(injected > 1200, "far too few injected failures: {injected}");
    assert!(injected < 1800, "far too many injected failures: {injected}");
    assert!(immediate > 3500, "far too few immediate successes: {immediate}");
    assert!(immediate < 4500, "far too many immediate successes: {immediate}");
}

#[test]
fn second_rapid_request_is_rejected_with_burst_one() {
    let mut limiter = AdmissionLimiter::new(5, 1, 0);
    assert!(limiter.try_admit(0));
    assert!(!limiter.try_admit(0));
    match begin_request(&mut limiter, 0, false) {
        RequestPlan::Reject => {}
        _ => panic!("an exhausted limiter must reject before anything else"),
    }
}

#[test]
fn tokens_refill_over_time_and_cap_at_burst() {
    let mut limiter = AdmissionLimiter::new(1, 2, 0);
    assert!(limiter.try_admit(0));
    assert!(limiter.try_admit(0));
    assert!(!limiter.try_admit(0));
    // One token per second: a whole token is back after one second.
    assert!(!limiter.try_admit(999));
    assert!(limiter.try_admit(1000));
    // A long idle spell refills to the burst capacity, not beyond.
    let mut idle = AdmissionLimiter::new(1, 2, 0);
    assert!(idle.try_admit(0));
    assert!(idle.try_admit(0));
    assert!(idle.try_admit(3600000));
    assert!(idle.try_admit(3600000));
    assert!(!idle.try_admit(3600000));
}

#[test]
fn bypass_still_passes_admission_control() {
    let mut limiter = AdmissionLimiter::new(5, 1, 0);
    match begin_request(&mut limiter, 0, true) {
        RequestPlan::FetchAfter(0) => {}
        _ => panic!("an admitted bypassed request goes straight to the fetch"),
    }
    match begin_request(&mut limiter, 0, true) {
        RequestPlan::Reject => {}
        _ => panic!("the bypass must not skip admission control"),
    }
}

#[test]
fn admitted_request_is_never_rejected() {
    for _ in 0..100 {
        let mut limiter = AdmissionLimiter::new(5, 5, 0);
        match begin_request(&mut limiter, 0, false) {
            RequestPlan::Reject => panic!("an admitted request must reach the fault injector"),
            RequestPlan::FailAfter(_, _) | RequestPlan::FetchAfter(_) => {}
        }
    }
}

#[test]
fn rejection_carries_no_fetch() {
    match plan_request(false, FaultOutcome::ImmediateSuccess) {
        RequestPlan::Reject => {}
        _ => panic!("a rejected request must not be planned any further"),
    }
    let outcome = FaultOutcome::InjectedFailure(7, "simulated fault".to_string());
    match plan_request(true, outcome) {
        RequestPlan::FailAfter(7, cause) => assert_eq!(cause, "simulated fault"),
        _ => panic!("an injected failure must fail after its own delay"),
    }
    match plan_request(true, FaultOutcome::DelayedSuccess(2000)) {
        RequestPlan::FetchAfter(2000) => {}
        _ => panic!("a delayed success must fetch after the short delay"),
    }
}

#[test]
fn every_failure_kind_has_its_status() {
    let cases = [
        (ErrorKind::AdmissionRejected, 429),
        (ErrorKind::Unreachable, 404),
        (ErrorKind::BadUpstreamShape, 500),
        (ErrorKind::BaseNotFound, 500),
        (ErrorKind::QuoteNotFound, 404),
        (ErrorKind::BadNumber, 500),
        (ErrorKind::InjectedFailure, 500),
    ];
    for (kind, status) in cases {
        let e = external_error(kind, "cause kept for the logs".to_string());
        assert_eq!(e.status_code(), status);
    }
}

#[test]
fn internal_detail_stays_server_side() {
    let e = internal_error("saw something odd".to_string());
    assert_eq!(e.status_code(), 500);
    assert_eq!(e.log_detail().unwrap(), "saw something odd");
    match external_error(ErrorKind::Unreachable, "unused".to_string()) {
        Error::NotFound => {}
        _ => panic!("an unreachable provider surfaces as not-found"),
    }
}
