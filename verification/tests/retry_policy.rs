use kiduku::retry::{
    after_failed_attempt, retry_plan_for_http_error, retry_plan_for_register_error,
    run_registration_schedule, AttemptOutcome, HttpErrorKind, RegisterErrorKind, RetryDirective,
    RetryPlan,
};

#[test]
fn three_retryable_failures_stop_after_three_attempts() {
    let outcomes = vec![
        AttemptOutcome::Failure(RetryPlan::retry()),
        AttemptOutcome::Failure(RetryPlan::retry()),
        AttemptOutcome::Failure(RetryPlan::retry()),
    ];
    let report = run_registration_schedule(&outcomes);
    assert_eq!(report.attempts, 3);
    assert_eq!(report.delays, vec![2, 4]);
    assert!(!report.succeeded);
}

#[test]
fn non_retryable_failure_stops_after_one_attempt() {
    let outcomes = vec![
        AttemptOutcome::Failure(RetryPlan::non_retryable()),
        AttemptOutcome::Failure(RetryPlan::retry()),
        AttemptOutcome::Failure(RetryPlan::retry()),
    ];
    let report = run_registration_schedule(&outcomes);
    assert_eq!(report.attempts, 1);
    assert!(report.delays.is_empty());
    assert!(!report.succeeded);
}

#[test]
fn success_on_second_attempt() {
    let outcomes = vec![
        AttemptOutcome::Failure(RetryPlan::retry()),
        AttemptOutcome::Success,
        AttemptOutcome::Success,
    ];
    let report = run_registration_schedule(&outcomes);
    assert_eq!(report.attempts, 2);
    assert_eq!(report.delays, vec![2]);
    assert!(report.succeeded);
}

#[test]
fn immediate_success_sleeps_never() {
    let outcomes = vec![
        AttemptOutcome::Success,
        AttemptOutcome::Success,
        AttemptOutcome::Success,
    ];
    let report = run_registration_schedule(&outcomes);
    assert_eq!(report.attempts, 1);
    assert!(report.delays.is_empty());
    assert!(report.succeeded);
}

#[test]
fn server_error_statuses_are_retryable() {
    for status in [408u16, 500, 502, 503, 504] {
        let plan = retry_plan_for_http_error(&HttpErrorKind::UnsuccessfulRequest { status });
        assert!(plan.is_retryable(), "status {status} should be retryable");
    }
}

#[test]
fn client_error_statuses_are_not_retryable() {
    for status in [400u16, 401, 403, 404, 422] {
        let plan = retry_plan_for_http_error(&HttpErrorKind::UnsuccessfulRequest { status });
        assert!(!plan.is_retryable(), "status {status} should not retry");
    }
}

#[test]
fn timeout_and_connect_failures_are_retryable() {
    assert!(retry_plan_for_http_error(&HttpErrorKind::Request {
        timeout: true,
        connect: false
    })
    .is_retryable());
    assert!(retry_plan_for_http_error(&HttpErrorKind::Request {
        timeout: false,
        connect: true
    })
    .is_retryable());
    assert!(!retry_plan_for_http_error(&HttpErrorKind::Request {
        timeout: false,
        connect: false
    })
    .is_retryable());
}

#[test]
fn rate_limit_is_retryable_configuration_errors_are_not() {
    assert!(retry_plan_for_http_error(&HttpErrorKind::RateLimit).is_retryable());
    for kind in [
        HttpErrorKind::Url,
        HttpErrorKind::InvalidWebhook,
        HttpErrorKind::InvalidHeader,
        HttpErrorKind::InvalidScheme,
        HttpErrorKind::InvalidPort,
        HttpErrorKind::ApplicationIdMissing,
        HttpErrorKind::Other,
    ] {
        assert!(!retry_plan_for_http_error(&kind).is_retryable());
    }
}

#[test]
fn io_failures_are_retryable_unknown_kinds_are_not() {
    assert!(retry_plan_for_register_error(&RegisterErrorKind::Io).is_retryable());
    assert!(!retry_plan_for_register_error(&RegisterErrorKind::Other).is_retryable());
    assert!(retry_plan_for_register_error(&RegisterErrorKind::Http(HttpErrorKind::RateLimit))
        .is_retryable());
}

#[test]
fn delay_doubles_and_caps() {
    let d = after_failed_attempt(1, 2, RetryPlan::retry());
    assert_eq!(
        d,
        RetryDirective::RetryAfter {
            sleep: 2,
            next_delay: 4
        }
    );
    let d = after_failed_attempt(2, 20, RetryPlan::retry());
    assert_eq!(
        d,
        RetryDirective::RetryAfter {
            sleep: 20,
            next_delay: 30
        }
    );
    let d = after_failed_attempt(3, 4, RetryPlan::retry());
    assert_eq!(d, RetryDirective::GiveUp);
    let d = after_failed_attempt(1, 2, RetryPlan::non_retryable());
    assert_eq!(d, RetryDirective::GiveUp);
}
