use desec_cli::error::{classify, ApiFailure, ClassifiedError, DEFAULT_RETRY_AFTER};
use desec_cli::retry::{Dispatcher, RetryPolicy, Step, DEFAULT_MAX_RETRIES, DEFAULT_MAX_WAIT};

fn throttled(after: u64) -> Result<(), ApiFailure> {
    Err(ApiFailure::RateLimited { retry_after: after, detail: String::new() })
}

/// Attempts made when every attempt is throttled with the same hint.
fn attempts_while_throttled(policy: RetryPolicy, hint: u64) -> (usize, Vec<u64>, Step<()>) {
    let mut d = Dispatcher::new(policy);
    let mut attempts = 0;
    let mut waits = Vec::new();
    loop {
        attempts += 1;
        match d.after_attempt(throttled(hint)) {
            Step::Retry { after } => waits.push(after),
            done => return (attempts, waits, done),
        }
    }
}

#[test]
fn retry_bound_three() {
    let p = RetryPolicy { enabled: true, max_retries: Some(3), max_wait: Some(60) };
    let (attempts, waits, last) = attempts_while_throttled(p, 2);
    assert_eq!(attempts, 4);
    assert_eq!(waits, vec![2, 2, 2]);
    assert_eq!(last, Step::Done(Err(ClassifiedError::RateLimited { retry_after: 2 })));
}

#[test]
fn retry_bound_zero() {
    let p = RetryPolicy { enabled: true, max_retries: Some(0), max_wait: None };
    let (attempts, waits, last) = attempts_while_throttled(p, 7);
    assert_eq!(attempts, 1);
    assert!(waits.is_empty());
    assert_eq!(last, Step::Done(Err(ClassifiedError::RateLimited { retry_after: 7 })));
}

#[test]
fn retry_disabled_single_attempt() {
    let p = RetryPolicy { enabled: false, max_retries: Some(5), max_wait: None };
    let (attempts, _, last) = attempts_while_throttled(p, 1);
    assert_eq!(attempts, 1);
    assert_eq!(last, Step::Done(Err(ClassifiedError::RateLimited { retry_after: 1 })));
    let mut d = Dispatcher::new(p);
    assert_eq!(
        d.after_attempt::<()>(Err(ApiFailure::NotFound)),
        Step::Done(Err(ClassifiedError::NotFound))
    );
}

#[test]
fn wait_capped_by_max_wait() {
    let p = RetryPolicy { enabled: true, max_retries: Some(3), max_wait: Some(5) };
    let mut d = Dispatcher::new(p);
    assert_eq!(d.after_attempt(throttled(60)), Step::Retry { after: 5 });
    assert_eq!(d.after_attempt(throttled(2)), Step::Retry { after: 2 });
    assert_eq!(d.retries, 2);
    assert_eq!(p.wait_for(60), 5);
    assert_eq!(p.wait_for(5), 5);
}

#[test]
fn wait_uncapped_uses_hint() {
    let p = RetryPolicy { enabled: true, max_retries: None, max_wait: None };
    assert_eq!(p.wait_for(600), 600);
    let mut d = Dispatcher::new(p);
    assert_eq!(d.after_attempt(throttled(600)), Step::Retry { after: 600 });
}

#[test]
fn missing_hint_uses_default_wait() {
    let p = RetryPolicy { enabled: true, max_retries: Some(1), max_wait: Some(60) };
    let mut d = Dispatcher::new(p);
    let r = d.after_attempt::<()>(Err(ApiFailure::RateLimitedWithoutHint(String::new())));
    assert_eq!(r, Step::Retry { after: DEFAULT_RETRY_AFTER });
}

#[test]
fn success_is_returned_unchanged() {
    let p = RetryPolicy::from_options(false, None, None);
    let mut d = Dispatcher::new(p);
    assert_eq!(d.after_attempt::<u32>(Ok(7)), Step::Done(Ok(7)));
    assert_eq!(d.retries, 0);
}

#[test]
fn delete_of_absent_rrset_succeeds() {
    // The server answers the delete of an RRset that is not there with success.
    let mut d = Dispatcher::new(RetryPolicy::from_options(false, None, None));
    assert_eq!(d.after_attempt::<()>(Ok(())), Step::Done(Ok(())));
}

#[test]
fn other_failures_are_not_retried() {
    let p = RetryPolicy { enabled: true, max_retries: None, max_wait: None };
    for f in [
        ApiFailure::NotFound,
        ApiFailure::Forbidden,
        ApiFailure::Transport("timeout".to_string()),
        ApiFailure::BadRequest { status: 400, detail: "ttl".to_string() },
    ] {
        let expected = classify(f.clone());
        let mut d = Dispatcher::new(p);
        assert_eq!(d.after_attempt::<()>(Err(f)), Step::Done(Err(expected)));
        assert_eq!(d.retries, 0);
    }
}

#[test]
fn policy_from_options_defaults() {
    let p = RetryPolicy::from_options(false, None, None);
    assert_eq!(
        p,
        RetryPolicy {
            enabled: true,
            max_retries: Some(DEFAULT_MAX_RETRIES),
            max_wait: Some(DEFAULT_MAX_WAIT)
        }
    );
    assert_eq!(DEFAULT_MAX_RETRIES, 3);
    assert_eq!(DEFAULT_MAX_WAIT, 60);
    let q = RetryPolicy::from_options(true, Some(7), Some(5));
    assert_eq!(q, RetryPolicy { enabled: false, max_retries: Some(7), max_wait: Some(5) });
}
