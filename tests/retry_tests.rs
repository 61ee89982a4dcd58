use async_openai_wasm::error::OpenAIError;
use async_openai_wasm::retry::{is_retryable, surface, RetryPolicy, RetryStep, Retrier};

/// Runs a scripted operation under the controller: `true` succeeds, `false`
/// fails retryably. Returns whether it succeeded and how many attempts ran.
fn run(policy: RetryPolicy, script: &[bool]) -> (Result<(), OpenAIError>, usize) {
    let mut r = Retrier::new(policy);
    let mut calls = 0;
    loop {
        let ok = script[calls];
        calls += 1;
        if ok {
            return (Ok(()), calls);
        }
        match r.on_failure(true, 7) {
            RetryStep::Wait(_) => {}
            RetryStep::Stop { exhausted } => {
                return (Err(surface(exhausted, OpenAIError::Transport("reset".to_string()))), calls)
            }
        }
    }
}

#[test]
fn succeeds_on_last_attempt() {
    let p = RetryPolicy::default();
    let (res, calls) = run(p, &[false, false, false, false, true]);
    assert!(res.is_ok());
    assert_eq!(calls, 5);
}

#[test]
fn always_failing_is_exhausted() {
    let p = RetryPolicy::default();
    let (res, calls) = run(p, &[false; 10]);
    assert!(matches!(res, Err(OpenAIError::RetryExhausted(_))));
    assert_eq!(calls, 5);
}

#[test]
fn elapsed_budget_stops_early() {
    let p = RetryPolicy { max_attempts: 10, max_elapsed_ms: 1_000, initial_delay_ms: 400, max_delay_ms: 400 };
    let (res, calls) = run(p, &[false; 10]);
    assert!(matches!(res, Err(OpenAIError::RetryExhausted(_))));
    assert!(calls < 10);
}

#[test]
fn terminal_failure_stops_at_once() {
    let mut r = Retrier::new(RetryPolicy::default());
    assert_eq!(r.on_failure(false, 0), RetryStep::Stop { exhausted: false });
    let e = surface(false, OpenAIError::InvalidArgument("x".to_string()));
    assert!(matches!(e, OpenAIError::InvalidArgument(_)));
}

#[test]
fn delays_double_up_to_cap() {
    let p = RetryPolicy { max_attempts: 10, max_elapsed_ms: 1_000_000, initial_delay_ms: 100, max_delay_ms: 350 };
    let mut r = Retrier::new(p);
    // jitter 0 gives half the backoff.
    assert_eq!(r.on_failure(true, 0), RetryStep::Wait(50));
    assert_eq!(r.on_failure(true, 0), RetryStep::Wait(100));
    assert_eq!(r.on_failure(true, 0), RetryStep::Wait(175));
    // the largest jitter share gives the whole backoff.
    assert_eq!(r.on_failure(true, 175), RetryStep::Wait(350));
    assert_eq!(r.elapsed_ms, 675);
}

#[test]
fn retryable_classification() {
    let t = OpenAIError::Transport("reset".to_string());
    let d = OpenAIError::Deserialization("x".to_string());
    assert!(is_retryable(&t, None));
    assert!(!is_retryable(&d, None));
    assert!(is_retryable(&d, Some(429)));
    assert!(is_retryable(&d, Some(503)));
    assert!(!is_retryable(&d, Some(401)));
    assert!(!is_retryable(&d, Some(404)));
}
