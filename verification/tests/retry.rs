use git_monitor::error::{ErrorKind, SyncError};
use git_monitor::retry::{
    RetryState, Verdict, ATTEMPT_CEILING, MAX_RETRIES, RETRY_DELAY_SECONDS,
};

fn hard(n: u32) -> SyncError {
    SyncError::new(ErrorKind::NetworkFailure, &format!("network {}", n))
}

fn refusal(n: u32) -> SyncError {
    SyncError::new(ErrorKind::UnsafeDirectory, &format!("dubious {}", n))
}

#[test]
fn retry_constants() {
    assert_eq!(MAX_RETRIES, 3);
    assert_eq!(RETRY_DELAY_SECONDS, 3);
    assert_eq!(ATTEMPT_CEILING, 10);
}

#[test]
fn success_settles_with_what_the_pull_brought() {
    let mut state = RetryState::new();
    state.start_attempt();
    assert_eq!(state.pull_with_retry(Ok(true)), Verdict::Settled { changed: true });
    assert_eq!(state.pull_with_retry(Ok(false)), Verdict::Settled { changed: false });
    assert_eq!(state.failures, 0);
    assert!(state.errors.is_empty());
}

#[test]
fn benign_failure_counts_as_a_change() {
    let mut state = RetryState::new();
    state.start_attempt();
    let warning = SyncError::new(ErrorKind::Benign, "warning: redirecting");
    assert_eq!(state.pull_with_retry(Err(warning)), Verdict::Settled { changed: true });
    assert_eq!(state.failures, 0);
    assert!(state.errors.is_empty());
}

#[test]
fn three_hard_failures_exhaust_the_budget() {
    let mut state = RetryState::new();
    state.start_attempt();
    assert_eq!(state.pull_with_retry(Err(hard(1))), Verdict::RetryAfter { seconds: 3 });
    state.start_attempt();
    assert_eq!(state.pull_with_retry(Err(hard(2))), Verdict::RetryAfter { seconds: 3 });
    state.start_attempt();
    assert_eq!(
        state.pull_with_retry(Err(hard(3))),
        Verdict::GiveUp { errors: vec![hard(1), hard(2), hard(3)] }
    );
    assert_eq!(state.attempts, 3);
    assert_eq!(state.failures, 3);
}

#[test]
fn every_kind_but_refusal_and_warning_uses_a_try() {
    let kinds = [
        ErrorKind::AlreadyExists,
        ErrorKind::AuthenticationFailed,
        ErrorKind::NetworkFailure,
        ErrorKind::BranchNotFound,
        ErrorKind::Other,
    ];
    for kind in kinds {
        let mut state = RetryState::new();
        state.start_attempt();
        let verdict = state.pull_with_retry(Err(SyncError::new(kind, "x")));
        assert_eq!(verdict, Verdict::RetryAfter { seconds: 3 });
        assert_eq!(state.failures, 1);
    }
}

#[test]
fn refusal_is_remedied_without_using_a_try() {
    let mut state = RetryState::new();
    state.start_attempt();
    assert_eq!(state.pull_with_retry(Err(refusal(1))), Verdict::Remediate);
    assert_eq!(state.failures, 0);
    assert_eq!(state.errors, vec![refusal(1)]);
    state.start_attempt();
    assert_eq!(state.pull_with_retry(Ok(true)), Verdict::Settled { changed: true });
    assert_eq!(state.failures, 0);
}

#[test]
fn refusals_end_at_the_ceiling() {
    let mut state = RetryState::new();
    let mut expected = Vec::new();
    let mut n = 1;
    while n < ATTEMPT_CEILING {
        assert!(state.may_attempt());
        state.start_attempt();
        assert_eq!(state.pull_with_retry(Err(refusal(n))), Verdict::Remediate);
        expected.push(refusal(n));
        n += 1;
    }
    assert!(state.may_attempt());
    state.start_attempt();
    assert!(!state.may_attempt());
    expected.push(refusal(n));
    assert_eq!(state.pull_with_retry(Err(refusal(n))), Verdict::GiveUp { errors: expected });
    assert_eq!(state.attempts, ATTEMPT_CEILING);
    assert_eq!(state.failures, 0);
}

#[test]
fn refusals_between_hard_failures_leave_the_budget() {
    let mut state = RetryState::new();
    state.start_attempt();
    assert_eq!(state.pull_with_retry(Err(hard(1))), Verdict::RetryAfter { seconds: 3 });
    state.start_attempt();
    assert_eq!(state.pull_with_retry(Err(refusal(2))), Verdict::Remediate);
    state.start_attempt();
    assert_eq!(state.pull_with_retry(Err(hard(3))), Verdict::RetryAfter { seconds: 3 });
    state.start_attempt();
    assert_eq!(
        state.pull_with_retry(Err(hard(4))),
        Verdict::GiveUp { errors: vec![hard(1), refusal(2), hard(3), hard(4)] }
    );
}

#[test]
fn noted_failures_accumulate() {
    let mut state = RetryState::new();
    state.note_failure(hard(1));
    state.note_failure(refusal(2));
    assert_eq!(state.errors, vec![hard(1), refusal(2)]);
    assert_eq!(state.failures, 0);
    assert_eq!(state.attempts, 0);
}
