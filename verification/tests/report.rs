use git_monitor::error::{ErrorKind, SyncError};
use git_monitor::report::{record_outcome, report};
use git_monitor::state::generate_state;
use git_monitor::target::{RepoTarget, Server};
use git_monitor::worker::SyncOutcome;

fn target(owner: &str) -> RepoTarget {
    RepoTarget {
        owner: owner.to_string(),
        repo: "b".to_string(),
        branch: "main".to_string(),
        server: Server::GitHub,
        token: None,
    }
}

fn failure(n: u32) -> SyncError {
    SyncError::new(ErrorKind::Other, &format!("failure {}", n))
}

#[test]
fn cloned_counts_one_event_and_leaves_the_log() {
    let mut state = generate_state(None, 1, 1);
    state.record_failure(failure(1), 2);
    report(&mut state, &target("a"), &SyncOutcome::Cloned, 3);
    let seen = state.snapshot();
    assert_eq!(seen.event_counter, 1);
    assert_eq!(seen.error_log, vec![failure(1)]);
    assert_eq!(seen.description, "Updated: 5607341a");
    assert_eq!(seen.last_updated, 3);
}

#[test]
fn up_to_date_counts_one_event() {
    let mut state = generate_state(None, 1, 1);
    report(&mut state, &target("a"), &SyncOutcome::UpToDate, 3);
    report(&mut state, &target("a"), &SyncOutcome::UpToDate, 4);
    let seen = state.snapshot();
    assert_eq!(seen.event_counter, 2);
    assert!(seen.error_log.is_empty());
}

#[test]
fn updated_counts_one_event() {
    let mut state = generate_state(None, 1, 1);
    record_outcome(&mut state, "abcd1234", &SyncOutcome::Updated, 3);
    let seen = state.snapshot();
    assert_eq!(seen.event_counter, 1);
    assert_eq!(seen.description, "Updated: abcd1234");
}

#[test]
fn failed_counts_no_event_and_enters_the_log() {
    let mut state = generate_state(None, 1, 1);
    let outcome = SyncOutcome::Failed(vec![failure(1), failure(2)]);
    report(&mut state, &target("a"), &outcome, 3);
    let seen = state.snapshot();
    assert_eq!(seen.event_counter, 0);
    assert_eq!(seen.error_log, vec![failure(1), failure(2)]);
    assert_eq!(seen.description, "Initializing");
}

#[test]
fn one_failing_target_takes_nothing_from_the_others() {
    let mut state = generate_state(None, 1, 1);
    let good = [target("a"), target("c"), target("d")];
    let bad = target("z");
    let mut round = 0;
    while round < 4 {
        report(&mut state, &good[0], &SyncOutcome::UpToDate, 10);
        report(&mut state, &bad, &SyncOutcome::Failed(vec![failure(round)]), 10);
        report(&mut state, &good[1], &SyncOutcome::Updated, 10);
        report(&mut state, &good[2], &SyncOutcome::UpToDate, 10);
        round += 1;
    }
    let seen = state.snapshot();
    assert_eq!(seen.event_counter, 12);
    assert_eq!(seen.error_log, vec![failure(0), failure(1), failure(2), failure(3)]);
}

#[test]
fn every_report_marks_the_time() {
    let mut state = generate_state(None, 1, 1);
    report(&mut state, &target("a"), &SyncOutcome::Failed(Vec::new()), 9);
    let seen = state.snapshot();
    assert_eq!(seen.last_updated, 9);
    assert_eq!(seen.event_counter, 0);
    assert!(seen.error_log.is_empty());
    report(&mut state, &target("a"), &SyncOutcome::Failed(vec![failure(1)]), 10);
    assert_eq!(state.snapshot().last_updated, 10);
    report(&mut state, &target("a"), &SyncOutcome::UpToDate, 11);
    assert_eq!(state.snapshot().last_updated, 11);
}
