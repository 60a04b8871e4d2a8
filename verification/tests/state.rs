use git_monitor::error::{ErrorKind, SyncError};
use git_monitor::state::{
    generate_state, newest_errors, truncation_text, update_state_wrapper, StateRecord, Status,
    ERROR_LOG_CAPACITY,
};

fn failure(n: u32) -> SyncError {
    SyncError::new(ErrorKind::Other, &format!("failure {}", n))
}

fn record(errors: u32) -> StateRecord {
    let mut error_log = Vec::new();
    let mut n = 1;
    while n <= errors {
        error_log.push(failure(n));
        n += 1;
    }
    StateRecord {
        status: Status::Stopped,
        event_counter: 41,
        description: "old".to_string(),
        error_log,
        last_updated: 7,
        started_at: 3,
        pid: 99,
    }
}

#[test]
fn capacity_is_five() {
    assert_eq!(ERROR_LOG_CAPACITY, 5);
}

#[test]
fn fresh_state_is_starting_and_empty() {
    let state = generate_state(None, 1000, 42).snapshot();
    assert_eq!(
        state,
        StateRecord {
            status: Status::Starting,
            event_counter: 0,
            description: "Initializing".to_string(),
            error_log: Vec::new(),
            last_updated: 1000,
            started_at: 1000,
            pid: 42,
        }
    );
}

#[test]
fn restored_state_resumes_counter_and_history() {
    let state = generate_state(Some(record(2)), 1000, 42).snapshot();
    assert_eq!(state.status, Status::Stopped);
    assert_eq!(state.event_counter, 41);
    assert_eq!(state.description, "Initializing");
    assert_eq!(state.error_log, vec![failure(1), failure(2)]);
    assert_eq!(state.last_updated, 1000);
    assert_eq!(state.started_at, 1000);
    assert_eq!(state.pid, 42);
}

#[test]
fn restored_state_keeps_only_the_newest_failures() {
    let state = generate_state(Some(record(8)), 1000, 42).snapshot();
    assert_eq!(
        state.error_log,
        vec![failure(4), failure(5), failure(6), failure(7), failure(8)]
    );
    assert_eq!(state.description, "The error log has a legnth of 8. Truncating...");
}

#[test]
fn restored_state_at_capacity_is_not_truncated() {
    let state = generate_state(Some(record(5)), 1000, 42).snapshot();
    assert_eq!(state.error_log.len(), 5);
    assert_eq!(state.description, "Initializing");
}

#[test]
fn success_counts_and_describes() {
    let mut state = generate_state(None, 1, 1);
    state.record_success("Updated: 5607341a", 50);
    let seen = state.snapshot();
    assert_eq!(seen.event_counter, 1);
    assert_eq!(seen.description, "Updated: 5607341a");
    assert_eq!(seen.last_updated, 50);
    assert_eq!(seen.started_at, 1);
    assert_eq!(seen.status, Status::Starting);
    assert!(seen.error_log.is_empty());
}

#[test]
fn counter_stops_at_its_largest_value() {
    let mut full = record(0);
    full.event_counter = u32::MAX - 1;
    let mut state = generate_state(Some(full), 1, 1);
    state.record_success("a", 2);
    assert_eq!(state.snapshot().event_counter, u32::MAX);
    state.record_success("b", 3);
    assert_eq!(state.snapshot().event_counter, u32::MAX);
}

#[test]
fn failure_enters_the_log_and_leaves_the_counter() {
    let mut state = generate_state(None, 1, 1);
    state.record_success("done", 2);
    state.record_failure(failure(1), 3);
    let seen = state.snapshot();
    assert_eq!(seen.event_counter, 1);
    assert_eq!(seen.error_log, vec![failure(1)]);
    assert_eq!(seen.description, "done");
    assert_eq!(seen.last_updated, 3);
}

#[test]
fn sixth_failure_evicts_the_first() {
    let mut state = generate_state(None, 1, 1);
    let mut n = 1;
    while n <= 5 {
        state.record_failure(failure(n), 10);
        n += 1;
    }
    let before = state.snapshot();
    assert_eq!(before.error_log.len(), 5);
    assert_eq!(before.description, "Initializing");
    state.record_failure(failure(6), 11);
    let after = state.snapshot();
    assert_eq!(
        after.error_log,
        vec![failure(2), failure(3), failure(4), failure(5), failure(6)]
    );
    assert!(!after.error_log.contains(&failure(1)));
    assert!(after.error_log.contains(&failure(6)));
    assert_eq!(after.description, "The error log has a legnth of 6. Truncating...");
}

#[test]
fn log_never_exceeds_capacity() {
    let mut state = generate_state(None, 1, 1);
    let mut n = 1;
    while n <= 40 {
        state.record_failure(failure(n), 10);
        assert!(state.snapshot().error_log.len() <= ERROR_LOG_CAPACITY);
        n += 1;
    }
    assert_eq!(
        state.snapshot().error_log,
        vec![failure(36), failure(37), failure(38), failure(39), failure(40)]
    );
}

#[test]
fn failures_recorded_in_order() {
    let mut state = generate_state(None, 1, 1);
    state.record_failures(&vec![failure(1), failure(2), failure(3)], 5);
    assert_eq!(state.snapshot().error_log, vec![failure(1), failure(2), failure(3)]);
    state.record_failures(&vec![failure(4), failure(5), failure(6), failure(7)], 6);
    assert_eq!(
        state.snapshot().error_log,
        vec![failure(3), failure(4), failure(5), failure(6), failure(7)]
    );
    let before = state.snapshot();
    state.record_failures(&Vec::new(), 9);
    assert_eq!(state.snapshot(), before);
}

#[test]
fn status_and_description_are_overwritten() {
    let mut state = generate_state(None, 1, 1);
    state.set_status(Status::Idle);
    state.describe("waiting");
    let seen = state.snapshot();
    assert_eq!(seen.status, Status::Idle);
    assert_eq!(seen.description, "waiting");
    assert_eq!(seen.event_counter, 0);
    assert_eq!(seen.last_updated, 1);
    state.set_status(Status::Idle);
    assert_eq!(state.snapshot(), seen);
}

#[test]
fn update_refreshes_the_time_and_hands_out_the_record() {
    let mut state = generate_state(None, 1, 1);
    state.record_failure(failure(1), 2);
    let written = update_state_wrapper(&mut state, 77);
    assert_eq!(written.last_updated, 77);
    assert_eq!(written.event_counter, 0);
    assert_eq!(written.error_log, vec![failure(1)]);
    assert_eq!(written, state.snapshot());
}

#[test]
fn newest_errors_keeps_the_tail() {
    let log = vec![failure(1), failure(2), failure(3)];
    assert_eq!(newest_errors(&log, 2), vec![failure(2), failure(3)]);
    assert_eq!(newest_errors(&log, 3), log);
    assert_eq!(newest_errors(&log, 9), log);
    assert_eq!(newest_errors(&log, 0), Vec::<SyncError>::new());
}

#[test]
fn truncation_text_names_the_length() {
    assert_eq!(truncation_text(6), "The error log has a legnth of 6. Truncating...");
    assert_eq!(truncation_text(123), "The error log has a legnth of 123. Truncating...");
}

#[test]
fn getters_read_the_record() {
    let mut state = generate_state(Some(record(9)), 1, 1);
    assert_eq!(state.status(), Status::Stopped);
    assert_eq!(state.event_counter(), 41);
    assert_eq!(state.error_count(), 5);
    state.set_status(Status::Running);
    state.record_success("x", 2);
    assert_eq!(state.status(), Status::Running);
    assert_eq!(state.event_counter(), 42);
}
