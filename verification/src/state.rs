//! The daemon's one record of what it is doing: its status, how many cycles
//! have completed, what it did last, and the failures it met most recently.
//!
//! Every worker and the controller change this record, each change as one
//! step. The record never holds more than `ERROR_LOG_CAPACITY` failures:
//! where one more is recorded, the oldest leave first.

use crate::error::{clone_errors, error_views, ErrorView, SyncError};
use crate::text::{decimal, decimal_text};
use vstd::prelude::*;
use vstd::string::StringExecFns;

verus! {

/// How many failures the record keeps.
pub const ERROR_LOG_CAPACITY: usize = 5;

/// What the daemon is doing.
#[derive(Clone, Copy, Debug, PartialEq, Eq, Structural)]
pub enum Status {
    Starting,
    Idle,
    Running,
    Stopped,
}

/// The record as it is written out and read back: plain fields, of which
/// nothing is known.
#[derive(Debug, PartialEq, Eq)]
pub struct StateRecord {
    pub status: Status,
    pub event_counter: u32,
    pub description: String,
    pub error_log: Vec<SyncError>,
    pub last_updated: u64,
    pub started_at: u64,
    pub pid: u32,
}

/// The record as a plain value.
pub struct StateView {
    pub status: Status,
    pub event_counter: u32,
    pub description: Seq<char>,
    pub error_log: Seq<ErrorView>,
    pub last_updated: u64,
    pub started_at: u64,
    pub pid: u32,
}

impl View for StateRecord {
    type V = StateView;

    open spec fn view(&self) -> StateView {
        StateView {
            status: self.status,
            event_counter: self.event_counter,
            description: self.description@,
            error_log: error_views(self.error_log@),
            last_updated: self.last_updated,
            started_at: self.started_at,
            pid: self.pid,
        }
    }
}

/// The daemon's record. Its failure log is within capacity at all times.
#[derive(Debug)]
pub struct DaemonState {
    record: StateRecord,
}

impl View for DaemonState {
    type V = StateView;

    closed spec fn view(&self) -> StateView {
        self.record@
    }
}

/// The last `capacity` entries of `log`, or all of it where it holds no
/// more than that.
pub open spec fn newest<T>(log: Seq<T>, capacity: nat) -> Seq<T> {
    if log.len() > capacity {
        log.subrange(log.len() - capacity, log.len() as int)
    } else {
        log
    }
}

/// Whether a record's failure log is within capacity.
pub open spec fn within_capacity(state: StateView) -> bool {
    state.error_log.len() <= ERROR_LOG_CAPACITY
}

/// What the description says when a log of `length` entries is cut down.
pub open spec fn truncation_note(length: nat) -> Seq<char> {
    "The error log has a legnth of "@ + decimal(length) + ". Truncating..."@
}

/// `counter` after one more completed cycle. It stops at the largest value
/// it can hold.
pub open spec fn counted(counter: u32) -> u32 {
    if counter < u32::MAX {
        (counter + 1) as u32
    } else {
        counter
    }
}

/// The record at startup: the one read back, if there is one, with its
/// counter and its newest failures kept, and otherwise a fresh one.
pub open spec fn initial_state(loaded: Option<StateView>, now: u64, pid: u32) -> StateView {
    match loaded {
        Some(old) => StateView {
            status: old.status,
            event_counter: old.event_counter,
            description: if old.error_log.len() > ERROR_LOG_CAPACITY {
                truncation_note(old.error_log.len())
            } else {
                "Initializing"@
            },
            error_log: newest(old.error_log, ERROR_LOG_CAPACITY as nat),
            last_updated: now,
            started_at: now,
            pid,
        },
        None => StateView {
            status: Status::Starting,
            event_counter: 0,
            description: "Initializing"@,
            error_log: Seq::empty(),
            last_updated: now,
            started_at: now,
            pid,
        },
    }
}

/// The record after a cycle that completed.
pub open spec fn success_recorded(state: StateView, description: Seq<char>, now: u64) -> StateView {
    StateView {
        event_counter: counted(state.event_counter),
        description,
        last_updated: now,
        ..state
    }
}

/// The record after one more failure: the failure is the newest entry of
/// the log; where the log would exceed its capacity the oldest entries
/// have left it and the description says so.
pub open spec fn failure_recorded(state: StateView, error: ErrorView, now: u64) -> StateView {
    let grown = state.error_log.push(error);
    StateView {
        description: if grown.len() > ERROR_LOG_CAPACITY {
            truncation_note(grown.len())
        } else {
            state.description
        },
        error_log: newest(grown, ERROR_LOG_CAPACITY as nat),
        last_updated: now,
        ..state
    }
}

/// The record after the failures `errors`, recorded in order.
pub open spec fn failures_recorded(state: StateView, errors: Seq<ErrorView>, now: u64) -> StateView
    decreases errors.len(),
{
    if errors.len() == 0 {
        state
    } else {
        failure_recorded(failures_recorded(state, errors.drop_last(), now), errors.last(), now)
    }
}

/// The record with another status.
pub open spec fn status_set(state: StateView, status: Status) -> StateView {
    StateView { status, ..state }
}

/// The record with a newer time of its last update.
pub open spec fn refreshed(state: StateView, now: u64) -> StateView {
    StateView { last_updated: now, ..state }
}

/// The description of a log of `length` entries that is cut down.
pub fn truncation_text(length: usize) -> (note: String)
    ensures
        note@ == truncation_note(length as nat),
{
    let mut note = "The error log has a legnth of ".to_owned();
    let digits = decimal_text(length);
    note.append(digits.as_str());
    note.append(". Truncating...");
    note
}

/// The last `capacity` entries of `log`.
pub fn newest_errors(log: &Vec<SyncError>, capacity: usize) -> (kept: Vec<SyncError>)
    ensures
        kept@ == newest(log@, capacity as nat),
{
    if log.len() <= capacity {
        return clone_errors(log);
    }
    let first: usize = log.len() - capacity;
    let mut kept: Vec<SyncError> = Vec::new();
    let mut i: usize = first;
    while i < log.len()
        invariant
            first <= i <= log.len(),
            kept@ == log@.subrange(first as int, i as int),
        decreases log.len() - i,
    {
        kept.push(log[i].clone());
        assert(log@.subrange(first as int, i as int).push(log@[i as int]) =~= log@.subrange(
            first as int,
            i + 1,
        ));
        i = i + 1;
    }
    kept
}

proof fn lemma_newest_views(log: Seq<SyncError>, capacity: nat)
    ensures
        error_views(newest(log, capacity)) == newest(error_views(log), capacity),
{
    assert(error_views(newest(log, capacity)) =~= newest(error_views(log), capacity));
}

/// The record at startup. A record that was read back keeps its status,
/// its counter and its newest failures; without one the record is fresh.
pub fn generate_state(loaded: Option<StateRecord>, now: u64, pid: u32) -> (state: DaemonState)
    ensures
        state@ == initial_state(
            match loaded {
                Some(r) => Some(r@),
                None => None,
            },
            now,
            pid,
        ),
        within_capacity(state@),
{
    match loaded {
        Some(old) => {
            let description = if old.error_log.len() > ERROR_LOG_CAPACITY {
                truncation_text(old.error_log.len())
            } else {
                "Initializing".to_owned()
            };
            let error_log = newest_errors(&old.error_log, ERROR_LOG_CAPACITY);
            proof {
                lemma_newest_views(old.error_log@, ERROR_LOG_CAPACITY as nat);
            }
            DaemonState {
                record: StateRecord {
                    status: old.status,
                    event_counter: old.event_counter,
                    description,
                    error_log,
                    last_updated: now,
                    started_at: now,
                    pid,
                },
            }
        },
        None => {
            let error_log: Vec<SyncError> = Vec::new();
            assert(error_views(error_log@) =~= Seq::empty());
            DaemonState {
                record: StateRecord {
                    status: Status::Starting,
                    event_counter: 0,
                    description: "Initializing".to_owned(),
                    error_log,
                    last_updated: now,
                    started_at: now,
                    pid,
                },
            }
        },
    }
}

impl DaemonState {
    #[verifier::type_invariant]
    spec fn bounded(self) -> bool {
        self.record.error_log@.len() <= ERROR_LOG_CAPACITY
    }

    /// Records a cycle that completed: the counter goes up by one, and the
    /// description says what was done.
    pub fn record_success(&mut self, description: &str, now: u64)
        ensures
            final(self)@ == success_recorded(old(self)@, description@, now),
    {
        proof {
            use_type_invariant(&*self);
        }
        if self.record.event_counter < u32::MAX {
            self.record.event_counter = self.record.event_counter + 1;
        }
        self.record.description = description.to_owned();
        self.record.last_updated = now;
    }

    /// Records a failure as the newest entry of the log. Where the log is
    /// full, its oldest entry leaves and the description says so.
    pub fn record_failure(&mut self, error: SyncError, now: u64)
        ensures
            final(self)@ == failure_recorded(old(self)@, error@, now),
    {
        proof {
            use_type_invariant(&*self);
        }
        let mut grown = clone_errors(&self.record.error_log);
        grown.push(error);
        assert(error_views(grown@) =~= error_views(old(self).record.error_log@).push(error@));
        if grown.len() > ERROR_LOG_CAPACITY {
            self.record.description = truncation_text(grown.len());
        }
        proof {
            lemma_newest_views(grown@, ERROR_LOG_CAPACITY as nat);
        }
        self.record.error_log = newest_errors(&grown, ERROR_LOG_CAPACITY);
        self.record.last_updated = now;
    }

    /// Sets the status.
    pub fn set_status(&mut self, status: Status)
        ensures
            final(self)@ == status_set(old(self)@, status),
    {
        proof {
            use_type_invariant(&*self);
        }
        self.record.status = status;
    }

    /// Replaces the description.
    pub fn describe(&mut self, description: &str)
        ensures
            final(self)@ == (StateView { description: description@, ..old(self)@ }),
    {
        proof {
            use_type_invariant(&*self);
        }
        self.record.description = description.to_owned();
    }

    /// Sets the time of the last update.
    pub fn touch(&mut self, now: u64)
        ensures
            final(self)@ == refreshed(old(self)@, now),
    {
        proof {
            use_type_invariant(&*self);
        }
        self.record.last_updated = now;
    }

    /// Records the failures `errors`, in order.
    pub fn record_failures(&mut self, errors: &Vec<SyncError>, now: u64)
        ensures
            final(self)@ == failures_recorded(old(self)@, error_views(errors@), now),
    {
        let mut i: usize = 0;
        while i < errors.len()
            invariant
                i <= errors.len(),
                self@ == failures_recorded(old(self)@, error_views(errors@.take(i as int)), now),
            decreases errors.len() - i,
        {
            self.record_failure(errors[i].clone(), now);
            proof {
                let done = error_views(errors@.take(i + 1));
                assert(done.drop_last() =~= error_views(errors@.take(i as int)));
                assert(done.last() == errors@[i as int]@);
            }
            i = i + 1;
        }
        assert(errors@.take(errors.len() as int) =~= errors@);
    }

    /// The status.
    pub fn status(&self) -> (status: Status)
        ensures
            status == self@.status,
    {
        self.record.status
    }

    /// How many cycles have completed.
    pub fn event_counter(&self) -> (counter: u32)
        ensures
            counter == self@.event_counter,
    {
        self.record.event_counter
    }

    /// How many failures the log holds: never more than
    /// `ERROR_LOG_CAPACITY`.
    pub fn error_count(&self) -> (count: usize)
        ensures
            count == self@.error_log.len(),
            count <= ERROR_LOG_CAPACITY,
    {
        proof {
            use_type_invariant(self);
        }
        self.record.error_log.len()
    }

    /// A copy of the record as it stands, to be read or written out.
    pub fn snapshot(&self) -> (record: StateRecord)
        ensures
            record@ == self@,
            within_capacity(record@),
    {
        proof {
            use_type_invariant(self);
        }
        StateRecord {
            status: self.record.status,
            event_counter: self.record.event_counter,
            description: self.record.description.clone(),
            error_log: clone_errors(&self.record.error_log),
            last_updated: self.record.last_updated,
            started_at: self.record.started_at,
            pid: self.record.pid,
        }
    }
}

/// Marks the record as updated at `now` and hands out the copy that is to
/// be written out.
pub fn update_state_wrapper(state: &mut DaemonState, now: u64) -> (record: StateRecord)
    ensures
        final(state)@ == refreshed(old(state)@, now),
        record@ == final(state)@,
        within_capacity(record@),
{
    state.touch(now);
    state.snapshot()
}

/// Whatever the record held before, after a failure is recorded its log is
/// within capacity.
pub proof fn law_log_bounded(state: StateView, error: ErrorView, now: u64)
    ensures
        within_capacity(failure_recorded(state, error, now)),
{
}

/// A record within capacity stays within capacity through any sequence of
/// failures.
pub proof fn law_log_bounded_throughout(state: StateView, errors: Seq<ErrorView>, now: u64)
    requires
        within_capacity(state),
    ensures
        within_capacity(failures_recorded(state, errors, now)),
    decreases errors.len(),
{
    if errors.len() > 0 {
        law_log_bounded_throughout(state, errors.drop_last(), now);
    }
}

/// After any sequence of failures the log holds the newest entries of what
/// it held before followed by those failures, oldest first.
pub proof fn law_log_keeps_newest(state: StateView, errors: Seq<ErrorView>, now: u64)
    requires
        within_capacity(state),
    ensures
        failures_recorded(state, errors, now).error_log == newest(
            state.error_log + errors,
            ERROR_LOG_CAPACITY as nat,
        ),
    decreases errors.len(),
{
    if errors.len() == 0 {
        assert(state.error_log + errors =~= state.error_log);
    } else {
        law_log_keeps_newest(state, errors.drop_last(), now);
        let before = state.error_log + errors.drop_last();
        assert(before.push(errors.last()) =~= state.error_log + errors);
        assert(newest(newest(before, ERROR_LOG_CAPACITY as nat).push(errors.last()), ERROR_LOG_CAPACITY as nat)
            =~= newest(before.push(errors.last()), ERROR_LOG_CAPACITY as nat));
    }
}

/// Six failures recorded into an empty log leave the second to the sixth:
/// the first is gone, the sixth is the newest entry.
pub proof fn law_sixth_failure_evicts_first(
    state: StateView,
    e1: ErrorView,
    e2: ErrorView,
    e3: ErrorView,
    e4: ErrorView,
    e5: ErrorView,
    e6: ErrorView,
    now: u64,
)
    requires
        state.error_log.len() == 0,
    ensures
        failures_recorded(state, seq![e1, e2, e3, e4, e5, e6], now).error_log == seq![
            e2,
            e3,
            e4,
            e5,
            e6,
        ],
{
    let all = seq![e1, e2, e3, e4, e5, e6];
    law_log_keeps_newest(state, all, now);
    assert(state.error_log + all =~= all);
    assert(newest(all, ERROR_LOG_CAPACITY as nat) =~= seq![e2, e3, e4, e5, e6]);
}

/// Recording a failure leaves the counter of completed cycles as it was.
pub proof fn law_failure_keeps_counter(state: StateView, errors: Seq<ErrorView>, now: u64)
    ensures
        failures_recorded(state, errors, now).event_counter == state.event_counter,
        failures_recorded(state, errors, now).status == state.status,
    decreases errors.len(),
{
    if errors.len() > 0 {
        law_failure_keeps_counter(state, errors.drop_last(), now);
    }
}

} // verus!
