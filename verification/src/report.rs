//! How the end of a cycle enters the daemon's record.
//!
//! A cycle that completed, whether it changed anything or not, counts as
//! one event. A cycle that failed counts as none; its failures enter the
//! log.

use crate::state::{
    counted, failures_recorded, law_failure_keeps_counter, refreshed, success_recorded,
    DaemonState, StateView,
};
use crate::target::{git_project_id, RepoTarget};
use crate::worker::{OutcomeView, SyncOutcome};
use vstd::prelude::*;
use vstd::string::StringExecFns;

verus! {

/// What the record says after a cycle on the working copy `id` completed.
pub open spec fn success_note(id: Seq<char>) -> Seq<char> {
    "Updated: "@ + id
}

/// Whether a cycle completed.
pub open spec fn completed(outcome: OutcomeView) -> bool {
    !(outcome is Failed)
}

/// The record after the cycle on the working copy `id` ended as
/// `outcome`. Whatever the outcome, the record is as of `now`.
pub open spec fn outcome_recorded(
    state: StateView,
    id: Seq<char>,
    outcome: OutcomeView,
    now: u64,
) -> StateView {
    match outcome {
        OutcomeView::Failed(errors) => refreshed(failures_recorded(state, errors, now), now),
        _ => success_recorded(state, success_note(id), now),
    }
}

/// The record after the cycles `reports` ended, each named by its working
/// copy, in the order in which they were recorded.
pub open spec fn all_recorded(
    state: StateView,
    reports: Seq<(Seq<char>, OutcomeView)>,
    now: u64,
) -> StateView
    decreases reports.len(),
{
    if reports.len() == 0 {
        state
    } else {
        outcome_recorded(
            all_recorded(state, reports.drop_last(), now),
            reports.last().0,
            reports.last().1,
            now,
        )
    }
}

/// How many of the cycles `reports` completed.
pub open spec fn completions(reports: Seq<(Seq<char>, OutcomeView)>) -> nat
    decreases reports.len(),
{
    if reports.len() == 0 {
        0
    } else {
        completions(reports.drop_last()) + if completed(reports.last().1) {
            1nat
        } else {
            0nat
        }
    }
}

/// Enters the end of the cycle on the working copy `id` into the record.
pub fn record_outcome(state: &mut DaemonState, id: &str, outcome: &SyncOutcome, now: u64)
    ensures
        final(state)@ == outcome_recorded(old(state)@, id@, outcome@, now),
{
    match outcome {
        SyncOutcome::Failed(errors) => {
            state.record_failures(errors, now);
            state.touch(now);
        },
        _ => {
            let note = "Updated: ".to_owned().concat(id);
            state.record_success(note.as_str(), now);
        },
    }
}

/// Enters the end of a cycle of `target` into the record.
pub fn report(state: &mut DaemonState, target: &RepoTarget, outcome: &SyncOutcome, now: u64)
    ensures
        final(state)@ == outcome_recorded(
            old(state)@,
            git_project_id(target@.owner, target@.repo, target@.branch),
            outcome@,
            now,
        ),
{
    let id = target.project_id();
    record_outcome(state, id.as_str(), outcome, now);
}

/// Every cycle that completed counts, whatever else failed: after any
/// sequence of cycles of any workers the counter has gone up by the number
/// of cycles that completed, those that changed nothing included. A
/// failing worker takes nothing from the others. (The counter stops at the
/// largest value it can hold.)
pub proof fn law_isolation(state: StateView, reports: Seq<(Seq<char>, OutcomeView)>, now: u64)
    ensures
        all_recorded(state, reports, now).event_counter == if state.event_counter + completions(
            reports,
        ) <= u32::MAX {
            state.event_counter + completions(reports)
        } else {
            u32::MAX as int
        },
    decreases reports.len(),
{
    if reports.len() > 0 {
        law_isolation(state, reports.drop_last(), now);
        let before = all_recorded(state, reports.drop_last(), now);
        match reports.last().1 {
            OutcomeView::Failed(errors) => {
                law_failure_keeps_counter(before, errors, now);
            },
            _ => {},
        }
    }
}

/// A cycle that ends as cloned, as up to date or as updated raises the
/// counter by one, by exactly one wherever the counter can still rise,
/// and leaves the log as it was.
pub proof fn law_completed_cycle_counts(
    state: StateView,
    id: Seq<char>,
    outcome: OutcomeView,
    now: u64,
)
    requires
        completed(outcome),
    ensures
        outcome_recorded(state, id, outcome, now).event_counter == counted(state.event_counter),
        state.event_counter < u32::MAX ==> outcome_recorded(state, id, outcome, now).event_counter
            == state.event_counter + 1,
        outcome_recorded(state, id, outcome, now).error_log == state.error_log,
        outcome_recorded(state, id, outcome, now).status == state.status,
{
}

} // verus!
