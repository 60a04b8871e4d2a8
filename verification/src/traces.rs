//! What holds of a worker over whole sequences of events.

use crate::command::{completion, git, ResultView};
use crate::error::{ErrorKind, ErrorView};
use crate::git::{
    fetch_command, fetch_request, local_commit_command, remote_ahead, remote_commit_command,
    safe_query, safe_registered, safe_registration, safe_step, SafeStepView,
};
use crate::pull::{checkout_command, pull_command, pull_result, url_with_token};
use crate::retry::{
    after_attempt, attempt_started, failure_noted, fresh, uses_a_try, RetryView, ATTEMPT_CEILING,
    RETRY_DELAY_SECONDS,
};
use crate::target::{project_path, remote_url};
use crate::text::some_line_reads;
use crate::worker::{
    checked_out, existing_repo_step, failed, fetch_started, fetched, finished, listed,
    local_read, making, new_repo_step, probed, pull_started, pulled, registered, remote_read,
    repo_worker, running, service_user, troubled, worker_step, Action, ActionView, Event,
    EventView, OutcomeView, Phase, Stage, Worker, WorkerView,
};
use vstd::prelude::*;

verus! {

/// The worker after the events `events`, one after the other, and the
/// actions it asked for, in order.
pub open spec fn run(w: WorkerView, events: Seq<EventView>) -> (WorkerView, Seq<ActionView>)
    decreases events.len(),
{
    if events.len() == 0 {
        (w, Seq::empty())
    } else {
        let before = run(w, events.drop_last());
        let step = worker_step(before.0, events.last());
        (step.0, before.1.push(step.1))
    }
}

/// The views of a list of events, in order.
pub open spec fn event_views(events: Seq<Event>) -> Seq<EventView> {
    events.map_values(|e: Event| e@)
}

/// The views of a list of actions, in order.
pub open spec fn action_views(actions: Seq<Action>) -> Seq<ActionView> {
    actions.map_values(|a: Action| a@)
}

/// Tells a worker the events `events`, one after the other, and collects
/// the actions it asks for.
pub fn replay(worker: &mut Worker, events: &Vec<Event>) -> (actions: Vec<Action>)
    ensures
        (final(worker)@, action_views(actions@)) == run(old(worker)@, event_views(events@)),
{
    let mut actions: Vec<Action> = Vec::new();
    let mut i: usize = 0;
    assert(event_views(events@.take(0)) =~= Seq::empty());
    assert(action_views(actions@) =~= Seq::empty());
    while i < events.len()
        invariant
            i <= events.len(),
            (worker@, action_views(actions@)) == run(
                old(worker)@,
                event_views(events@.take(i as int)),
            ),
        decreases events.len() - i,
    {
        let ghost before = action_views(actions@);
        let action = repo_worker(worker, events[i].clone());
        actions.push(action);
        proof {
            let done = event_views(events@.take(i + 1));
            assert(done.drop_last() =~= event_views(events@.take(i as int)));
            assert(done.last() == events@[i as int]@);
            assert(action_views(actions@) =~= before.push(action@));
        }
        i = i + 1;
    }
    assert(events@.take(events.len() as int) =~= events@);
    actions
}

/// How many pulls may still be started.
pub open spec fn pulls_left(retry: RetryView) -> nat {
    if retry.attempts < ATTEMPT_CEILING {
        (ATTEMPT_CEILING - retry.attempts) as nat
    } else {
        0
    }
}

/// An upper bound on the steps a worker takes before its cycle is over.
pub open spec fn steps_left(w: WorkerView) -> nat {
    match w.phase {
        Phase::Idle => 0,
        Phase::Probing => 5 * ATTEMPT_CEILING as nat + 5,
        Phase::Cloning => 6,
        Phase::Owning => 5,
        Phase::Listing(Stage::Fresh) => 4,
        Phase::Registering(Stage::Fresh) => 3,
        Phase::Fetching(Stage::Fresh) => 2,
        Phase::CheckingOut(_) => 1,
        Phase::Listing(Stage::Existing) => 5 * ATTEMPT_CEILING as nat + 4,
        Phase::Registering(Stage::Existing) => 5 * ATTEMPT_CEILING as nat + 3,
        Phase::Fetching(Stage::Existing) => 5 * ATTEMPT_CEILING as nat + 2,
        Phase::ReadingLocal => 5 * ATTEMPT_CEILING as nat + 1,
        Phase::ReadingRemote => 5 * ATTEMPT_CEILING as nat,
        Phase::Pulling => 5 * pulls_left(w.retry) + 4,
        Phase::Listing(Stage::Repair) => 5 * pulls_left(w.retry) + 3,
        Phase::Registering(Stage::Repair) => 5 * pulls_left(w.retry) + 2,
        Phase::Fetching(Stage::Repair) => 5 * pulls_left(w.retry) + 1,
        Phase::Pausing => 5 * pulls_left(w.retry) + 1,
    }
}

/// The steps left to a worker that waits for the fetch made on behalf of
/// `stage`.
spec fn steps_at_fetch(w: WorkerView, stage: Stage) -> nat {
    steps_left(WorkerView { phase: Phase::Fetching(stage), ..w })
}

/// Whether the step from `w` to `r` keeps what a worker was started with
/// and the place of its working copy, reports exactly when the cycle is
/// over, and, where the cycle goes on, leaves fewer than `bound` steps.
pub open spec fn proceeds(w: WorkerView, r: (WorkerView, ActionView), bound: nat) -> bool {
    &&& r.0.target == w.target
    &&& r.0.token == w.token
    &&& r.0.header == w.header
    &&& r.0.path == w.path
    &&& (r.1 is Report <==> r.0.phase == Phase::Idle)
    &&& (r.0.phase == Phase::Idle || steps_left(r.0) < bound)
}

proof fn lemma_pull_started(w: WorkerView)
    ensures
        proceeds(w, pull_started(w), 5 * pulls_left(w.retry)),
{
}

proof fn lemma_troubled(w: WorkerView, stage: Stage, e: ErrorView)
    ensures
        proceeds(w, troubled(w, stage, e), steps_at_fetch(w, stage)),
{
    if stage == Stage::Repair {
        lemma_pull_started(WorkerView { retry: failure_noted(w.retry, e), ..w });
    }
}

proof fn lemma_fetch_started(w: WorkerView, stage: Stage)
    ensures
        proceeds(w, fetch_started(w, stage), steps_at_fetch(w, stage) + 1),
{
    match fetch_request(w.token, w.path) {
        Ok(command) => {},
        Err(e) => {
            lemma_troubled(w, stage, e);
        },
    }
}

proof fn lemma_listed(w: WorkerView, stage: Stage, result: ResultView)
    ensures
        proceeds(w, listed(w, stage, result), steps_at_fetch(w, stage) + 2),
{
    match safe_step(w.path, result) {
        SafeStepView::AlreadySafe => {
            lemma_fetch_started(w, stage);
        },
        SafeStepView::Register(command) => {},
        SafeStepView::Failed(e) => {
            lemma_troubled(w, stage, e);
        },
    }
}

proof fn lemma_registered(w: WorkerView, stage: Stage, result: ResultView)
    ensures
        proceeds(w, registered(w, stage, result), steps_at_fetch(w, stage) + 1),
{
    match safe_registered(w.path, result) {
        Ok(()) => {
            lemma_fetch_started(w, stage);
        },
        Err(e) => {
            lemma_troubled(w, stage, e);
        },
    }
}

proof fn lemma_fetched(w: WorkerView, stage: Stage, result: ResultView)
    ensures
        proceeds(w, fetched(w, stage, result), steps_at_fetch(w, stage)),
{
    match completion("git fetch failed: "@, result) {
        Ok(()) => {
            if stage == Stage::Repair {
                lemma_pull_started(w);
            }
        },
        Err(e) => {
            lemma_troubled(w, stage, e);
        },
    }
}

proof fn lemma_checked_out(w: WorkerView, stage: Stage, result: ResultView)
    ensures
        proceeds(w, checked_out(w, stage, result), 0),
{
}

proof fn lemma_local_read(w: WorkerView, result: ResultView)
    ensures
        proceeds(w, local_read(w, result), 5 * ATTEMPT_CEILING as nat + 1),
{
}

proof fn lemma_remote_read(w: WorkerView, result: ResultView)
    ensures
        proceeds(w, remote_read(w, result), 5 * ATTEMPT_CEILING as nat),
{
    lemma_pull_started(WorkerView { retry: fresh(), ..w });
}

proof fn lemma_pulled(w: WorkerView, result: ResultView)
    ensures
        proceeds(w, pulled(w, result), 5 * pulls_left(w.retry) + 4),
{
    let attempt = pull_result(w.target.branch, result);
    let after = after_attempt(w.retry, attempt);
    assert(after.0.attempts == w.retry.attempts);
}

proof fn lemma_new_repo_step(w: WorkerView, e: EventView)
    requires
        making(w.phase),
    ensures
        proceeds(w, new_repo_step(w, e), steps_left(w)),
{
    match (w.phase, e) {
        (Phase::Listing(stage), EventView::Ran { result }) => {
            lemma_listed(w, stage, result);
        },
        (Phase::Registering(stage), EventView::Ran { result }) => {
            lemma_registered(w, stage, result);
        },
        (Phase::Fetching(stage), EventView::Ran { result }) => {
            lemma_fetched(w, stage, result);
        },
        (Phase::CheckingOut(stage), EventView::Ran { result }) => {
            lemma_checked_out(w, stage, result);
        },
        _ => {},
    }
}

proof fn lemma_existing_repo_step(w: WorkerView, e: EventView)
    requires
        !making(w.phase),
        w.phase != Phase::Idle,
        w.phase != Phase::Probing,
    ensures
        proceeds(w, existing_repo_step(w, e), steps_left(w)),
{
    match (w.phase, e) {
        (Phase::Listing(stage), EventView::Ran { result }) => {
            lemma_listed(w, stage, result);
        },
        (Phase::Registering(stage), EventView::Ran { result }) => {
            lemma_registered(w, stage, result);
        },
        (Phase::Fetching(stage), EventView::Ran { result }) => {
            lemma_fetched(w, stage, result);
        },
        (Phase::ReadingLocal, EventView::Ran { result }) => {
            lemma_local_read(w, result);
        },
        (Phase::ReadingRemote, EventView::Ran { result }) => {
            lemma_remote_read(w, result);
        },
        (Phase::Pulling, EventView::Ran { result }) => {
            lemma_pulled(w, result);
        },
        (Phase::Pausing, EventView::Resumed) => {
            lemma_pull_started(w);
        },
        (Phase::CheckingOut(stage), EventView::Ran { result }) => {
            lemma_checked_out(w, stage, result);
        },
        _ => {},
    }
}

proof fn lemma_probed(w: WorkerView, exists: bool)
    ensures
        proceeds(w, probed(w, exists), 5 * ATTEMPT_CEILING as nat + 5),
{
}

/// A cycle never goes on for ever: whatever a worker in the middle of a
/// cycle is told, its cycle is over after the step or it is closer to its
/// end by the measure `steps_left`. The worker reports an outcome exactly
/// when the cycle is over, and keeps the target, the credentials and the
/// place it works at.
pub proof fn law_cycle_ends(w: WorkerView, e: EventView)
    requires
        w.phase != Phase::Idle,
    ensures
        proceeds(w, worker_step(w, e), steps_left(w)),
{
    reveal(worker_step);
    if w.phase == Phase::Probing {
        match e {
            EventView::Probed { exists } => {
                lemma_probed(w, exists);
            },
            _ => {},
        }
    } else if making(w.phase) {
        lemma_new_repo_step(w, e);
    } else {
        lemma_existing_repo_step(w, e);
    }
}

proof fn lemma_run_first(w: WorkerView, events: Seq<EventView>)
    requires
        events.len() > 0,
    ensures
        run(w, events) == ({
            let step = worker_step(w, events[0]);
            let rest = run(step.0, events.drop_first());
            (rest.0, seq![step.1] + rest.1)
        }),
    decreases events.len(),
{
    reveal_with_fuel(run, 2);
    let step = worker_step(w, events[0]);
    if events.len() == 1 {
        assert(events.drop_last() =~= Seq::<EventView>::empty());
        assert(events.drop_first() =~= Seq::<EventView>::empty());
        assert(Seq::<ActionView>::empty().push(step.1) =~= seq![step.1] + Seq::<
            ActionView,
        >::empty());
    } else {
        let shorter = events.drop_last();
        lemma_run_first(w, shorter);
        assert(shorter.drop_first() =~= events.drop_first().drop_last());
        let rest = run(step.0, shorter.drop_first());
        let last = worker_step(rest.0, events.last());
        assert((seq![step.1] + rest.1).push(last.1) =~= seq![step.1] + rest.1.push(last.1));
    }
}

/// A cycle is over after at most `steps_left` events: told that many
/// events or more, a worker in the middle of a cycle has reported the
/// outcome of the cycle by one of them.
pub proof fn law_cycle_is_bounded(w: WorkerView, events: Seq<EventView>)
    requires
        w.phase != Phase::Idle,
        events.len() >= steps_left(w),
    ensures
        exists|k: int|
            1 <= k <= events.len() && k <= steps_left(w) && (#[trigger] run(
                w,
                events.take(k),
            )).0.phase == Phase::Idle && run(w, events.take(k)).1.last() is Report,
    decreases steps_left(w),
{
    law_cycle_ends(w, events[0]);
    let step = worker_step(w, events[0]);
    lemma_run_first(w, events.take(1));
    assert(events.take(1).drop_first() =~= Seq::<EventView>::empty());
    if step.0.phase == Phase::Idle {
        assert(run(w, events.take(1)).1 =~= seq![step.1]);
        assert(run(w, events.take(1)).0.phase == Phase::Idle);
    } else {
        let rest = events.drop_first();
        law_cycle_is_bounded(step.0, rest);
        let k = choose|k: int|
            1 <= k <= rest.len() && k <= steps_left(step.0) && (#[trigger] run(
                step.0,
                rest.take(k),
            )).0.phase == Phase::Idle && run(step.0, rest.take(k)).1.last() is Report;
        lemma_run_first(w, events.take(k + 1));
        assert(events.take(k + 1).drop_first() =~= rest.take(k));
        let tail = run(step.0, rest.take(k));
        lemma_run_length(step.0, rest.take(k));
        assert((seq![step.1] + tail.1).last() == tail.1.last());
        assert(run(w, events.take(k + 1)).0.phase == Phase::Idle);
    }
}

proof fn lemma_run_length(w: WorkerView, events: Seq<EventView>)
    ensures
        run(w, events).1.len() == events.len(),
    decreases events.len(),
{
    if events.len() > 0 {
        lemma_run_length(w, events.drop_last());
    }
}

/// An idle worker answers the start of a cycle by looking for the place
/// derived from its target, and anything else by reporting a failure; it
/// keeps its target and its credentials either way.
pub proof fn law_cycle_begins(w: WorkerView, e: EventView)
    requires
        w.phase == Phase::Idle,
    ensures
        e is Begin ==> worker_step(w, e).1 == (ActionView::Probe { path: project_path(w.target) })
            && worker_step(w, e).0.phase == Phase::Probing,
        !(e is Begin) ==> worker_step(w, e).1 is Report && worker_step(w, e).0 == w,
        worker_step(w, e).0.target == w.target,
        worker_step(w, e).0.token == w.token,
        worker_step(w, e).0.header == w.header,
{
    reveal(worker_step);
}

proof fn lemma_run_more(w: WorkerView, events: Seq<EventView>, e: EventView)
    ensures
        run(w, events.push(e)) == ({
            let before = run(w, events);
            let step = worker_step(before.0, e);
            (step.0, before.1.push(step.1))
        }),
{
    assert(events.push(e).drop_last() =~= events);
}

/// Whether a listing of the trusted directories succeeded and names
/// `path`.
pub open spec fn lists(listing: ResultView, path: Seq<char>) -> bool {
    match listing {
        ResultView::Finished { success, stdout, stderr } => success && some_line_reads(
            stdout,
            path,
        ),
        ResultView::NotStarted { reason } => false,
    }
}

/// Whether a run succeeded.
pub open spec fn succeeded(result: ResultView) -> bool {
    match result {
        ResultView::Finished { success, stdout, stderr } => success,
        ResultView::NotStarted { reason } => false,
    }
}

/// The events of a cycle on a working copy that is there, trusted, and
/// fetched, up to the naming of the two commits.
pub open spec fn comparison_events(
    listing: ResultView,
    fetch: ResultView,
    local: ResultView,
    remote: ResultView,
) -> Seq<EventView> {
    seq![
        EventView::Begin,
        EventView::Probed { exists: true },
        EventView::Ran { result: listing },
        EventView::Ran { result: fetch },
        EventView::Ran { result: local },
        EventView::Ran { result: remote },
    ]
}

/// The actions of a cycle that finds the working copy of `w` up to date:
/// no pull and no checkout is among them.
pub open spec fn quiet_actions(w: WorkerView, token: Seq<char>) -> Seq<ActionView> {
    let path = project_path(w.target);
    seq![
        ActionView::Probe { path },
        ActionView::Run { command: safe_query() },
        ActionView::Run { command: fetch_command(token, path) },
        ActionView::Run { command: local_commit_command(path) },
        ActionView::Run { command: remote_commit_command(path, w.target.branch) },
        ActionView::Report { outcome: OutcomeView::UpToDate },
    ]
}

proof fn lemma_quiet_cycle(
    w: WorkerView,
    token: Seq<char>,
    listing: ResultView,
    fetch: ResultView,
    local: ResultView,
    remote: ResultView,
)
    requires
        w.phase == Phase::Idle,
        w.token == Some(token),
        lists(listing, project_path(w.target)),
        succeeded(fetch),
        remote_ahead(local, remote) == Ok::<bool, ErrorView>(false),
    ensures
        run(w, comparison_events(listing, fetch, local, remote)).1 == quiet_actions(w, token),
        run(w, comparison_events(listing, fetch, local, remote)).0.phase == Phase::Idle,
        run(w, comparison_events(listing, fetch, local, remote)).0.target == w.target,
        run(w, comparison_events(listing, fetch, local, remote)).0.token == w.token,
{
    reveal(worker_step);
    let e0 = Seq::<EventView>::empty();
    let e1 = e0.push(EventView::Begin);
    let e2 = e1.push(EventView::Probed { exists: true });
    let e3 = e2.push(EventView::Ran { result: listing });
    let e4 = e3.push(EventView::Ran { result: fetch });
    let e5 = e4.push(EventView::Ran { result: local });
    let e6 = e5.push(EventView::Ran { result: remote });
    lemma_run_more(w, e0, EventView::Begin);
    lemma_run_more(w, e1, EventView::Probed { exists: true });
    lemma_run_more(w, e2, EventView::Ran { result: listing });
    lemma_run_more(w, e3, EventView::Ran { result: fetch });
    lemma_run_more(w, e4, EventView::Ran { result: local });
    lemma_run_more(w, e5, EventView::Ran { result: remote });
    assert(e6 =~= comparison_events(listing, fetch, local, remote));
    assert(run(w, e1).0.phase == Phase::Probing);
    assert(run(w, e2).0.phase == Phase::Listing(Stage::Existing));
    assert(run(w, e3).0.phase == Phase::Fetching(Stage::Existing));
    assert(run(w, e4).0.phase == Phase::ReadingLocal);
    assert(run(w, e5).0.phase == Phase::ReadingRemote);
    assert(run(w, e6).1 =~= quiet_actions(w, token));
}

/// A cycle on a working copy that holds what the remote holds ends as up
/// to date and asks for no pull and no checkout; the next cycle, told the
/// same, does the same.
pub proof fn law_idempotence(
    w: WorkerView,
    token: Seq<char>,
    listing: ResultView,
    fetch: ResultView,
    local: ResultView,
    remote: ResultView,
)
    requires
        w.phase == Phase::Idle,
        w.token == Some(token),
        lists(listing, project_path(w.target)),
        succeeded(fetch),
        remote_ahead(local, remote) == Ok::<bool, ErrorView>(false),
    ensures
        ({
            let events = comparison_events(listing, fetch, local, remote);
            let first = run(w, events);
            let second = run(first.0, events);
            &&& first.1 == quiet_actions(w, token)
            &&& second.1 == quiet_actions(w, token)
            &&& first.0.phase == Phase::Idle
            &&& second.0.phase == Phase::Idle
        }),
{
    let events = comparison_events(listing, fetch, local, remote);
    lemma_quiet_cycle(w, token, listing, fetch, local, remote);
    let first = run(w, events);
    lemma_quiet_cycle(first.0, token, listing, fetch, local, remote);
}

/// The same holds of a working copy whose directory is not trusted yet:
/// the first cycle has it added to the trusted directories and ends as up
/// to date without a pull or a checkout, and the next cycle, which finds
/// the directory listed, adds nothing.
pub proof fn law_idempotence_after_registration(
    w: WorkerView,
    token: Seq<char>,
    unlisted: ResultView,
    registration: ResultView,
    listing: ResultView,
    fetch: ResultView,
    local: ResultView,
    remote: ResultView,
)
    requires
        w.phase == Phase::Idle,
        w.token == Some(token),
        unlisted is Finished,
        !lists(unlisted, project_path(w.target)),
        succeeded(registration),
        lists(listing, project_path(w.target)),
        succeeded(fetch),
        remote_ahead(local, remote) == Ok::<bool, ErrorView>(false),
    ensures
        ({
            let path = project_path(w.target);
            let first = run(
                w,
                seq![
                    EventView::Begin,
                    EventView::Probed { exists: true },
                    EventView::Ran { result: unlisted },
                    EventView::Ran { result: registration },
                    EventView::Ran { result: fetch },
                    EventView::Ran { result: local },
                    EventView::Ran { result: remote },
                ],
            );
            let second = run(first.0, comparison_events(listing, fetch, local, remote));
            &&& first.1 == seq![
                ActionView::Probe { path },
                ActionView::Run { command: safe_query() },
                ActionView::Run { command: safe_registration(path) },
                ActionView::Run { command: fetch_command(token, path) },
                ActionView::Run { command: local_commit_command(path) },
                ActionView::Run { command: remote_commit_command(path, w.target.branch) },
                ActionView::Report { outcome: OutcomeView::UpToDate },
            ]
            &&& second.1 == quiet_actions(w, token)
            &&& first.0.phase == Phase::Idle
            &&& second.0.phase == Phase::Idle
        }),
{
    reveal(worker_step);
    let path = project_path(w.target);
    let e0 = Seq::<EventView>::empty();
    let s1 = e0.push(EventView::Begin);
    let s2 = s1.push(EventView::Probed { exists: true });
    let s3 = s2.push(EventView::Ran { result: unlisted });
    let s4 = s3.push(EventView::Ran { result: registration });
    let s5 = s4.push(EventView::Ran { result: fetch });
    let s6 = s5.push(EventView::Ran { result: local });
    let s7 = s6.push(EventView::Ran { result: remote });
    lemma_run_more(w, e0, EventView::Begin);
    lemma_run_more(w, s1, EventView::Probed { exists: true });
    lemma_run_more(w, s2, EventView::Ran { result: unlisted });
    lemma_run_more(w, s3, EventView::Ran { result: registration });
    lemma_run_more(w, s4, EventView::Ran { result: fetch });
    lemma_run_more(w, s5, EventView::Ran { result: local });
    lemma_run_more(w, s6, EventView::Ran { result: remote });
    assert(run(w, s1).0.phase == Phase::Probing);
    assert(run(w, s2).0.phase == Phase::Listing(Stage::Existing));
    assert(run(w, s3).0.phase == Phase::Registering(Stage::Existing));
    assert(run(w, s4).0.phase == Phase::Fetching(Stage::Existing));
    assert(run(w, s5).0.phase == Phase::ReadingLocal);
    assert(run(w, s6).0.phase == Phase::ReadingRemote);
    assert(s7 =~= seq![
        EventView::Begin,
        EventView::Probed { exists: true },
        EventView::Ran { result: unlisted },
        EventView::Ran { result: registration },
        EventView::Ran { result: fetch },
        EventView::Ran { result: local },
        EventView::Ran { result: remote },
    ]);
    assert(run(w, s7).1 =~= seq![
        ActionView::Probe { path },
        ActionView::Run { command: safe_query() },
        ActionView::Run { command: safe_registration(path) },
        ActionView::Run { command: fetch_command(token, path) },
        ActionView::Run { command: local_commit_command(path) },
        ActionView::Run { command: remote_commit_command(path, w.target.branch) },
        ActionView::Report { outcome: OutcomeView::UpToDate },
    ]);
    lemma_quiet_cycle(run(w, s7).0, token, listing, fetch, local, remote);
}

/// A cycle in which a query for a commit exits with a failure is never
/// taken for up to date: it ends as failed, with the failure of the query,
/// and asks for no pull. For the remote branch that failure is
/// `BranchNotFound`.
pub proof fn law_failed_query_fails_the_cycle(
    w: WorkerView,
    local: ResultView,
    remote: ResultView,
    e: ErrorView,
)
    requires
        w.phase == Phase::ReadingLocal,
        local is Finished,
        remote is Finished,
        !succeeded(local) || !succeeded(remote),
        remote_ahead(local, remote) == Err::<bool, ErrorView>(e),
    ensures
        !succeeded(local) ==> worker_step(w, EventView::Ran { result: local }) == failed(
            w,
            seq![e],
        ),
        succeeded(local) ==> ({
            let asked = worker_step(w, EventView::Ran { result: local });
            &&& asked.1 == ActionView::Run {
                command: remote_commit_command(w.path, w.target.branch),
            }
            &&& worker_step(asked.0, EventView::Ran { result: remote }) == failed(
                asked.0,
                seq![e],
            )
            &&& e.kind == ErrorKind::BranchNotFound
        }),
{
    reveal(worker_step);
}

/// A pull that fails three times with failures that use up a try is
/// started three times in all, the second and the third time after a
/// pause of `RETRY_DELAY_SECONDS`, and the cycle then fails once, with the
/// three failures in the order they came.
pub proof fn law_exhausted_pull_fails_once(
    w: WorkerView,
    header: Seq<char>,
    r1: ResultView,
    r2: ResultView,
    r3: ResultView,
    e1: ErrorView,
    e2: ErrorView,
    e3: ErrorView,
)
    requires
        w.phase == Phase::Pulling,
        w.retry == attempt_started(fresh()),
        w.header == Some(header),
        pull_result(w.target.branch, r1) == Err::<bool, ErrorView>(e1),
        pull_result(w.target.branch, r2) == Err::<bool, ErrorView>(e2),
        pull_result(w.target.branch, r3) == Err::<bool, ErrorView>(e3),
        uses_a_try(e1),
        uses_a_try(e2),
        uses_a_try(e3),
    ensures
        run(
            w,
            seq![
                EventView::Ran { result: r1 },
                EventView::Resumed,
                EventView::Ran { result: r2 },
                EventView::Resumed,
                EventView::Ran { result: r3 },
            ],
        ).1 == seq![
            ActionView::Pause { seconds: RETRY_DELAY_SECONDS },
            ActionView::Run { command: pull_command(header, w.path, w.target.branch) },
            ActionView::Pause { seconds: RETRY_DELAY_SECONDS },
            ActionView::Run { command: pull_command(header, w.path, w.target.branch) },
            ActionView::Report { outcome: OutcomeView::Failed(seq![e1, e2, e3]) },
        ],
{
    reveal(worker_step);
    let e0 = Seq::<EventView>::empty();
    let s1 = e0.push(EventView::Ran { result: r1 });
    let s2 = s1.push(EventView::Resumed);
    let s3 = s2.push(EventView::Ran { result: r2 });
    let s4 = s3.push(EventView::Resumed);
    let s5 = s4.push(EventView::Ran { result: r3 });
    lemma_run_more(w, e0, EventView::Ran { result: r1 });
    lemma_run_more(w, s1, EventView::Resumed);
    lemma_run_more(w, s2, EventView::Ran { result: r2 });
    lemma_run_more(w, s3, EventView::Resumed);
    lemma_run_more(w, s4, EventView::Ran { result: r3 });
    assert(run(w, s1).0.phase == Phase::Pausing);
    assert(run(w, s1).0.retry.errors =~= seq![e1]);
    assert(run(w, s2).0.phase == Phase::Pulling);
    assert(run(w, s3).0.phase == Phase::Pausing);
    assert(run(w, s3).0.retry.errors =~= seq![e1, e2]);
    assert(run(w, s4).0.phase == Phase::Pulling);
    assert(run(w, s4).0.retry.failures == 2);
    let last = after_attempt(run(w, s4).0.retry, Err(e3));
    assert(last.0.errors =~= seq![e1, e2, e3]);
    assert(s5 =~= seq![
        EventView::Ran { result: r1 },
        EventView::Resumed,
        EventView::Ran { result: r2 },
        EventView::Resumed,
        EventView::Ran { result: r3 },
    ]);
    assert(run(w, s5).1 =~= seq![
        ActionView::Pause { seconds: RETRY_DELAY_SECONDS },
        ActionView::Run { command: pull_command(header, w.path, w.target.branch) },
        ActionView::Pause { seconds: RETRY_DELAY_SECONDS },
        ActionView::Run { command: pull_command(header, w.path, w.target.branch) },
        ActionView::Report { outcome: OutcomeView::Failed(seq![e1, e2, e3]) },
    ]);
}

/// A pull that is refused because the directory is not trusted is tried
/// again once the directory is trusted and fetched. Where that pull
/// succeeds the branch is checked out and the cycle ends as updated or as
/// up to date, by what the pull brought, and no try has been used up.
pub proof fn law_refused_pull_is_remedied(
    w: WorkerView,
    token: Seq<char>,
    header: Seq<char>,
    refused: ResultView,
    refusal: ErrorView,
    listing: ResultView,
    fetch: ResultView,
    pull: ResultView,
    changed: bool,
    checkout: ResultView,
)
    requires
        w.phase == Phase::Pulling,
        w.retry == attempt_started(fresh()),
        w.token == Some(token),
        w.header == Some(header),
        pull_result(w.target.branch, refused) == Err::<bool, ErrorView>(refusal),
        refusal.kind == ErrorKind::UnsafeDirectory,
        lists(listing, w.path),
        succeeded(fetch),
        pull_result(w.target.branch, pull) == Ok::<bool, ErrorView>(changed),
        succeeded(checkout),
    ensures
        ({
            let end = run(
                w,
                seq![
                    EventView::Ran { result: refused },
                    EventView::Ran { result: listing },
                    EventView::Ran { result: fetch },
                    EventView::Ran { result: pull },
                    EventView::Ran { result: checkout },
                ],
            );
            &&& end.1 == seq![
                ActionView::Run { command: safe_query() },
                ActionView::Run { command: fetch_command(token, w.path) },
                ActionView::Run { command: pull_command(header, w.path, w.target.branch) },
                ActionView::Run { command: checkout_command(w.path, w.target.branch) },
                ActionView::Report {
                    outcome: if changed {
                        OutcomeView::Updated
                    } else {
                        OutcomeView::UpToDate
                    },
                },
            ]
            &&& end.0.retry.failures == 0
            &&& end.0.phase == Phase::Idle
        }),
{
    reveal(worker_step);
    let e0 = Seq::<EventView>::empty();
    let s1 = e0.push(EventView::Ran { result: refused });
    let s2 = s1.push(EventView::Ran { result: listing });
    let s3 = s2.push(EventView::Ran { result: fetch });
    let s4 = s3.push(EventView::Ran { result: pull });
    let s5 = s4.push(EventView::Ran { result: checkout });
    lemma_run_more(w, e0, EventView::Ran { result: refused });
    lemma_run_more(w, s1, EventView::Ran { result: listing });
    lemma_run_more(w, s2, EventView::Ran { result: fetch });
    lemma_run_more(w, s3, EventView::Ran { result: pull });
    lemma_run_more(w, s4, EventView::Ran { result: checkout });
    assert(run(w, s1).0.phase == Phase::Listing(Stage::Repair));
    assert(run(w, s2).0.phase == Phase::Fetching(Stage::Repair));
    assert(run(w, s3).0.phase == Phase::Pulling);
    assert(run(w, s4).0.phase == Phase::CheckingOut(Stage::Existing));
    assert(run(w, s4).0.changed == changed);
    assert(s5 =~= seq![
        EventView::Ran { result: refused },
        EventView::Ran { result: listing },
        EventView::Ran { result: fetch },
        EventView::Ran { result: pull },
        EventView::Ran { result: checkout },
    ]);
    assert(run(w, s5).1 =~= seq![
        ActionView::Run { command: safe_query() },
        ActionView::Run { command: fetch_command(token, w.path) },
        ActionView::Run { command: pull_command(header, w.path, w.target.branch) },
        ActionView::Run { command: checkout_command(w.path, w.target.branch) },
        ActionView::Report {
            outcome: if changed {
                OutcomeView::Updated
            } else {
                OutcomeView::UpToDate
            },
        },
    ]);
}

proof fn lemma_step_begin(w: WorkerView)
    requires
        w.phase == Phase::Idle,
    ensures
        worker_step(w, EventView::Begin).1 == (ActionView::Probe { path: project_path(w.target) }),
        worker_step(w, EventView::Begin).0.phase == Phase::Probing,
        worker_step(w, EventView::Begin).0.path == project_path(w.target),
        worker_step(w, EventView::Begin).0.token == w.token,
        worker_step(w, EventView::Begin).0.target == w.target,
{
    reveal(worker_step);
}

proof fn lemma_step_absent(w: WorkerView, token: Seq<char>)
    requires
        w.phase == Phase::Probing,
        w.token == Some(token),
    ensures
        worker_step(w, EventView::Probed { exists: false }) == running(
            w,
            Phase::Cloning,
            git(seq!["clone"@, url_with_token(remote_url(w.target), token), w.path]),
        ),
{
    reveal(worker_step);
}

proof fn lemma_step_cloned(w: WorkerView, clone: ResultView)
    requires
        w.phase == Phase::Cloning,
        succeeded(clone),
    ensures
        worker_step(w, EventView::Ran { result: clone }) == (
            WorkerView { phase: Phase::Owning, ..w },
            ActionView::Own { path: w.path, user: service_user() },
        ),
{
    reveal(worker_step);
}

proof fn lemma_step_owned(w: WorkerView)
    requires
        w.phase == Phase::Owning,
    ensures
        worker_step(w, EventView::Owned { failure: None }) == running(
            w,
            Phase::Listing(Stage::Fresh),
            safe_query(),
        ),
{
    reveal(worker_step);
}

proof fn lemma_step_unlisted(w: WorkerView, stage: Stage, listing: ResultView)
    requires
        w.phase == Phase::Listing(stage),
        listing is Finished,
        !lists(listing, w.path),
    ensures
        worker_step(w, EventView::Ran { result: listing }) == running(
            w,
            Phase::Registering(stage),
            safe_registration(w.path),
        ),
{
    reveal(worker_step);
}

proof fn lemma_step_registered(
    w: WorkerView,
    stage: Stage,
    registration: ResultView,
    token: Seq<char>,
)
    requires
        w.phase == Phase::Registering(stage),
        succeeded(registration),
        w.token == Some(token),
    ensures
        worker_step(w, EventView::Ran { result: registration }) == running(
            w,
            Phase::Fetching(stage),
            fetch_command(token, w.path),
        ),
{
    reveal(worker_step);
}

proof fn lemma_step_fetched_fresh(w: WorkerView, fetch: ResultView)
    requires
        w.phase == Phase::Fetching(Stage::Fresh),
        succeeded(fetch),
    ensures
        worker_step(w, EventView::Ran { result: fetch }) == running(
            w,
            Phase::CheckingOut(Stage::Fresh),
            checkout_command(w.path, w.target.branch),
        ),
{
    reveal(worker_step);
}

proof fn lemma_step_checked_out_fresh(w: WorkerView, checkout: ResultView)
    requires
        w.phase == Phase::CheckingOut(Stage::Fresh),
        succeeded(checkout),
    ensures
        worker_step(w, EventView::Ran { result: checkout }) == finished(w, OutcomeView::Cloned),
{
    reveal(worker_step);
}

/// A cycle that finds no working copy clones the target, hands the new
/// directory over to the service user, has it trusted, fetches, checks
/// the branch out and ends as cloned.
pub proof fn law_missing_copy_is_cloned(
    w: WorkerView,
    token: Seq<char>,
    clone: ResultView,
    listing: ResultView,
    registration: ResultView,
    fetch: ResultView,
    checkout: ResultView,
)
    requires
        w.phase == Phase::Idle,
        w.token == Some(token),
        succeeded(clone),
        listing is Finished,
        !lists(listing, project_path(w.target)),
        succeeded(registration),
        succeeded(fetch),
        succeeded(checkout),
    ensures
        ({
            let path = project_path(w.target);
            let end = run(
                w,
                seq![
                    EventView::Begin,
                    EventView::Probed { exists: false },
                    EventView::Ran { result: clone },
                    EventView::Owned { failure: None },
                    EventView::Ran { result: listing },
                    EventView::Ran { result: registration },
                    EventView::Ran { result: fetch },
                    EventView::Ran { result: checkout },
                ],
            );
            &&& end.1 == seq![
                ActionView::Probe { path },
                ActionView::Run {
                    command: git(
                        seq!["clone"@, url_with_token(remote_url(w.target), token), path],
                    ),
                },
                ActionView::Own { path, user: service_user() },
                ActionView::Run { command: safe_query() },
                ActionView::Run { command: safe_registration(path) },
                ActionView::Run { command: fetch_command(token, path) },
                ActionView::Run { command: checkout_command(path, w.target.branch) },
                ActionView::Report { outcome: OutcomeView::Cloned },
            ]
            &&& end.0.phase == Phase::Idle
        }),
{
    let path = project_path(w.target);
    let e0 = Seq::<EventView>::empty();
    let s1 = e0.push(EventView::Begin);
    let s2 = s1.push(EventView::Probed { exists: false });
    let s3 = s2.push(EventView::Ran { result: clone });
    let s4 = s3.push(EventView::Owned { failure: None });
    let s5 = s4.push(EventView::Ran { result: listing });
    let s6 = s5.push(EventView::Ran { result: registration });
    let s7 = s6.push(EventView::Ran { result: fetch });
    let s8 = s7.push(EventView::Ran { result: checkout });
    let a1 = ActionView::Probe { path };
    let a2 = ActionView::Run {
        command: git(seq!["clone"@, url_with_token(remote_url(w.target), token), path]),
    };
    let a3 = ActionView::Own { path, user: service_user() };
    let a4 = ActionView::Run { command: safe_query() };
    let a5 = ActionView::Run { command: safe_registration(path) };
    let a6 = ActionView::Run { command: fetch_command(token, path) };
    let a7 = ActionView::Run { command: checkout_command(path, w.target.branch) };
    let a8 = ActionView::Report { outcome: OutcomeView::Cloned };
    lemma_run_more(w, e0, EventView::Begin);
    lemma_step_begin(w);
    let r1 = run(w, s1);
    assert(r1.1 =~= seq![a1]);
    lemma_run_more(w, s1, EventView::Probed { exists: false });
    lemma_step_absent(r1.0, token);
    let r2 = run(w, s2);
    assert(r2.1 =~= seq![a1, a2]);
    lemma_run_more(w, s2, EventView::Ran { result: clone });
    lemma_step_cloned(r2.0, clone);
    let r3 = run(w, s3);
    assert(r3.1 =~= seq![a1, a2, a3]);
    lemma_run_more(w, s3, EventView::Owned { failure: None });
    lemma_step_owned(r3.0);
    let r4 = run(w, s4);
    assert(r4.1 =~= seq![a1, a2, a3, a4]);
    lemma_run_more(w, s4, EventView::Ran { result: listing });
    lemma_step_unlisted(r4.0, Stage::Fresh, listing);
    let r5 = run(w, s5);
    assert(r5.1 =~= seq![a1, a2, a3, a4, a5]);
    lemma_run_more(w, s5, EventView::Ran { result: registration });
    lemma_step_registered(r5.0, Stage::Fresh, registration, token);
    let r6 = run(w, s6);
    assert(r6.1 =~= seq![a1, a2, a3, a4, a5, a6]);
    lemma_run_more(w, s6, EventView::Ran { result: fetch });
    lemma_step_fetched_fresh(r6.0, fetch);
    let r7 = run(w, s7);
    assert(r7.1 =~= seq![a1, a2, a3, a4, a5, a6, a7]);
    lemma_run_more(w, s7, EventView::Ran { result: checkout });
    lemma_step_checked_out_fresh(r7.0, checkout);
    assert(s8 =~= seq![
        EventView::Begin,
        EventView::Probed { exists: false },
        EventView::Ran { result: clone },
        EventView::Owned { failure: None },
        EventView::Ran { result: listing },
        EventView::Ran { result: registration },
        EventView::Ran { result: fetch },
        EventView::Ran { result: checkout },
    ]);
    assert(run(w, s8).1 =~= seq![a1, a2, a3, a4, a5, a6, a7, a8]);
    assert(s8 =~= seq![
        EventView::Begin,
        EventView::Probed { exists: false },
        EventView::Ran { result: clone },
        EventView::Owned { failure: None },
        EventView::Ran { result: listing },
        EventView::Ran { result: registration },
        EventView::Ran { result: fetch },
        EventView::Ran { result: checkout },
    ]);
    assert(run(w, s8).1 =~= seq![
        ActionView::Probe { path },
        ActionView::Run {
            command: git(seq!["clone"@, url_with_token(remote_url(w.target), token), path]),
        },
        ActionView::Own { path, user: service_user() },
        ActionView::Run { command: safe_query() },
        ActionView::Run { command: safe_registration(path) },
        ActionView::Run { command: fetch_command(token, path) },
        ActionView::Run { command: checkout_command(path, w.target.branch) },
        ActionView::Report { outcome: OutcomeView::Cloned },
    ]);
}

} // verus!
