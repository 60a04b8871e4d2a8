//! One cycle of one worker: from looking for the working copy to the
//! report of how the cycle ended.
//!
//! A worker never touches the disk or the network. It is told what
//! happened and answers with what is to be done next: a path to look for,
//! a command to run, a directory to hand over to the service user, a pause
//! to keep, or the outcome to report. Whoever drives the worker performs
//! the action and comes back with the matching event.

use crate::auth::{auth_header, github_auth_header, github_token, CredentialProvider};
use crate::command::{completion, CommandResult, CommandView, GitCommand, ResultView};
use crate::error::{clone_errors, error_views, ErrorKind, ErrorView, SyncError};
use crate::git::{
    fetch_finished, fetch_request, fetch_updates, is_remote_ahead, local_commit,
    local_commit_command, local_commit_named, local_commit_query, remote_ahead,
    remote_commit_command, remote_commit_query,
    safe_directory_query, safe_directory_registered, safe_query, safe_registered, safe_step,
    set_safe_directory, SafeDirectoryStep, SafeStepView,
};
use crate::pull::{
    checkout_branch, checkout_command, checkout_finished, clone_finished, clone_repo,
    clone_request, pull_finished, pull_latest_changes, pull_request, pull_result,
};
use crate::retry::{
    after_attempt, attempt_started, failure_noted, fresh, may_attempt, RetryState, RetryView,
    Verdict, VerdictView,
};
use crate::target::{project_path, remote_url, RepoTarget, TargetView};
use crate::text::{borrow_text, text_of};
use vstd::prelude::*;

verus! {

/// How a cycle ended.
#[derive(Debug, PartialEq, Eq)]
pub enum SyncOutcome {
    /// There was no working copy; there is one now.
    Cloned,
    /// The working copy holds what the remote holds.
    UpToDate,
    /// The working copy was brought up to the remote.
    Updated,
    /// The cycle failed, with these failures.
    Failed(Vec<SyncError>),
}

/// The end of a cycle as a plain value.
pub enum OutcomeView {
    Cloned,
    UpToDate,
    Updated,
    Failed(Seq<ErrorView>),
}

impl View for SyncOutcome {
    type V = OutcomeView;

    open spec fn view(&self) -> OutcomeView {
        match self {
            SyncOutcome::Cloned => OutcomeView::Cloned,
            SyncOutcome::UpToDate => OutcomeView::UpToDate,
            SyncOutcome::Updated => OutcomeView::Updated,
            SyncOutcome::Failed(errors) => OutcomeView::Failed(error_views(errors@)),
        }
    }
}

/// On whose behalf a directory is trusted and fetched.
#[derive(Clone, Copy, Debug, PartialEq, Eq, Structural)]
pub enum Stage {
    /// A working copy that has just been cloned.
    Fresh,
    /// A working copy that was there.
    Existing,
    /// A pull that was refused and is being remedied.
    Repair,
}

/// What a worker is waiting for.
#[derive(Clone, Copy, Debug, PartialEq, Eq, Structural)]
pub enum Phase {
    /// The start of the next cycle.
    Idle,
    /// Whether the working copy is there.
    Probing,
    /// The end of the clone.
    Cloning,
    /// The handing over of the new directory.
    Owning,
    /// The list of trusted directories.
    Listing(Stage),
    /// The addition to the trusted directories.
    Registering(Stage),
    /// The end of the fetch.
    Fetching(Stage),
    /// The name of the local commit.
    ReadingLocal,
    /// The name of the remote commit.
    ReadingRemote,
    /// The end of a pull.
    Pulling,
    /// The end of the pause before the next pull.
    Pausing,
    /// The end of the checkout.
    CheckingOut(Stage),
}

/// What is to be done next.
#[derive(Debug, PartialEq, Eq)]
pub enum Action {
    /// Find out whether `path` exists.
    Probe { path: String },
    /// Run `command`.
    Run { command: GitCommand },
    /// Hand the directory at `path` over to `user`.
    Own { path: String, user: String },
    /// Wait for `seconds`.
    Pause { seconds: u64 },
    /// The cycle is over: record `outcome`, then sleep until the next one.
    Report { outcome: SyncOutcome },
}

/// An action as a plain value.
pub enum ActionView {
    Probe { path: Seq<char> },
    Run { command: CommandView },
    Own { path: Seq<char>, user: Seq<char> },
    Pause { seconds: u64 },
    Report { outcome: OutcomeView },
}

impl View for Action {
    type V = ActionView;

    open spec fn view(&self) -> ActionView {
        match self {
            Action::Probe { path } => ActionView::Probe { path: path@ },
            Action::Run { command } => ActionView::Run { command: command@ },
            Action::Own { path, user } => ActionView::Own { path: path@, user: user@ },
            Action::Pause { seconds } => ActionView::Pause { seconds: *seconds },
            Action::Report { outcome } => ActionView::Report { outcome: outcome@ },
        }
    }
}

/// What happened.
#[derive(Debug, PartialEq, Eq)]
pub enum Event {
    /// A cycle is due.
    Begin,
    /// The path was looked for.
    Probed { exists: bool },
    /// The command was run.
    Ran { result: CommandResult },
    /// The directory was handed over, or it was not, for the reason given.
    Owned { failure: Option<String> },
    /// The pause is over.
    Resumed,
}

/// An event as a plain value.
pub enum EventView {
    Begin,
    Probed { exists: bool },
    Ran { result: ResultView },
    Owned { failure: Option<Seq<char>> },
    Resumed,
}

impl View for Event {
    type V = EventView;

    open spec fn view(&self) -> EventView {
        match self {
            Event::Begin => EventView::Begin,
            Event::Probed { exists } => EventView::Probed { exists: *exists },
            Event::Ran { result } => EventView::Ran { result: result@ },
            Event::Owned { failure } => EventView::Owned {
                failure: text_of(*failure),
            },
            Event::Resumed => EventView::Resumed,
        }
    }
}

/// The worker of one target.
#[derive(Debug)]
pub struct Worker {
    /// The target the worker was started for. It never changes.
    pub target: RepoTarget,
    /// The token fetches and clones authenticate with.
    pub token: Option<String>,
    /// The header pulls authenticate with.
    pub header: Option<String>,
    /// Where the working copy lies.
    pub path: String,
    pub phase: Phase,
    /// How the run that names the local commit ended.
    pub local: Option<CommandResult>,
    /// Whether the pull of this cycle brought anything.
    pub changed: bool,
    /// Where the pull of this cycle stands.
    pub retry: RetryState,
}

/// A worker as a plain value.
pub struct WorkerView {
    pub target: TargetView,
    pub token: Option<Seq<char>>,
    pub header: Option<Seq<char>>,
    pub path: Seq<char>,
    pub phase: Phase,
    pub local: Option<ResultView>,
    pub changed: bool,
    pub retry: RetryView,
}

/// The view of an optional result of a run.
pub open spec fn local_view(local: Option<CommandResult>) -> Option<ResultView> {
    match local {
        Some(r) => Some(r@),
        None => None,
    }
}

impl View for Worker {
    type V = WorkerView;

    open spec fn view(&self) -> WorkerView {
        WorkerView {
            target: self.target@,
            token: text_of(self.token),
            header: text_of(self.header),
            path: self.path@,
            phase: self.phase,
            local: local_view(self.local),
            changed: self.changed,
            retry: self.retry@,
        }
    }
}

/// The user that new working copies are handed over to.
pub open spec fn service_user() -> Seq<char> {
    "www-data"@
}

/// The failure of a cycle that was told something it was not waiting for.
pub open spec fn out_of_turn() -> ErrorView {
    ErrorView { kind: ErrorKind::Other, message: "event does not match the worker's phase"@ }
}

/// The failure of a run that could not be started.
pub open spec fn not_started(reason: Seq<char>) -> ErrorView {
    ErrorView { kind: ErrorKind::Other, message: reason }
}

/// The worker as it is started for a target: idle, at the place derived
/// from the target.
pub open spec fn started(
    target: TargetView,
    token: Option<Seq<char>>,
    header: Option<Seq<char>>,
) -> WorkerView {
    WorkerView {
        target,
        token,
        header,
        path: project_path(target),
        phase: Phase::Idle,
        local: None,
        changed: false,
        retry: fresh(),
    }
}

/// The cycle ends with `outcome`.
pub open spec fn finished(w: WorkerView, outcome: OutcomeView) -> (WorkerView, ActionView) {
    (WorkerView { phase: Phase::Idle, ..w }, ActionView::Report { outcome })
}

/// The cycle ends as failed.
pub open spec fn failed(w: WorkerView, errors: Seq<ErrorView>) -> (WorkerView, ActionView) {
    finished(w, OutcomeView::Failed(errors))
}

/// The worker has `command` run and waits in `phase`.
pub open spec fn running(w: WorkerView, phase: Phase, command: CommandView) -> (
    WorkerView,
    ActionView,
) {
    (WorkerView { phase, ..w }, ActionView::Run { command })
}

/// A cycle begins: the place of the working copy is derived from the
/// target and looked for.
pub open spec fn begun(w: WorkerView) -> (WorkerView, ActionView) {
    let path = project_path(w.target);
    (
        WorkerView {
            path,
            phase: Phase::Probing,
            local: None,
            changed: false,
            retry: fresh(),
            ..w
        },
        ActionView::Probe { path },
    )
}

/// The working copy was looked for: one that is there is brought up to
/// date, starting with the trust in its directory; one that is not is
/// cloned.
pub open spec fn probed(w: WorkerView, exists: bool) -> (WorkerView, ActionView) {
    if exists {
        running(w, Phase::Listing(Stage::Existing), safe_query())
    } else {
        match clone_request(remote_url(w.target), w.path, false, w.token) {
            Ok(command) => running(w, Phase::Cloning, command),
            Err(e) => failed(w, seq![e]),
        }
    }
}

/// Something failed while a directory was trusted or fetched. While a
/// pull is being remedied the failure is noted and the pull tried again;
/// otherwise the cycle has failed.
pub open spec fn troubled(w: WorkerView, stage: Stage, e: ErrorView) -> (WorkerView, ActionView) {
    if stage == Stage::Repair {
        pull_started(WorkerView { retry: failure_noted(w.retry, e), ..w })
    } else {
        failed(w, seq![e])
    }
}

/// The directory is trusted: the fetch follows.
pub open spec fn fetch_started(w: WorkerView, stage: Stage) -> (WorkerView, ActionView) {
    match fetch_request(w.token, w.path) {
        Ok(command) => running(w, Phase::Fetching(stage), command),
        Err(e) => troubled(w, stage, e),
    }
}

/// The next pull: started while pulls may be started, with the header the
/// worker holds. Where none may be started, or there is no header, the
/// cycle has failed with every failure met.
pub open spec fn pull_started(w: WorkerView) -> (WorkerView, ActionView) {
    if !may_attempt(w.retry) {
        failed(w, w.retry.errors)
    } else {
        match pull_request(w.header, w.path, w.target.branch) {
            Ok(command) => running(
                WorkerView { retry: attempt_started(w.retry), ..w },
                Phase::Pulling,
                command,
            ),
            Err(e) => failed(w, w.retry.errors.push(e)),
        }
    }
}

/// The checkout of the target's branch.
pub open spec fn checkout_started(w: WorkerView, stage: Stage) -> (WorkerView, ActionView) {
    running(w, Phase::CheckingOut(stage), checkout_command(w.path, w.target.branch))
}

/// The list of trusted directories came back.
pub open spec fn listed(w: WorkerView, stage: Stage, result: ResultView) -> (
    WorkerView,
    ActionView,
) {
    match safe_step(w.path, result) {
        SafeStepView::AlreadySafe => fetch_started(w, stage),
        SafeStepView::Register(command) => running(w, Phase::Registering(stage), command),
        SafeStepView::Failed(e) => troubled(w, stage, e),
    }
}

/// The addition to the trusted directories came back.
pub open spec fn registered(w: WorkerView, stage: Stage, result: ResultView) -> (
    WorkerView,
    ActionView,
) {
    match safe_registered(w.path, result) {
        Ok(()) => fetch_started(w, stage),
        Err(e) => troubled(w, stage, e),
    }
}

/// The fetch came back. After a clone the checkout follows, in a working
/// copy that was there the comparison of the commits, and while a pull is
/// being remedied the next pull.
pub open spec fn fetched(w: WorkerView, stage: Stage, result: ResultView) -> (
    WorkerView,
    ActionView,
) {
    match completion("git fetch failed: "@, result) {
        Ok(()) => match stage {
            Stage::Fresh => checkout_started(w, Stage::Fresh),
            Stage::Existing => running(w, Phase::ReadingLocal, local_commit_command(w.path)),
            Stage::Repair => pull_started(w),
        },
        Err(e) => troubled(w, stage, e),
    }
}

/// The checkout came back: the cycle ends, after a clone as `Cloned`, and
/// otherwise by what the pull brought.
pub open spec fn checked_out(w: WorkerView, stage: Stage, result: ResultView) -> (
    WorkerView,
    ActionView,
) {
    match completion("git checkout failed: "@, result) {
        Ok(()) => finished(
            w,
            if stage == Stage::Fresh {
                OutcomeView::Cloned
            } else if w.changed {
                OutcomeView::Updated
            } else {
                OutcomeView::UpToDate
            },
        ),
        Err(e) => failed(w, seq![e]),
    }
}

/// One step of a worker whose working copy is being made: clone, hand
/// over, trust, fetch, check out.
pub open spec fn new_repo_step(w: WorkerView, e: EventView) -> (WorkerView, ActionView) {
    match (w.phase, e) {
        (Phase::Cloning, EventView::Ran { result }) => match completion(
            "git clone failed: "@,
            result,
        ) {
            Ok(()) => (
                WorkerView { phase: Phase::Owning, ..w },
                ActionView::Own { path: w.path, user: service_user() },
            ),
            Err(e) => failed(w, seq![e]),
        },
        (Phase::Owning, EventView::Owned { failure }) => match failure {
            None => running(w, Phase::Listing(Stage::Fresh), safe_query()),
            Some(reason) => failed(w, seq![not_started(reason)]),
        },
        (Phase::Listing(stage), EventView::Ran { result }) => listed(w, stage, result),
        (Phase::Registering(stage), EventView::Ran { result }) => registered(w, stage, result),
        (Phase::Fetching(stage), EventView::Ran { result }) => fetched(w, stage, result),
        (Phase::CheckingOut(stage), EventView::Ran { result }) => checked_out(w, stage, result),
        _ => failed(w, seq![out_of_turn()]),
    }
}

/// The run that asked for the local commit came back: where it named a
/// commit the remote one is asked for, and where it named none the cycle
/// has failed.
pub open spec fn local_read(w: WorkerView, result: ResultView) -> (WorkerView, ActionView) {
    match local_commit(result) {
        Ok(name) => running(
            WorkerView { local: Some(result), ..w },
            Phase::ReadingRemote,
            remote_commit_command(w.path, w.target.branch),
        ),
        Err(e) => failed(w, seq![e]),
    }
}

/// The run that asked for the remote commit came back: where it named
/// the local commit the cycle ends as up to date, with nothing pulled and
/// nothing checked out; where it named another the pull begins; where it
/// named none the cycle has failed.
pub open spec fn remote_read(w: WorkerView, result: ResultView) -> (WorkerView, ActionView) {
    match w.local {
        Some(local) => match remote_ahead(local, result) {
            Ok(ahead) => if ahead {
                pull_started(WorkerView { retry: fresh(), ..w })
            } else {
                finished(w, OutcomeView::UpToDate)
            },
            Err(e) => failed(w, seq![e]),
        },
        None => failed(w, seq![out_of_turn()]),
    }
}

/// A pull came back.
pub open spec fn pulled(w: WorkerView, result: ResultView) -> (WorkerView, ActionView) {
    let (retry, verdict) = after_attempt(w.retry, pull_result(w.target.branch, result));
    let w = WorkerView { retry, ..w };
    match verdict {
        VerdictView::Settled { changed } => checkout_started(
            WorkerView { changed, ..w },
            Stage::Existing,
        ),
        VerdictView::Remediate => running(w, Phase::Listing(Stage::Repair), safe_query()),
        VerdictView::RetryAfter { seconds } => (
            WorkerView { phase: Phase::Pausing, ..w },
            ActionView::Pause { seconds },
        ),
        VerdictView::GiveUp { errors } => failed(w, errors),
    }
}

/// One step of a worker whose working copy was there: trust, fetch,
/// compare, and where the remote is ahead pull and check out.
pub open spec fn existing_repo_step(w: WorkerView, e: EventView) -> (WorkerView, ActionView) {
    match (w.phase, e) {
        (Phase::Listing(stage), EventView::Ran { result }) => listed(w, stage, result),
        (Phase::Registering(stage), EventView::Ran { result }) => registered(w, stage, result),
        (Phase::Fetching(stage), EventView::Ran { result }) => fetched(w, stage, result),
        (Phase::ReadingLocal, EventView::Ran { result }) => local_read(w, result),
        (Phase::ReadingRemote, EventView::Ran { result }) => remote_read(w, result),
        (Phase::Pulling, EventView::Ran { result }) => pulled(w, result),
        (Phase::Pausing, EventView::Resumed) => pull_started(w),
        (Phase::CheckingOut(stage), EventView::Ran { result }) => checked_out(w, stage, result),
        _ => failed(w, seq![out_of_turn()]),
    }
}

/// Whether a phase belongs to the making of a new working copy.
pub open spec fn making(phase: Phase) -> bool {
    match phase {
        Phase::Cloning | Phase::Owning => true,
        Phase::Listing(stage) | Phase::Registering(stage) | Phase::Fetching(stage)
        | Phase::CheckingOut(stage) => stage == Stage::Fresh,
        _ => false,
    }
}

/// One step of a worker: its state and the action it asks for, given what
/// it was told. An event that the worker was not waiting for ends the
/// cycle as failed.
#[verifier::opaque]
pub open spec fn worker_step(w: WorkerView, e: EventView) -> (WorkerView, ActionView) {
    match (w.phase, e) {
        (Phase::Idle, EventView::Begin) => begun(w),
        (Phase::Idle, _) => failed(w, seq![out_of_turn()]),
        (Phase::Probing, EventView::Probed { exists }) => probed(w, exists),
        (Phase::Probing, _) => failed(w, seq![out_of_turn()]),
        _ => if making(w.phase) {
            new_repo_step(w, e)
        } else {
            existing_repo_step(w, e)
        },
    }
}

impl Worker {
    /// The worker for `target`, idle, with the credentials `provider`
    /// holds.
    pub fn new(target: RepoTarget, provider: &CredentialProvider) -> (worker: Worker)
        ensures
            worker@ == started(target@, provider@, auth_header(provider@)),
    {
        let path = target.project_path();
        let token = match github_token(provider) {
            Some(t) => Some(t.to_owned()),
            None => None,
        };
        let header = github_auth_header(provider);
        Worker {
            target,
            token,
            header,
            path,
            phase: Phase::Idle,
            local: None,
            changed: false,
            retry: RetryState::new(),
        }
    }

    fn finish(&mut self, outcome: SyncOutcome) -> (action: Action)
        ensures
            (final(self)@, action@) == finished(old(self)@, outcome@),
    {
        self.phase = Phase::Idle;
        Action::Report { outcome }
    }

    fn fail(&mut self, errors: Vec<SyncError>) -> (action: Action)
        ensures
            (final(self)@, action@) == failed(old(self)@, error_views(errors@)),
    {
        self.finish(SyncOutcome::Failed(errors))
    }

    fn fail_with(&mut self, error: SyncError) -> (action: Action)
        ensures
            (final(self)@, action@) == failed(old(self)@, seq![error@]),
    {
        let mut errors: Vec<SyncError> = Vec::new();
        errors.push(error);
        assert(error_views(errors@) =~= seq![error@]);
        self.fail(errors)
    }

    fn out_of_turn(&mut self) -> (action: Action)
        ensures
            (final(self)@, action@) == failed(old(self)@, seq![out_of_turn()]),
    {
        self.fail_with(
            SyncError::new(ErrorKind::Other, "event does not match the worker's phase"),
        )
    }

    fn run(&mut self, phase: Phase, command: GitCommand) -> (action: Action)
        ensures
            (final(self)@, action@) == running(old(self)@, phase, command@),
    {
        self.phase = phase;
        Action::Run { command }
    }

    fn begin(&mut self) -> (action: Action)
        ensures
            (final(self)@, action@) == begun(old(self)@),
    {
        self.path = self.target.project_path();
        self.phase = Phase::Probing;
        self.local = None;
        self.changed = false;
        self.retry = RetryState::new();
        Action::Probe { path: self.path.clone() }
    }

    fn on_probed(&mut self, exists: bool) -> (action: Action)
        ensures
            (final(self)@, action@) == probed(old(self)@, exists),
    {
        if exists {
            self.run(Phase::Listing(Stage::Existing), safe_directory_query())
        } else {
            let url = self.target.remote_url();
            match clone_repo(url.as_str(), self.path.as_str(), false, borrow_text(&self.token)) {
                Ok(command) => self.run(Phase::Cloning, command),
                Err(e) => self.fail_with(e),
            }
        }
    }

    fn start_pull(&mut self) -> (action: Action)
        ensures
            (final(self)@, action@) == pull_started(old(self)@),
    {
        if !self.retry.may_attempt() {
            let errors = clone_errors(&self.retry.errors);
            self.fail(errors)
        } else {
            match pull_latest_changes(
                borrow_text(&self.header),
                self.path.as_str(),
                self.target.branch.as_str(),
            ) {
                Ok(command) => {
                    self.retry.start_attempt();
                    self.run(Phase::Pulling, command)
                },
                Err(e) => {
                    let mut errors = clone_errors(&self.retry.errors);
                    errors.push(e);
                    assert(error_views(errors@) =~= error_views(self.retry.errors@).push(e@));
                    self.fail(errors)
                },
            }
        }
    }

    fn trouble(&mut self, stage: Stage, error: SyncError) -> (action: Action)
        ensures
            (final(self)@, action@) == troubled(old(self)@, stage, error@),
    {
        match stage {
            Stage::Repair => {
                self.retry.note_failure(error);
                self.start_pull()
            },
            _ => self.fail_with(error),
        }
    }

    fn start_fetch(&mut self, stage: Stage) -> (action: Action)
        ensures
            (final(self)@, action@) == fetch_started(old(self)@, stage),
    {
        match fetch_updates(borrow_text(&self.token), self.path.as_str()) {
            Ok(command) => self.run(Phase::Fetching(stage), command),
            Err(e) => self.trouble(stage, e),
        }
    }

    fn start_checkout(&mut self, stage: Stage) -> (action: Action)
        ensures
            (final(self)@, action@) == checkout_started(old(self)@, stage),
    {
        let command = checkout_branch(self.path.as_str(), self.target.branch.as_str());
        self.run(Phase::CheckingOut(stage), command)
    }

    fn on_listed(&mut self, stage: Stage, result: &CommandResult) -> (action: Action)
        ensures
            (final(self)@, action@) == listed(old(self)@, stage, result@),
    {
        match set_safe_directory(self.path.as_str(), result) {
            SafeDirectoryStep::AlreadySafe => self.start_fetch(stage),
            SafeDirectoryStep::Register(command) => self.run(Phase::Registering(stage), command),
            SafeDirectoryStep::Failed(e) => self.trouble(stage, e),
        }
    }

    fn on_registered(&mut self, stage: Stage, result: &CommandResult) -> (action: Action)
        ensures
            (final(self)@, action@) == registered(old(self)@, stage, result@),
    {
        match safe_directory_registered(self.path.as_str(), result) {
            Ok(()) => self.start_fetch(stage),
            Err(e) => self.trouble(stage, e),
        }
    }

    fn on_fetched(&mut self, stage: Stage, result: &CommandResult) -> (action: Action)
        ensures
            (final(self)@, action@) == fetched(old(self)@, stage, result@),
    {
        match fetch_finished(result) {
            Ok(()) => match stage {
                Stage::Fresh => self.start_checkout(Stage::Fresh),
                Stage::Existing => {
                    let command = local_commit_query(self.path.as_str());
                    self.run(Phase::ReadingLocal, command)
                },
                Stage::Repair => self.start_pull(),
            },
            Err(e) => self.trouble(stage, e),
        }
    }

    fn on_checked_out(&mut self, stage: Stage, result: &CommandResult) -> (action: Action)
        ensures
            (final(self)@, action@) == checked_out(old(self)@, stage, result@),
    {
        match checkout_finished(result) {
            Ok(()) => {
                let outcome = match stage {
                    Stage::Fresh => SyncOutcome::Cloned,
                    _ => if self.changed {
                        SyncOutcome::Updated
                    } else {
                        SyncOutcome::UpToDate
                    },
                };
                self.finish(outcome)
            },
            Err(e) => self.fail_with(e),
        }
    }

    fn on_local_read(&mut self, result: CommandResult) -> (action: Action)
        ensures
            (final(self)@, action@) == local_read(old(self)@, result@),
    {
        match local_commit_named(&result) {
            Ok(name) => {
                let command = remote_commit_query(
                    self.path.as_str(),
                    self.target.branch.as_str(),
                );
                self.local = Some(result);
                self.run(Phase::ReadingRemote, command)
            },
            Err(e) => self.fail_with(e),
        }
    }

    fn on_remote_read(&mut self, result: &CommandResult) -> (action: Action)
        ensures
            (final(self)@, action@) == remote_read(old(self)@, result@),
    {
        let verdict = match &self.local {
            Some(local) => Some(is_remote_ahead(local, result)),
            None => None,
        };
        match verdict {
            Some(Ok(ahead)) => {
                if ahead {
                    self.retry = RetryState::new();
                    self.start_pull()
                } else {
                    self.finish(SyncOutcome::UpToDate)
                }
            },
            Some(Err(e)) => self.fail_with(e),
            None => self.out_of_turn(),
        }
    }

    fn on_pulled(&mut self, result: &CommandResult) -> (action: Action)
        ensures
            (final(self)@, action@) == pulled(old(self)@, result@),
    {
        let attempt = pull_finished(self.target.branch.as_str(), result);
        match self.retry.pull_with_retry(attempt) {
            Verdict::Settled { changed } => {
                self.changed = changed;
                self.start_checkout(Stage::Existing)
            },
            Verdict::Remediate => self.run(
                Phase::Listing(Stage::Repair),
                safe_directory_query(),
            ),
            Verdict::RetryAfter { seconds } => {
                self.phase = Phase::Pausing;
                Action::Pause { seconds }
            },
            Verdict::GiveUp { errors } => self.fail(errors),
        }
    }
}

/// One step in the making of a new working copy: after the clone the
/// directory is handed over to the service user, trusted and fetched, and
/// the branch checked out. The first failure ends the cycle.
pub fn handle_new_repo(worker: &mut Worker, event: Event) -> (action: Action)
    ensures
        (final(worker)@, action@) == new_repo_step(old(worker)@, event@),
{
    match (worker.phase, event) {
        (Phase::Cloning, Event::Ran { result }) => match clone_finished(&result) {
            Ok(()) => {
                worker.phase = Phase::Owning;
                Action::Own { path: worker.path.clone(), user: "www-data".to_owned() }
            },
            Err(e) => worker.fail_with(e),
        },
        (Phase::Owning, Event::Owned { failure }) => match failure {
            None => worker.run(Phase::Listing(Stage::Fresh), safe_directory_query()),
            Some(reason) => {
                let error = SyncError::new(ErrorKind::Other, reason.as_str());
                worker.fail_with(error)
            },
        },
        (Phase::Listing(stage), Event::Ran { result }) => worker.on_listed(stage, &result),
        (Phase::Registering(stage), Event::Ran { result }) => worker.on_registered(
            stage,
            &result,
        ),
        (Phase::Fetching(stage), Event::Ran { result }) => worker.on_fetched(stage, &result),
        (Phase::CheckingOut(stage), Event::Ran { result }) => worker.on_checked_out(
            stage,
            &result,
        ),
        _ => worker.out_of_turn(),
    }
}

/// One step in bringing a working copy that was there up to date: the
/// directory is trusted and fetched and the commits compared; where the
/// remote is ahead the branch is pulled, with retries, and checked out.
pub fn handle_existing_repo(worker: &mut Worker, event: Event) -> (action: Action)
    ensures
        (final(worker)@, action@) == existing_repo_step(old(worker)@, event@),
{
    match (worker.phase, event) {
        (Phase::Listing(stage), Event::Ran { result }) => worker.on_listed(stage, &result),
        (Phase::Registering(stage), Event::Ran { result }) => worker.on_registered(
            stage,
            &result,
        ),
        (Phase::Fetching(stage), Event::Ran { result }) => worker.on_fetched(stage, &result),
        (Phase::ReadingLocal, Event::Ran { result }) => worker.on_local_read(result),
        (Phase::ReadingRemote, Event::Ran { result }) => worker.on_remote_read(&result),
        (Phase::Pulling, Event::Ran { result }) => worker.on_pulled(&result),
        (Phase::Pausing, Event::Resumed) => worker.start_pull(),
        (Phase::CheckingOut(stage), Event::Ran { result }) => worker.on_checked_out(
            stage,
            &result,
        ),
        _ => worker.out_of_turn(),
    }
}

/// Whether a phase belongs to the making of a new working copy.
pub fn is_making(phase: Phase) -> (b: bool)
    ensures
        b == making(phase),
{
    match phase {
        Phase::Cloning | Phase::Owning => true,
        Phase::Listing(stage) | Phase::Registering(stage) | Phase::Fetching(stage)
        | Phase::CheckingOut(stage) => match stage {
            Stage::Fresh => true,
            _ => false,
        },
        _ => false,
    }
}

/// One step of a worker: takes what happened and answers with what is to
/// be done next.
pub fn repo_worker(worker: &mut Worker, event: Event) -> (action: Action)
    ensures
        (final(worker)@, action@) == worker_step(old(worker)@, event@),
{
    reveal(worker_step);
    match worker.phase {
        Phase::Idle => match event {
            Event::Begin => worker.begin(),
            _ => worker.out_of_turn(),
        },
        Phase::Probing => match event {
            Event::Probed { exists } => worker.on_probed(exists),
            _ => worker.out_of_turn(),
        },
        _ => if is_making(worker.phase) {
            handle_new_repo(worker, event)
        } else {
            handle_existing_repo(worker, event)
        },
    }
}

impl Clone for Event {
    fn clone(&self) -> (e: Event)
        ensures
            e == *self,
    {
        match self {
            Event::Begin => Event::Begin,
            Event::Probed { exists } => Event::Probed { exists: *exists },
            Event::Ran { result } => Event::Ran { result: result.clone() },
            Event::Owned { failure } => Event::Owned {
                failure: match failure {
                    Some(reason) => Some(reason.clone()),
                    None => None,
                },
            },
            Event::Resumed => Event::Resumed,
        }
    }
}

} // verus!
