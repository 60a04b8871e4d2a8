//! The controller's decisions: what startup leads to, and what a signal or
//! a tick of the health timer calls for while the workers run.
//!
//! The controller owns the daemon's record and its view of the targets.
//! It starts one worker per target and never restarts one: a reload
//! replaces the targets the controller knows, and nothing else. The
//! workers that run keep the targets they were started with, and the
//! record goes on as it was.

use crate::error::{ErrorKind, ErrorView, SyncError};
use crate::state::{
    failure_recorded, generate_state, initial_state, newest, refreshed, status_set, DaemonState,
    StateRecord, StateView, Status, ERROR_LOG_CAPACITY,
};
use crate::target::{clone_targets, target_views, RepoTarget, TargetView};
use crate::text::borrowed_text;
use vstd::prelude::*;

verus! {

/// The exit code of a graceful shutdown.
pub const EXIT_GRACEFUL: i32 = 0;

/// The exit code of a startup that failed.
pub const EXIT_STARTUP_FAILED: i32 = 100;

/// How long a reload waits for further reload signals, in seconds.
pub const RELOAD_DEBOUNCE_SECONDS: u64 = 1;

/// How often the health timer ticks, in seconds.
pub const HEALTH_TICK_SECONDS: u64 = 5;

/// What the controller is waiting for besides signals and ticks.
#[derive(Clone, Copy, Debug, PartialEq, Eq, Structural)]
pub enum Mode {
    /// Nothing: the workers run.
    Running,
    /// The end of the delay that follows a reload signal.
    Debouncing,
    /// The configuration and credentials that a reload reads anew.
    Loading,
    /// Nothing any more: the daemon has been told to exit.
    Stopped,
}

/// The controller.
#[derive(Debug)]
pub struct Controller {
    pub mode: Mode,
    /// The targets as the controller knows them.
    pub credentials: Vec<RepoTarget>,
    /// The targets of the workers that run, in the order of their start.
    pub workers: Vec<RepoTarget>,
}

/// The controller as a plain value.
pub struct ControllerView {
    pub mode: Mode,
    pub credentials: Seq<TargetView>,
    pub workers: Seq<TargetView>,
}

impl View for Controller {
    type V = ControllerView;

    open spec fn view(&self) -> ControllerView {
        ControllerView {
            mode: self.mode,
            credentials: target_views(self.credentials@),
            workers: target_views(self.workers@),
        }
    }
}

/// What the controller is told.
#[derive(Debug)]
pub enum Signal {
    /// The reload signal arrived.
    Reload,
    /// The delay after the reload signal is over.
    Debounced,
    /// Configuration and credentials were read anew: the targets, or the
    /// reason why there are none.
    Reloaded { credentials: Result<Vec<RepoTarget>, SyncError> },
    /// The signal for a graceful exit arrived.
    Exit,
    /// The process was interrupted.
    Interrupt,
    /// The health timer ticked.
    Tick,
}

/// A signal as a plain value.
pub enum SignalView {
    Reload,
    Debounced,
    Reloaded { credentials: Result<Seq<TargetView>, ErrorView> },
    Exit,
    Interrupt,
    Tick,
}

/// The view of a record that may have been read back.
pub open spec fn loaded_view(loaded: Option<StateRecord>) -> Option<StateView> {
    match loaded {
        Some(r) => Some(r@),
        None => None,
    }
}

/// The view of targets that may have been read.
pub open spec fn credentials_view(credentials: Result<Vec<RepoTarget>, SyncError>) -> Result<
    Seq<TargetView>,
    ErrorView,
> {
    match credentials {
        Ok(c) => Ok(target_views(c@)),
        Err(e) => Err(e@),
    }
}

impl View for Signal {
    type V = SignalView;

    open spec fn view(&self) -> SignalView {
        match self {
            Signal::Reload => SignalView::Reload,
            Signal::Debounced => SignalView::Debounced,
            Signal::Reloaded { credentials } => SignalView::Reloaded {
                credentials: credentials_view(*credentials),
            },
            Signal::Exit => SignalView::Exit,
            Signal::Interrupt => SignalView::Interrupt,
            Signal::Tick => SignalView::Tick,
        }
    }
}

/// What the controller asks for.
#[derive(Debug)]
pub enum Order {
    /// Nothing.
    Nothing,
    /// Wait for `seconds`, then come back with `Debounced`.
    Debounce { seconds: u64 },
    /// Read configuration and credentials anew, then come back with
    /// `Reloaded`.
    Reload,
    /// Write the record out.
    Persist { record: StateRecord },
    /// Write the record out and leave the process with `code`, without
    /// waiting for the workers.
    PersistAndExit { record: StateRecord, code: i32 },
    /// Raise the signal for a graceful exit.
    RaiseExit,
}

/// An order as a plain value.
pub enum OrderView {
    Nothing,
    Debounce { seconds: u64 },
    Reload,
    Persist { record: StateView },
    PersistAndExit { record: StateView, code: i32 },
    RaiseExit,
}

impl View for Order {
    type V = OrderView;

    open spec fn view(&self) -> OrderView {
        match self {
            Order::Nothing => OrderView::Nothing,
            Order::Debounce { seconds } => OrderView::Debounce { seconds: *seconds },
            Order::Reload => OrderView::Reload,
            Order::Persist { record } => OrderView::Persist { record: record@ },
            Order::PersistAndExit { record, code } => OrderView::PersistAndExit {
                record: record@,
                code: *code,
            },
            Order::RaiseExit => OrderView::RaiseExit,
        }
    }
}

/// What startup leads to.
#[derive(Debug)]
pub enum Startup {
    /// The daemon runs: its record, and the controller with the targets
    /// that workers are to be started for.
    Ready { state: DaemonState, controller: Controller },
    /// The daemon cannot run: the record to write out, and the code to
    /// leave the process with.
    Abort { record: StateRecord, code: i32 },
}

/// The outcome of startup as a plain value.
pub enum StartupView {
    Ready { state: StateView, controller: ControllerView },
    Abort { record: StateView, code: i32 },
}

impl View for Startup {
    type V = StartupView;

    open spec fn view(&self) -> StartupView {
        match self {
            Startup::Ready { state, controller } => StartupView::Ready {
                state: state@,
                controller: controller@,
            },
            Startup::Abort { record, code } => StartupView::Abort { record: record@, code: *code },
        }
    }
}

/// The failure of a configuration that names no credentials file.
pub open spec fn no_git_configuration() -> ErrorView {
    ErrorView { kind: ErrorKind::Other, message: "Git configuration not found"@ }
}

/// The file the credentials are read from, as the configuration names it.
pub open spec fn credentials_source(configured: Option<Seq<char>>) -> Result<Seq<char>, ErrorView> {
    match configured {
        Some(path) => Ok(path),
        None => Err(no_git_configuration()),
    }
}

/// The record of a daemon that has started.
pub open spec fn running_state(loaded: Option<StateView>, now: u64, pid: u32) -> StateView {
    StateView {
        description: "Git monitor is initialized"@,
        status: Status::Running,
        ..initial_state(loaded, now, pid)
    }
}

/// What startup leads to. Without targets or without a token the daemon
/// does not run: the failure enters the record and the process is left
/// with `EXIT_STARTUP_FAILED`, no worker started. Otherwise the daemon
/// runs, with a worker to start for each target.
pub open spec fn started_up(
    loaded: Option<StateView>,
    credentials: Result<Seq<TargetView>, ErrorView>,
    token: Result<(), ErrorView>,
    now: u64,
    pid: u32,
) -> StartupView {
    match credentials {
        Err(e) => StartupView::Abort {
            record: failure_recorded(initial_state(loaded, now, pid), e, now),
            code: EXIT_STARTUP_FAILED,
        },
        Ok(targets) => match token {
            Err(e) => StartupView::Abort {
                record: failure_recorded(initial_state(loaded, now, pid), e, now),
                code: EXIT_STARTUP_FAILED,
            },
            Ok(()) => StartupView::Ready {
                state: running_state(loaded, now, pid),
                controller: ControllerView {
                    mode: Mode::Running,
                    credentials: targets,
                    workers: targets,
                },
            },
        },
    }
}

/// The record of a daemon that has been told to exit.
pub open spec fn exiting_state(state: StateView, now: u64) -> StateView {
    StateView {
        description: "Git monitor exiting"@,
        status: Status::Stopped,
        last_updated: now,
        ..state
    }
}

/// The controller, the record and the order after a signal.
///
/// An exit signal stops the daemon whatever it is doing: the record says
/// so, is written out, and the process is left with `EXIT_GRACEFUL`. An
/// interrupt raises the exit signal. A tick marks the daemon as running
/// and has the record written out. A reload signal is followed by a
/// delay, the delay by the reading of configuration and credentials, and
/// that by the replacement of the controller's targets; where no targets
/// could be read the old ones stay and the failure enters the record.
/// The record is not made anew by a reload: its counter and its log go
/// on. Reload signals that arrive meanwhile are dropped. Once stopped,
/// the controller asks for nothing more.
pub open spec fn controller_step(
    c: ControllerView,
    state: StateView,
    signal: SignalView,
    now: u64,
) -> (ControllerView, StateView, OrderView) {
    if c.mode == Mode::Stopped {
        (c, state, OrderView::Nothing)
    } else {
        match signal {
            SignalView::Exit => {
                let last = exiting_state(state, now);
                (
                    ControllerView { mode: Mode::Stopped, ..c },
                    last,
                    OrderView::PersistAndExit { record: last, code: EXIT_GRACEFUL },
                )
            },
            SignalView::Interrupt => (c, state, OrderView::RaiseExit),
            SignalView::Tick => {
                let next = refreshed(status_set(state, Status::Running), now);
                (c, next, OrderView::Persist { record: next })
            },
            SignalView::Reload => if c.mode == Mode::Running {
                (
                    ControllerView { mode: Mode::Debouncing, ..c },
                    state,
                    OrderView::Debounce { seconds: RELOAD_DEBOUNCE_SECONDS },
                )
            } else {
                (c, state, OrderView::Nothing)
            },
            SignalView::Debounced => if c.mode == Mode::Debouncing {
                (ControllerView { mode: Mode::Loading, ..c }, state, OrderView::Reload)
            } else {
                (c, state, OrderView::Nothing)
            },
            SignalView::Reloaded { credentials } => if c.mode == Mode::Loading {
                match credentials {
                    Ok(targets) => {
                        let next = refreshed(state, now);
                        (
                            ControllerView { mode: Mode::Running, credentials: targets, ..c },
                            next,
                            OrderView::Persist { record: next },
                        )
                    },
                    Err(e) => {
                        let noted = failure_recorded(state, e, now);
                        (
                            ControllerView { mode: Mode::Running, ..c },
                            noted,
                            OrderView::Persist { record: noted },
                        )
                    },
                }
            } else {
                (c, state, OrderView::Nothing)
            },
        }
    }
}

/// The view of a result that carries nothing or a failure.
pub open spec fn token_view(token: Result<(), SyncError>) -> Result<(), ErrorView> {
    match token {
        Ok(()) => Ok(()),
        Err(e) => Err(e@),
    }
}

/// The view of a result that carries a path or a failure.
pub open spec fn source_view(source: Result<String, SyncError>) -> Result<Seq<char>, ErrorView> {
    match source {
        Ok(path) => Ok(path@),
        Err(e) => Err(e@),
    }
}

/// The file the credentials are read from, as the configuration names it.
pub fn get_git_credentials(configured: Option<&str>) -> (source: Result<String, SyncError>)
    ensures
        source_view(source) == credentials_source(borrowed_text(configured)),
{
    match configured {
        Some(path) => Ok(path.to_owned()),
        None => Err(SyncError::new(ErrorKind::Other, "Git configuration not found")),
    }
}

/// Decides what startup leads to, from the record as it was read back,
/// the targets as they were read, and the outcome of obtaining the token.
pub fn startup(
    loaded: Option<StateRecord>,
    credentials: Result<Vec<RepoTarget>, SyncError>,
    token: Result<(), SyncError>,
    now: u64,
    pid: u32,
) -> (outcome: Startup)
    ensures
        outcome@ == started_up(
            loaded_view(loaded),
            credentials_view(credentials),
            token_view(token),
            now,
            pid,
        ),
{
    let mut state = generate_state(loaded, now, pid);
    match credentials {
        Err(e) => {
            state.record_failure(e, now);
            Startup::Abort { record: state.snapshot(), code: EXIT_STARTUP_FAILED }
        },
        Ok(targets) => match token {
            Err(e) => {
                state.record_failure(e, now);
                Startup::Abort { record: state.snapshot(), code: EXIT_STARTUP_FAILED }
            },
            Ok(()) => {
                state.describe("Git monitor is initialized");
                state.set_status(Status::Running);
                let workers = clone_targets(&targets);
                Startup::Ready {
                    state,
                    controller: Controller { mode: Mode::Running, credentials: targets, workers },
                }
            },
        },
    }
}

impl Controller {
    /// Decides what a signal calls for, and changes the record with it.
    pub fn handle(&mut self, state: &mut DaemonState, signal: Signal, now: u64) -> (order: Order)
        ensures
            (final(self)@, final(state)@, order@) == controller_step(
                old(self)@,
                old(state)@,
                signal@,
                now,
            ),
    {
        match self.mode {
            Mode::Stopped => {
                return Order::Nothing;
            },
            _ => {},
        }
        match signal {
            Signal::Exit => {
                state.describe("Git monitor exiting");
                state.set_status(Status::Stopped);
                state.touch(now);
                self.mode = Mode::Stopped;
                Order::PersistAndExit { record: state.snapshot(), code: EXIT_GRACEFUL }
            },
            Signal::Interrupt => Order::RaiseExit,
            Signal::Tick => {
                state.set_status(Status::Running);
                state.touch(now);
                Order::Persist { record: state.snapshot() }
            },
            Signal::Reload => match self.mode {
                Mode::Running => {
                    self.mode = Mode::Debouncing;
                    Order::Debounce { seconds: RELOAD_DEBOUNCE_SECONDS }
                },
                _ => Order::Nothing,
            },
            Signal::Debounced => match self.mode {
                Mode::Debouncing => {
                    self.mode = Mode::Loading;
                    Order::Reload
                },
                _ => Order::Nothing,
            },
            Signal::Reloaded { credentials } => match self.mode {
                Mode::Loading => {
                    self.mode = Mode::Running;
                    match credentials {
                        Ok(targets) => {
                            self.credentials = targets;
                            state.touch(now);
                        },
                        Err(e) => {
                            state.record_failure(e, now);
                        },
                    }
                    Order::Persist { record: state.snapshot() }
                },
                _ => Order::Nothing,
            },
        }
    }
}

/// No signal changes the targets of the workers that run: a reload
/// replaces what the controller knows, and restarts nothing.
pub proof fn law_workers_are_kept(c: ControllerView, state: StateView, signal: SignalView, now: u64)
    ensures
        controller_step(c, state, signal, now).0.workers == c.workers,
{
}

/// No signal takes anything from the record: the counter of completed
/// cycles stays as it was, and the log holds what it held or, where a
/// failure was recorded, the newest of what it held and that failure. The
/// process and the time of its start stay as well.
pub proof fn law_record_goes_on(c: ControllerView, state: StateView, signal: SignalView, now: u64)
    ensures
        ({
            let next = controller_step(c, state, signal, now).1;
            &&& next.event_counter == state.event_counter
            &&& next.started_at == state.started_at
            &&& next.pid == state.pid
            &&& (next.error_log == state.error_log || exists|e: ErrorView|
                next.error_log == newest(state.error_log.push(e), ERROR_LOG_CAPACITY as nat))
        }),
{
}

/// A reload signal, the end of its delay and the reading of new targets
/// lead a running controller through a delay of `RELOAD_DEBOUNCE_SECONDS`
/// and a reload back to running, with the new targets as its own and the
/// workers as they were. The record is the one it was, but for the time of
/// its last update.
pub proof fn law_reload(
    c: ControllerView,
    state: StateView,
    targets: Seq<TargetView>,
    t1: u64,
    t2: u64,
    t3: u64,
)
    requires
        c.mode == Mode::Running,
    ensures
        ({
            let one = controller_step(c, state, SignalView::Reload, t1);
            let two = controller_step(one.0, one.1, SignalView::Debounced, t2);
            let three = controller_step(
                two.0,
                two.1,
                SignalView::Reloaded { credentials: Ok(targets) },
                t3,
            );
            &&& one.2 == OrderView::Debounce { seconds: RELOAD_DEBOUNCE_SECONDS }
            &&& two.2 == OrderView::Reload
            &&& two.1 == state
            &&& three.0.mode == Mode::Running
            &&& three.0.credentials == targets
            &&& three.0.workers == c.workers
            &&& three.1 == refreshed(state, t3)
            &&& three.2 == OrderView::Persist { record: three.1 }
        }),
{
}

/// Whatever a controller that has not stopped is doing, the exit signal
/// marks the record as stopped, has it written out and ends the process
/// with `EXIT_GRACEFUL`, in that one step.
pub proof fn law_exit(c: ControllerView, state: StateView, now: u64)
    requires
        c.mode != Mode::Stopped,
    ensures
        ({
            let end = controller_step(c, state, SignalView::Exit, now);
            &&& end.1.status == Status::Stopped
            &&& end.2 == OrderView::PersistAndExit { record: end.1, code: EXIT_GRACEFUL }
            &&& end.0.mode == Mode::Stopped
            &&& end.1.event_counter == state.event_counter
            &&& end.1.error_log == state.error_log
        }),
{
}

} // verus!
