use git_monitor::controller::{
    get_git_credentials, startup, Controller, Mode, Order, Signal, Startup, EXIT_GRACEFUL,
    EXIT_STARTUP_FAILED, HEALTH_TICK_SECONDS, RELOAD_DEBOUNCE_SECONDS,
};
use git_monitor::error::{ErrorKind, SyncError};
use git_monitor::state::{generate_state, DaemonState, StateRecord, Status};
use git_monitor::target::{RepoTarget, Server};

fn target(owner: &str) -> RepoTarget {
    RepoTarget {
        owner: owner.to_string(),
        repo: "b".to_string(),
        branch: "main".to_string(),
        server: Server::GitHub,
        token: None,
    }
}

fn running() -> (Controller, DaemonState) {
    match startup(None, Ok(vec![target("a"), target("c")]), Ok(()), 100, 7) {
        Startup::Ready { state, controller } => (controller, state),
        Startup::Abort { .. } => panic!("startup failed"),
    }
}

#[test]
fn controller_constants() {
    assert_eq!(EXIT_GRACEFUL, 0);
    assert_eq!(EXIT_STARTUP_FAILED, 100);
    assert_eq!(RELOAD_DEBOUNCE_SECONDS, 1);
    assert_eq!(HEALTH_TICK_SECONDS, 5);
}

#[test]
fn credentials_source_is_the_configured_file() {
    assert_eq!(get_git_credentials(Some("/etc/creds")), Ok("/etc/creds".to_string()));
    assert_eq!(
        get_git_credentials(None),
        Err(SyncError::new(ErrorKind::Other, "Git configuration not found"))
    );
}

#[test]
fn startup_with_targets_and_token_runs() {
    let (controller, state) = running();
    assert_eq!(controller.mode, Mode::Running);
    assert_eq!(controller.credentials, vec![target("a"), target("c")]);
    assert_eq!(controller.workers, vec![target("a"), target("c")]);
    assert_eq!(
        state.snapshot(),
        StateRecord {
            status: Status::Running,
            event_counter: 0,
            description: "Git monitor is initialized".to_string(),
            error_log: Vec::new(),
            last_updated: 100,
            started_at: 100,
            pid: 7,
        }
    );
}

#[test]
fn startup_without_credentials_exits_with_100() {
    let reason = SyncError::new(ErrorKind::Other, "Git configuration not found");
    match startup(None, Err(reason.clone()), Ok(()), 100, 7) {
        Startup::Abort { record, code } => {
            assert_eq!(code, 100);
            assert_eq!(record.error_log, vec![reason]);
            assert_eq!(record.status, Status::Starting);
        }
        Startup::Ready { .. } => panic!("startup went on"),
    }
}

#[test]
fn startup_without_token_exits_with_100() {
    let reason = SyncError::new(
        ErrorKind::AuthenticationFailed,
        "Failed to get token from GitHub CLI",
    );
    match startup(None, Ok(vec![target("a")]), Err(reason.clone()), 100, 7) {
        Startup::Abort { record, code } => {
            assert_eq!(code, 100);
            assert_eq!(record.error_log, vec![reason]);
        }
        Startup::Ready { .. } => panic!("startup went on"),
    }
}

#[test]
fn reload_is_debounced_and_keeps_the_workers() {
    let (mut controller, mut state) = running();
    state.record_success("Updated: 5607341a", 150);
    state.record_success("Updated: 5607341a", 160);
    state.record_failure(SyncError::new(ErrorKind::NetworkFailure, "down"), 170);
    let before = state.snapshot();
    match controller.handle(&mut state, Signal::Reload, 200) {
        Order::Debounce { seconds } => assert_eq!(seconds, 1),
        _ => panic!("no delay"),
    }
    assert_eq!(controller.mode, Mode::Debouncing);
    assert!(matches!(controller.handle(&mut state, Signal::Reload, 200), Order::Nothing));
    assert!(matches!(controller.handle(&mut state, Signal::Debounced, 201), Order::Reload));
    assert_eq!(controller.mode, Mode::Loading);
    assert_eq!(state.snapshot(), before);
    let reloaded = Signal::Reloaded {
        credentials: Ok(vec![target("x"), target("y"), target("z")]),
    };
    match controller.handle(&mut state, reloaded, 202) {
        Order::Persist { record } => assert_eq!(record, state.snapshot()),
        _ => panic!("nothing written"),
    }
    assert_eq!(controller.mode, Mode::Running);
    assert_eq!(controller.credentials, vec![target("x"), target("y"), target("z")]);
    assert_eq!(controller.workers, vec![target("a"), target("c")]);
    let after = state.snapshot();
    assert_eq!(after.last_updated, 202);
    assert_eq!(after.event_counter, 2);
    assert_eq!(after.error_log, before.error_log);
    assert_eq!(after.description, before.description);
    assert_eq!(after.status, before.status);
    assert_eq!(after.started_at, 100);
    assert_eq!(after.pid, 7);
}

#[test]
fn reload_without_credentials_keeps_the_old_ones() {
    let (mut controller, mut state) = running();
    state.record_success("Updated: 5607341a", 150);
    controller.handle(&mut state, Signal::Reload, 200);
    controller.handle(&mut state, Signal::Debounced, 201);
    let reason = SyncError::new(ErrorKind::Other, "No such file or directory");
    let reloaded = Signal::Reloaded { credentials: Err(reason.clone()) };
    assert!(matches!(controller.handle(&mut state, reloaded, 202), Order::Persist { .. }));
    assert_eq!(controller.credentials, vec![target("a"), target("c")]);
    assert_eq!(controller.workers, vec![target("a"), target("c")]);
    assert_eq!(state.snapshot().error_log, vec![reason]);
    assert_eq!(state.snapshot().event_counter, 1);
    assert_eq!(controller.mode, Mode::Running);
}

#[test]
fn exit_signal_stops_and_persists_with_code_0() {
    let (mut controller, mut state) = running();
    state.record_success("Updated: 5607341a", 150);
    match controller.handle(&mut state, Signal::Exit, 300) {
        Order::PersistAndExit { record, code } => {
            assert_eq!(code, 0);
            assert_eq!(record.status, Status::Stopped);
            assert_eq!(record.description, "Git monitor exiting");
            assert_eq!(record.event_counter, 1);
            assert_eq!(record.last_updated, 300);
            assert_eq!(record, state.snapshot());
        }
        _ => panic!("no exit"),
    }
    assert_eq!(controller.mode, Mode::Stopped);
    assert!(matches!(controller.handle(&mut state, Signal::Tick, 301), Order::Nothing));
    assert!(matches!(controller.handle(&mut state, Signal::Exit, 302), Order::Nothing));
    assert_eq!(state.snapshot().status, Status::Stopped);
}

#[test]
fn exit_signal_during_reload_stops_all_the_same() {
    let (mut controller, mut state) = running();
    controller.handle(&mut state, Signal::Reload, 200);
    assert!(matches!(
        controller.handle(&mut state, Signal::Exit, 201),
        Order::PersistAndExit { code: 0, .. }
    ));
}

#[test]
fn interrupt_raises_the_exit_signal() {
    let (mut controller, mut state) = running();
    let before = state.snapshot();
    assert!(matches!(controller.handle(&mut state, Signal::Interrupt, 300), Order::RaiseExit));
    assert_eq!(controller.mode, Mode::Running);
    assert_eq!(state.snapshot(), before);
}

#[test]
fn tick_marks_running_and_persists() {
    let mut state = generate_state(None, 1, 7);
    let mut controller = Controller {
        mode: Mode::Running,
        credentials: Vec::new(),
        workers: Vec::new(),
    };
    match controller.handle(&mut state, Signal::Tick, 400) {
        Order::Persist { record } => {
            assert_eq!(record.status, Status::Running);
            assert_eq!(record.last_updated, 400);
            assert_eq!(record.event_counter, 0);
            assert_eq!(record.description, "Initializing");
        }
        _ => panic!("nothing written"),
    }
}

#[test]
fn signals_out_of_turn_ask_for_nothing() {
    let (mut controller, mut state) = running();
    let before = state.snapshot();
    assert!(matches!(controller.handle(&mut state, Signal::Debounced, 1), Order::Nothing));
    let reloaded = Signal::Reloaded { credentials: Ok(vec![target("x")]) };
    assert!(matches!(controller.handle(&mut state, reloaded, 2), Order::Nothing));
    assert_eq!(controller.credentials, vec![target("a"), target("c")]);
    assert_eq!(state.snapshot(), before);
}
