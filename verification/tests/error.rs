use git_monitor::command::{completed, CommandResult};
use git_monitor::error::{classify, clone_errors, ErrorKind, SyncError};

#[test]
fn classify_untrusted_directory() {
    assert_eq!(
        classify("fatal: detected dubious ownership in repository at '/var/www/ais/x'"),
        ErrorKind::UnsafeDirectory
    );
    assert_eq!(
        classify("git config --global --add safe.directory /var/www/ais/x"),
        ErrorKind::UnsafeDirectory
    );
    assert_eq!(
        classify("fatal: not a git repository (or any of the parent directories): .git"),
        ErrorKind::UnsafeDirectory
    );
}

#[test]
fn classify_authentication_failure() {
    assert_eq!(
        classify("fatal: Authentication failed for 'https://github.com/a/b.git/'"),
        ErrorKind::AuthenticationFailed
    );
    assert_eq!(
        classify("fatal: could not read Username for 'https://github.com': terminal prompts disabled"),
        ErrorKind::AuthenticationFailed
    );
}

#[test]
fn classify_network_failure() {
    assert_eq!(
        classify("fatal: unable to access 'https://x/': Could not resolve host: x"),
        ErrorKind::NetworkFailure
    );
    assert_eq!(
        classify("fatal: unable to access 'https://x/': Failed to connect to x port 443"),
        ErrorKind::NetworkFailure
    );
}

#[test]
fn classify_missing_branch() {
    assert_eq!(classify("fatal: couldn't find remote ref nope"), ErrorKind::BranchNotFound);
    assert_eq!(
        classify("fatal: ambiguous argument 'origin/nope': unknown revision or path not in the working tree."),
        ErrorKind::BranchNotFound
    );
    assert_eq!(
        classify("error: pathspec 'nope' did not match any file(s) known to git"),
        ErrorKind::BranchNotFound
    );
}

#[test]
fn classify_existing_destination() {
    assert_eq!(
        classify("fatal: destination path 'x' already exists and is not an empty directory."),
        ErrorKind::AlreadyExists
    );
}

#[test]
fn classify_bare_warning_as_benign() {
    assert_eq!(classify("warning: redirecting to https://github.com/a/b.git/"), ErrorKind::Benign);
}

#[test]
fn classify_warning_beside_a_failure_is_not_benign() {
    assert_eq!(classify("warning: x\nfatal: something broke"), ErrorKind::Other);
    assert_eq!(classify("warning: x\nerror: something broke"), ErrorKind::Other);
}

#[test]
fn classify_anything_else_as_other() {
    assert_eq!(classify(""), ErrorKind::Other);
    assert_eq!(classify("fatal: refusing to merge unrelated histories"), ErrorKind::Other);
}

#[test]
fn classify_takes_the_first_kind_that_applies() {
    assert_eq!(
        classify("warning: x\nfatal: detected dubious ownership; Authentication failed"),
        ErrorKind::UnsafeDirectory
    );
    assert_eq!(
        classify("Authentication failed; Could not resolve host; already exists"),
        ErrorKind::AuthenticationFailed
    );
}

#[test]
fn tool_failure_carries_prefix_and_complaint() {
    let error = SyncError::from_tool("git fetch failed: ", "fatal: Could not resolve host: x");
    assert_eq!(error.kind, ErrorKind::NetworkFailure);
    assert_eq!(error.message, "git fetch failed: fatal: Could not resolve host: x");
}

#[test]
fn remediable_and_benign_go_by_kind() {
    let unsafe_dir = SyncError::new(ErrorKind::UnsafeDirectory, "x");
    let benign = SyncError::new(ErrorKind::Benign, "x");
    let other = SyncError::new(ErrorKind::NetworkFailure, "x");
    assert!(unsafe_dir.remediable() && !unsafe_dir.benign());
    assert!(benign.benign() && !benign.remediable());
    assert!(!other.benign() && !other.remediable());
}

#[test]
fn cloned_errors_are_equal() {
    let errors = vec![
        SyncError::new(ErrorKind::Other, "one"),
        SyncError::new(ErrorKind::Benign, "two"),
    ];
    assert_eq!(clone_errors(&errors), errors);
    assert_eq!(clone_errors(&Vec::new()), Vec::<SyncError>::new());
}

#[test]
fn completed_run_judged_by_its_exit() {
    let ok = CommandResult::Finished {
        success: true,
        stdout: String::new(),
        stderr: "warning: noise".to_string(),
    };
    assert_eq!(completed("git x failed: ", &ok), Ok(()));
    let bad = CommandResult::Finished {
        success: false,
        stdout: "out".to_string(),
        stderr: "fatal: boom".to_string(),
    };
    assert_eq!(
        completed("git x failed: ", &bad),
        Err(SyncError::new(ErrorKind::Other, "git x failed: fatal: boom"))
    );
    let never = CommandResult::NotStarted { reason: "no git".to_string() };
    assert_eq!(completed("git x failed: ", &never), Err(SyncError::new(ErrorKind::Other, "no git")));
}
