//! The operations on one working copy that prepare and judge a
//! synchronisation: trusting the directory, fetching, and comparing the
//! local commit with the remote one.
//!
//! Each operation is a pair: the command to run, and the reading of how
//! the run ended.

use crate::auth::{bearer_header, bearer_header_for};
use crate::command::{
    completed, completion, git, git_command, outcome_view, push_arg, texts, CommandResult,
    CommandView, GitCommand, ResultView,
};
use crate::error::{tool_failure, ErrorKind, ErrorView, SyncError};
use crate::text::{any_line_reads, borrowed_text, some_line_reads, trim, trimmed};
use vstd::prelude::*;
use vstd::string::StringExecFns;

verus! {

/// What is to be done about a directory once the list of trusted
/// directories has been asked for.
#[derive(Debug, PartialEq, Eq)]
pub enum SafeDirectoryStep {
    /// The directory is listed: nothing is to be done.
    AlreadySafe,
    /// The directory is to be added with this command.
    Register(GitCommand),
    /// The list could not be asked for.
    Failed(SyncError),
}

/// A step about a directory as a plain value.
pub enum SafeStepView {
    AlreadySafe,
    Register(CommandView),
    Failed(ErrorView),
}

impl View for SafeDirectoryStep {
    type V = SafeStepView;

    open spec fn view(&self) -> SafeStepView {
        match self {
            SafeDirectoryStep::AlreadySafe => SafeStepView::AlreadySafe,
            SafeDirectoryStep::Register(c) => SafeStepView::Register(c@),
            SafeDirectoryStep::Failed(e) => SafeStepView::Failed(e@),
        }
    }
}

/// The command that lists the trusted directories.
pub open spec fn safe_query() -> CommandView {
    git(seq!["config"@, "--global"@, "--get-all"@, "safe.directory"@])
}

/// The command that adds `path` to the trusted directories.
pub open spec fn safe_registration(path: Seq<char>) -> CommandView {
    git(seq!["config"@, "--global"@, "--add"@, "safe.directory"@, path])
}

/// What follows from the list of trusted directories for `path`: nothing
/// where a line of a successful listing reads `path`, and its addition
/// otherwise, so that no directory is added twice. A listing that could not
/// be started is a failure.
pub open spec fn safe_step(path: Seq<char>, listing: ResultView) -> SafeStepView {
    match listing {
        ResultView::Finished { success, stdout, stderr } => if success && some_line_reads(
            stdout,
            path,
        ) {
            SafeStepView::AlreadySafe
        } else {
            SafeStepView::Register(safe_registration(path))
        },
        ResultView::NotStarted { reason } => SafeStepView::Failed(
            ErrorView { kind: ErrorKind::Other, message: reason },
        ),
    }
}

/// How the addition of `path` to the trusted directories ended.
pub open spec fn safe_registered(path: Seq<char>, result: ResultView) -> Result<(), ErrorView> {
    match result {
        ResultView::Finished { success, stdout, stderr } => if success {
            Ok(())
        } else {
            Err(
                ErrorView {
                    kind: ErrorKind::Other,
                    message: "Failed to set safe directory for "@ + path,
                },
            )
        },
        ResultView::NotStarted { reason } => Err(
            ErrorView { kind: ErrorKind::Other, message: reason },
        ),
    }
}

/// The command that fetches the remote branches into the working copy at
/// `path`, authenticated with `token`.
pub open spec fn fetch_command(token: Seq<char>, path: Seq<char>) -> CommandView {
    git(
        seq![
            "-C"@,
            path,
            "-c"@,
            "http.extraheader="@ + bearer_header(token),
            "fetch"@,
            "origin"@,
        ],
    )
}

/// The failure of an operation that needs a token while none is held.
pub open spec fn token_missing() -> ErrorView {
    ErrorView { kind: ErrorKind::AuthenticationFailed, message: "GitHub token not initialized"@ }
}

/// The fetch of the working copy at `path`: a command where there is a
/// token, a failure where there is none.
pub open spec fn fetch_request(token: Option<Seq<char>>, path: Seq<char>) -> Result<
    CommandView,
    ErrorView,
> {
    match token {
        Some(t) => Ok(fetch_command(t, path)),
        None => Err(token_missing()),
    }
}

/// The command that names the commit the working copy at `path` stands at.
pub open spec fn local_commit_command(path: Seq<char>) -> CommandView {
    git(seq!["-C"@, path, "rev-parse"@, "HEAD"@])
}

/// The command that names the commit the remote `branch` was last seen at.
pub open spec fn remote_commit_command(path: Seq<char>, branch: Seq<char>) -> CommandView {
    git(seq!["-C"@, path, "rev-parse"@, "origin/"@ + branch])
}

/// The commit of the working copy, as the run that asked for it named it:
/// all the output of a successful run, white space at the ends aside. A
/// run that exited with a failure names no commit: it is a failure of the
/// kind its complaint stands for.
pub open spec fn local_commit(result: ResultView) -> Result<Seq<char>, ErrorView> {
    match result {
        ResultView::Finished { success, stdout, stderr } => if success {
            Ok(trimmed(stdout))
        } else {
            Err(tool_failure("git rev-parse failed: "@, stderr))
        },
        ResultView::NotStarted { reason } => Err(
            ErrorView { kind: ErrorKind::Other, message: reason },
        ),
    }
}

/// The commit of the remote branch, as the run that asked for it named
/// it. A run that exited with a failure names no commit: the branch is
/// not known, whatever the run printed.
pub open spec fn remote_commit(result: ResultView) -> Result<Seq<char>, ErrorView> {
    match result {
        ResultView::Finished { success, stdout, stderr } => if success {
            Ok(trimmed(stdout))
        } else {
            Err(
                ErrorView {
                    kind: ErrorKind::BranchNotFound,
                    message: "git rev-parse failed: "@ + stderr,
                },
            )
        },
        ResultView::NotStarted { reason } => Err(
            ErrorView { kind: ErrorKind::Other, message: reason },
        ),
    }
}

/// Whether the remote branch stands at another commit than the working
/// copy: the two names differ in any character. A run that named no
/// commit is a failure, the local one first.
pub open spec fn remote_ahead(local: ResultView, remote: ResultView) -> Result<bool, ErrorView> {
    match local_commit(local) {
        Ok(here) => match remote_commit(remote) {
            Ok(there) => Ok(here != there),
            Err(e) => Err(e),
        },
        Err(e) => Err(e),
    }
}

/// The view of a result that carries a text or a failure.
pub open spec fn name_view(r: Result<String, SyncError>) -> Result<Seq<char>, ErrorView> {
    match r {
        Ok(name) => Ok(name@),
        Err(e) => Err(e@),
    }
}

/// The view of a result that carries a command or a failure.
pub open spec fn request_view(r: Result<GitCommand, SyncError>) -> Result<CommandView, ErrorView> {
    match r {
        Ok(c) => Ok(c@),
        Err(e) => Err(e@),
    }
}

/// The view of a result that carries a truth value or a failure.
pub open spec fn verdict_view(r: Result<bool, SyncError>) -> Result<bool, ErrorView> {
    match r {
        Ok(b) => Ok(b),
        Err(e) => Err(e@),
    }
}

/// The command that lists the trusted directories.
pub fn safe_directory_query() -> (c: GitCommand)
    ensures
        c@ == safe_query(),
{
    let mut args: Vec<String> = Vec::new();
    push_arg(&mut args, "config");
    push_arg(&mut args, "--global");
    push_arg(&mut args, "--get-all");
    push_arg(&mut args, "safe.directory");
    assert(texts(args@) =~= seq!["config"@, "--global"@, "--get-all"@, "safe.directory"@]);
    git_command(args)
}

/// Decides from the list of trusted directories what is to be done for
/// `path`.
pub fn set_safe_directory(path: &str, listing: &CommandResult) -> (step: SafeDirectoryStep)
    ensures
        step@ == safe_step(path@, listing@),
{
    match listing {
        CommandResult::Finished { success, stdout, stderr } => {
            if *success && any_line_reads(stdout.as_str(), path) {
                SafeDirectoryStep::AlreadySafe
            } else {
                let mut args: Vec<String> = Vec::new();
                push_arg(&mut args, "config");
                push_arg(&mut args, "--global");
                push_arg(&mut args, "--add");
                push_arg(&mut args, "safe.directory");
                push_arg(&mut args, path);
                assert(texts(args@) =~= seq![
                    "config"@,
                    "--global"@,
                    "--add"@,
                    "safe.directory"@,
                    path@,
                ]);
                SafeDirectoryStep::Register(git_command(args))
            }
        },
        CommandResult::NotStarted { reason } => SafeDirectoryStep::Failed(
            SyncError::new(ErrorKind::Other, reason.as_str()),
        ),
    }
}

/// Judges how the addition of `path` to the trusted directories ended.
pub fn safe_directory_registered(path: &str, result: &CommandResult) -> (r: Result<(), SyncError>)
    ensures
        outcome_view(r) == safe_registered(path@, result@),
{
    match result {
        CommandResult::Finished { success, stdout, stderr } => {
            if *success {
                Ok(())
            } else {
                let message = "Failed to set safe directory for ".to_owned().concat(path);
                Err(SyncError::new(ErrorKind::Other, message.as_str()))
            }
        },
        CommandResult::NotStarted { reason } => Err(
            SyncError::new(ErrorKind::Other, reason.as_str()),
        ),
    }
}

/// The fetch of the working copy at `path`.
pub fn fetch_updates(token: Option<&str>, path: &str) -> (r: Result<GitCommand, SyncError>)
    ensures
        request_view(r) == fetch_request(borrowed_text(token), path@),
{
    match token {
        Some(t) => {
            let header = bearer_header_for(t);
            let setting = "http.extraheader=".to_owned().concat(header.as_str());
            let mut args: Vec<String> = Vec::new();
            push_arg(&mut args, "-C");
            push_arg(&mut args, path);
            push_arg(&mut args, "-c");
            push_arg(&mut args, setting.as_str());
            push_arg(&mut args, "fetch");
            push_arg(&mut args, "origin");
            assert(texts(args@) =~= seq![
                "-C"@,
                path@,
                "-c"@,
                "http.extraheader="@ + bearer_header(t@),
                "fetch"@,
                "origin"@,
            ]);
            Ok(git_command(args))
        },
        None => Err(
            SyncError::new(ErrorKind::AuthenticationFailed, "GitHub token not initialized"),
        ),
    }
}

/// Judges how a fetch ended.
pub fn fetch_finished(result: &CommandResult) -> (r: Result<(), SyncError>)
    ensures
        outcome_view(r) == completion("git fetch failed: "@, result@),
{
    completed("git fetch failed: ", result)
}

/// The command that names the commit the working copy at `path` stands at.
pub fn local_commit_query(path: &str) -> (c: GitCommand)
    ensures
        c@ == local_commit_command(path@),
{
    let mut args: Vec<String> = Vec::new();
    push_arg(&mut args, "-C");
    push_arg(&mut args, path);
    push_arg(&mut args, "rev-parse");
    push_arg(&mut args, "HEAD");
    assert(texts(args@) =~= seq!["-C"@, path@, "rev-parse"@, "HEAD"@]);
    git_command(args)
}

/// The command that names the commit the remote `branch` was last seen at.
pub fn remote_commit_query(path: &str, branch: &str) -> (c: GitCommand)
    ensures
        c@ == remote_commit_command(path@, branch@),
{
    let reference = "origin/".to_owned().concat(branch);
    let mut args: Vec<String> = Vec::new();
    push_arg(&mut args, "-C");
    push_arg(&mut args, path);
    push_arg(&mut args, "rev-parse");
    push_arg(&mut args, reference.as_str());
    assert(texts(args@) =~= seq!["-C"@, path@, "rev-parse"@, "origin/"@ + branch@]);
    git_command(args)
}

/// Reads the commit of the working copy from the run that asked for it.
pub fn local_commit_named(result: &CommandResult) -> (r: Result<String, SyncError>)
    ensures
        name_view(r) == local_commit(result@),
{
    match result {
        CommandResult::Finished { success, stdout, stderr } => {
            if *success {
                Ok(trim(stdout.as_str()))
            } else {
                Err(SyncError::from_tool("git rev-parse failed: ", stderr.as_str()))
            }
        },
        CommandResult::NotStarted { reason } => Err(
            SyncError::new(ErrorKind::Other, reason.as_str()),
        ),
    }
}

/// Reads the commit of the remote branch from the run that asked for it.
pub fn remote_commit_named(result: &CommandResult) -> (r: Result<String, SyncError>)
    ensures
        name_view(r) == remote_commit(result@),
{
    match result {
        CommandResult::Finished { success, stdout, stderr } => {
            if *success {
                Ok(trim(stdout.as_str()))
            } else {
                let message = "git rev-parse failed: ".to_owned().concat(stderr.as_str());
                Err(SyncError::new(ErrorKind::BranchNotFound, message.as_str()))
            }
        },
        CommandResult::NotStarted { reason } => Err(
            SyncError::new(ErrorKind::Other, reason.as_str()),
        ),
    }
}

/// Compares the commit of the working copy with that of the remote
/// branch, each as its run of `rev-parse` named it. Where a run named no
/// commit the comparison fails, with the failure of the local run first.
pub fn is_remote_ahead(local: &CommandResult, remote: &CommandResult) -> (r: Result<
    bool,
    SyncError,
>)
    ensures
        verdict_view(r) == remote_ahead(local@, remote@),
{
    match local_commit_named(local) {
        Ok(here) => match remote_commit_named(remote) {
            Ok(there) => Ok(here != there),
            Err(e) => Err(e),
        },
        Err(e) => Err(e),
    }
}

/// Two commits are told apart by their whole names: names that differ
/// anywhere are judged different, also where their first eight characters
/// agree.
pub proof fn law_full_identity_comparison(
    local: Seq<char>,
    remote: Seq<char>,
    errors_here: Seq<char>,
    errors_there: Seq<char>,
)
    requires
        trimmed(local) != trimmed(remote),
        trimmed(local).take(8) == trimmed(remote).take(8),
    ensures
        remote_ahead(
            ResultView::Finished { success: true, stdout: local, stderr: errors_here },
            ResultView::Finished { success: true, stdout: remote, stderr: errors_there },
        ) == Ok::<bool, ErrorView>(true),
{
}

/// A query for the remote branch that exits with a failure is never taken
/// for a commit: whatever the local query named and whatever either run
/// printed, the comparison fails with `BranchNotFound`.
pub proof fn law_unknown_branch_is_reported(
    local: Seq<char>,
    remote: Seq<char>,
    errors_here: Seq<char>,
    errors_there: Seq<char>,
)
    ensures
        remote_ahead(
            ResultView::Finished { success: true, stdout: local, stderr: errors_here },
            ResultView::Finished { success: false, stdout: remote, stderr: errors_there },
        ) is Err,
        remote_ahead(
            ResultView::Finished { success: true, stdout: local, stderr: errors_here },
            ResultView::Finished { success: false, stdout: remote, stderr: errors_there },
        )->Err_0.kind == ErrorKind::BranchNotFound,
        remote_ahead(
            ResultView::Finished { success: false, stdout: local, stderr: errors_here },
            ResultView::Finished { success: false, stdout: remote, stderr: errors_there },
        ) is Err,
{
}

} // verus!
