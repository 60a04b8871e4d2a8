//! The operations on one working copy that change it: cloning, pulling and
//! checking out a branch.
//!
//! Each operation is a pair: the command to run, and the reading of how
//! the run ended.

use crate::command::{
    completed, completion, git, git_command, outcome_view, push_arg, texts, CommandResult,
    CommandView, GitCommand, ResultView,
};
use crate::error::{tool_failure, ErrorKind, ErrorView, SyncError};
use crate::git::{request_view, token_missing, verdict_view};
use crate::text::{borrowed_text, contains, has_substring, replace_all, replaced};
use vstd::prelude::*;
use vstd::string::StringExecFns;

verus! {

/// The command that brings the working copy at `path` up to the remote
/// `branch`, local commits replayed on top, sent with `header`. The tool
/// is kept from asking for credentials.
pub open spec fn pull_command(header: Seq<char>, path: Seq<char>, branch: Seq<char>) -> CommandView {
    CommandView {
        program: "git"@,
        args: seq![
            "-C"@,
            path,
            "-c"@,
            "http.extraheader="@ + header,
            "pull"@,
            "origin"@,
            branch,
            "--rebase"@,
        ],
        prompt_disabled: true,
    }
}

/// The pull of `branch` into the working copy at `path`: a command where
/// there is a header to authenticate with, a failure where there is none.
pub open spec fn pull_request(
    header: Option<Seq<char>>,
    path: Seq<char>,
    branch: Seq<char>,
) -> Result<CommandView, ErrorView> {
    match header {
        Some(h) => Ok(pull_command(h, path, branch)),
        None => Err(token_missing()),
    }
}

/// What the tool prints when a pull has moved `branch`.
pub open spec fn completion_marker(branch: Seq<char>) -> Seq<char> {
    "Successfully rebased and updated refs/heads/"@ + branch
}

/// Whether the output of a pull of `branch` shows that the branch moved.
/// Output without the marker, and no output at all, show that it did not.
pub open spec fn shows_change(branch: Seq<char>, stdout: Seq<char>, stderr: Seq<char>) -> bool {
    contains(stdout, completion_marker(branch)) || contains(stderr, completion_marker(branch))
}

/// How a pull of `branch` ended: whether the branch moved, or the failure.
pub open spec fn pull_result(branch: Seq<char>, result: ResultView) -> Result<bool, ErrorView> {
    match result {
        ResultView::Finished { success, stdout, stderr } => if success {
            Ok(shows_change(branch, stdout, stderr))
        } else {
            Err(tool_failure("git pull failed: "@, stderr))
        },
        ResultView::NotStarted { reason } => Err(
            ErrorView { kind: ErrorKind::Other, message: reason },
        ),
    }
}

/// The address `url` with `token` put behind every `https://` in it.
pub open spec fn url_with_token(url: Seq<char>, token: Seq<char>) -> Seq<char> {
    replaced(url, "https://"@, "https://oauth2:"@ + token + "@"@)
}

/// The failure of a clone whose destination is there already.
pub open spec fn destination_exists(destination: Seq<char>) -> ErrorView {
    ErrorView {
        kind: ErrorKind::AlreadyExists,
        message: "destination already exists: "@ + destination,
    }
}

/// The clone of `url` into `destination`. A destination that exists is a
/// failure, and so is a missing token.
pub open spec fn clone_request(
    url: Seq<char>,
    destination: Seq<char>,
    exists: bool,
    token: Option<Seq<char>>,
) -> Result<CommandView, ErrorView> {
    if exists {
        Err(destination_exists(destination))
    } else {
        match token {
            Some(t) => Ok(git(seq!["clone"@, url_with_token(url, t), destination])),
            None => Err(token_missing()),
        }
    }
}

/// The command that switches the working copy at `path` to `branch`, the
/// local branch made from the remote one.
pub open spec fn checkout_command(path: Seq<char>, branch: Seq<char>) -> CommandView {
    git(seq!["-C"@, path, "checkout"@, "-B"@, branch, "origin/"@ + branch])
}

/// The pull of `branch` into the working copy at `path`.
pub fn pull_latest_changes(header: Option<&str>, path: &str, branch: &str) -> (r: Result<
    GitCommand,
    SyncError,
>)
    ensures
        request_view(r) == pull_request(borrowed_text(header), path@, branch@),
{
    match header {
        Some(h) => {
            let setting = "http.extraheader=".to_owned().concat(h);
            let mut args: Vec<String> = Vec::new();
            push_arg(&mut args, "-C");
            push_arg(&mut args, path);
            push_arg(&mut args, "-c");
            push_arg(&mut args, setting.as_str());
            push_arg(&mut args, "pull");
            push_arg(&mut args, "origin");
            push_arg(&mut args, branch);
            push_arg(&mut args, "--rebase");
            assert(texts(args@) =~= seq![
                "-C"@,
                path@,
                "-c"@,
                "http.extraheader="@ + h@,
                "pull"@,
                "origin"@,
                branch@,
                "--rebase"@,
            ]);
            Ok(GitCommand { program: "git".to_owned(), args, prompt_disabled: true })
        },
        None => Err(
            SyncError::new(ErrorKind::AuthenticationFailed, "GitHub token not initialized"),
        ),
    }
}

/// Judges how a pull of `branch` ended.
pub fn pull_finished(branch: &str, result: &CommandResult) -> (r: Result<bool, SyncError>)
    ensures
        verdict_view(r) == pull_result(branch@, result@),
{
    match result {
        CommandResult::Finished { success, stdout, stderr } => {
            if *success {
                let marker = "Successfully rebased and updated refs/heads/".to_owned().concat(
                    branch,
                );
                Ok(
                    has_substring(stdout.as_str(), marker.as_str()) || has_substring(
                        stderr.as_str(),
                        marker.as_str(),
                    ),
                )
            } else {
                Err(SyncError::from_tool("git pull failed: ", stderr.as_str()))
            }
        },
        CommandResult::NotStarted { reason } => Err(
            SyncError::new(ErrorKind::Other, reason.as_str()),
        ),
    }
}

/// The clone of `url` into `destination`, of which `exists` says whether
/// it is there already.
pub fn clone_repo(url: &str, destination: &str, exists: bool, token: Option<&str>) -> (r: Result<
    GitCommand,
    SyncError,
>)
    ensures
        request_view(r) == clone_request(
            url@,
            destination@,
            exists,
            borrowed_text(token),
        ),
{
    if exists {
        let message = "destination already exists: ".to_owned().concat(destination);
        return Err(SyncError::new(ErrorKind::AlreadyExists, message.as_str()));
    }
    match token {
        Some(t) => {
            let mut prefix = "https://oauth2:".to_owned();
            prefix.append(t);
            prefix.append("@");
            let address = replace_all(url, "https://", prefix.as_str());
            let mut args: Vec<String> = Vec::new();
            push_arg(&mut args, "clone");
            push_arg(&mut args, address.as_str());
            push_arg(&mut args, destination);
            assert(texts(args@) =~= seq!["clone"@, url_with_token(url@, t@), destination@]);
            Ok(git_command(args))
        },
        None => Err(
            SyncError::new(ErrorKind::AuthenticationFailed, "GitHub token not initialized"),
        ),
    }
}

/// Judges how a clone ended.
pub fn clone_finished(result: &CommandResult) -> (r: Result<(), SyncError>)
    ensures
        outcome_view(r) == completion("git clone failed: "@, result@),
{
    completed("git clone failed: ", result)
}

/// The command that switches the working copy at `path` to `branch`.
pub fn checkout_branch(path: &str, branch: &str) -> (c: GitCommand)
    ensures
        c@ == checkout_command(path@, branch@),
{
    let reference = "origin/".to_owned().concat(branch);
    let mut args: Vec<String> = Vec::new();
    push_arg(&mut args, "-C");
    push_arg(&mut args, path);
    push_arg(&mut args, "checkout");
    push_arg(&mut args, "-B");
    push_arg(&mut args, branch);
    push_arg(&mut args, reference.as_str());
    assert(texts(args@) =~= seq![
        "-C"@,
        path@,
        "checkout"@,
        "-B"@,
        branch@,
        "origin/"@ + branch@,
    ]);
    git_command(args)
}

/// Judges how a checkout ended.
pub fn checkout_finished(result: &CommandResult) -> (r: Result<(), SyncError>)
    ensures
        outcome_view(r) == completion("git checkout failed: "@, result@),
{
    completed("git checkout failed: ", result)
}

/// Output of a pull that does not hold the marker for the branch shows no
/// change, whatever else it holds.
pub proof fn law_no_marker_no_change(branch: Seq<char>, stdout: Seq<char>, stderr: Seq<char>)
    requires
        !contains(stdout, completion_marker(branch)),
        !contains(stderr, completion_marker(branch)),
    ensures
        pull_result(branch, ResultView::Finished { success: true, stdout, stderr }) == Ok::<
            bool,
            ErrorView,
        >(false),
{
}

} // verus!
