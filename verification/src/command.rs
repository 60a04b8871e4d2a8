//! Tool invocations as plain values: what is to be run, and what came back.
//!
//! The library never starts a process. It says which command is to be run,
//! and is told afterwards how the run ended.

use crate::error::{tool_failure, ErrorKind, ErrorView, SyncError};
use vstd::prelude::*;

verus! {

/// One invocation of a tool.
#[derive(Debug, PartialEq, Eq)]
pub struct GitCommand {
    /// The program to start.
    pub program: String,
    /// Its arguments, in order.
    pub args: Vec<String>,
    /// Whether the tool is kept from asking for credentials on the
    /// terminal.
    pub prompt_disabled: bool,
}

/// An invocation as a plain value.
pub struct CommandView {
    pub program: Seq<char>,
    pub args: Seq<Seq<char>>,
    pub prompt_disabled: bool,
}

/// The texts of a list of strings, in order.
pub open spec fn texts(list: Seq<String>) -> Seq<Seq<char>> {
    list.map_values(|s: String| s@)
}

impl View for GitCommand {
    type V = CommandView;

    open spec fn view(&self) -> CommandView {
        CommandView {
            program: self.program@,
            args: texts(self.args@),
            prompt_disabled: self.prompt_disabled,
        }
    }
}

/// An invocation of `git` with the given arguments.
pub open spec fn git(args: Seq<Seq<char>>) -> CommandView {
    CommandView { program: "git"@, args, prompt_disabled: false }
}

/// How the run of a command ended.
#[derive(Debug, PartialEq, Eq)]
pub enum CommandResult {
    /// The tool ran and exited.
    Finished { success: bool, stdout: String, stderr: String },
    /// The tool could not be started.
    NotStarted { reason: String },
}

/// The end of a run as a plain value.
pub enum ResultView {
    Finished { success: bool, stdout: Seq<char>, stderr: Seq<char> },
    NotStarted { reason: Seq<char> },
}

impl View for CommandResult {
    type V = ResultView;

    open spec fn view(&self) -> ResultView {
        match self {
            CommandResult::Finished { success, stdout, stderr } => ResultView::Finished {
                success: *success,
                stdout: stdout@,
                stderr: stderr@,
            },
            CommandResult::NotStarted { reason } => ResultView::NotStarted { reason: reason@ },
        }
    }
}

/// What a run that only has to succeed amounts to: nothing on success, the
/// tool's complaint under `prefix` when it exited with a failure, and the
/// reason when it could not be started.
pub open spec fn completion(prefix: Seq<char>, result: ResultView) -> Result<(), ErrorView> {
    match result {
        ResultView::Finished { success, stdout, stderr } => if success {
            Ok(())
        } else {
            Err(tool_failure(prefix, stderr))
        },
        ResultView::NotStarted { reason } => Err(
            ErrorView { kind: ErrorKind::Other, message: reason },
        ),
    }
}

/// The view of a result that carries a failure.
pub open spec fn outcome_view(r: Result<(), SyncError>) -> Result<(), ErrorView> {
    match r {
        Ok(()) => Ok(()),
        Err(e) => Err(e@),
    }
}

/// Judges a run that only has to succeed.
pub fn completed(prefix: &str, result: &CommandResult) -> (r: Result<(), SyncError>)
    ensures
        outcome_view(r) == completion(prefix@, result@),
{
    match result {
        CommandResult::Finished { success, stdout, stderr } => {
            if *success {
                Ok(())
            } else {
                Err(SyncError::from_tool(prefix, stderr.as_str()))
            }
        },
        CommandResult::NotStarted { reason } => Err(
            SyncError::new(ErrorKind::Other, reason.as_str()),
        ),
    }
}

/// Appends `text` to a list of arguments.
pub fn push_arg(args: &mut Vec<String>, text: &str)
    ensures
        texts(final(args)@) == texts(old(args)@).push(text@),
{
    let owned = text.to_owned();
    args.push(owned);
    assert(texts(args@) =~= texts(old(args)@).push(text@));
}

/// An invocation of `git` with the given arguments.
pub fn git_command(args: Vec<String>) -> (c: GitCommand)
    ensures
        c@ == git(texts(args@)),
{
    GitCommand { program: "git".to_owned(), args, prompt_disabled: false }
}

impl Clone for CommandResult {
    fn clone(&self) -> (r: CommandResult)
        ensures
            r == *self,
    {
        match self {
            CommandResult::Finished { success, stdout, stderr } => CommandResult::Finished {
                success: *success,
                stdout: stdout.clone(),
                stderr: stderr.clone(),
            },
            CommandResult::NotStarted { reason } => CommandResult::NotStarted {
                reason: reason.clone(),
            },
        }
    }
}

} // verus!
