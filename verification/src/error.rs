//! What can go wrong while a repository is brought up to date, and how a
//! failure is told apart by the message the tool left.

use crate::text::{contains, has_substring};
use vstd::prelude::*;
use vstd::string::StringExecFns;

verus! {

/// The kinds of failure the synchronisation tells apart.
#[derive(Clone, Copy, Debug, PartialEq, Eq, Structural)]
pub enum ErrorKind {
    /// The destination of a clone is already there.
    AlreadyExists,
    /// The tool refuses the directory: it is not trusted, or holds no
    /// repository.
    UnsafeDirectory,
    /// The remote did not accept the credentials, or there were none.
    AuthenticationFailed,
    /// The remote could not be reached.
    NetworkFailure,
    /// The remote has no such branch.
    BranchNotFound,
    /// The tool reported a warning as if it were a failure.
    Benign,
    /// Anything else.
    Other,
}

/// One recorded failure.
#[derive(Debug, PartialEq, Eq)]
pub struct SyncError {
    pub kind: ErrorKind,
    pub message: String,
}

/// A failure as a plain value.
pub struct ErrorView {
    pub kind: ErrorKind,
    pub message: Seq<char>,
}

impl View for SyncError {
    type V = ErrorView;

    open spec fn view(&self) -> ErrorView {
        ErrorView { kind: self.kind, message: self.message@ }
    }
}

/// The views of a list of failures, in order.
pub open spec fn error_views(errors: Seq<SyncError>) -> Seq<ErrorView> {
    errors.map_values(|e: SyncError| e@)
}

/// The kind of failure that a tool's message `text` stands for. The first
/// of these that applies decides: a complaint about the directory, about
/// credentials, about the network, about the branch, about something that
/// exists already, a bare warning. What none of them covers is `Other`.
#[verifier::opaque]
pub open spec fn kind_of(text: Seq<char>) -> ErrorKind {
    if contains(text, "dubious ownership"@) || contains(text, "safe.directory"@) || contains(
        text,
        "not a git repository"@,
    ) {
        ErrorKind::UnsafeDirectory
    } else if contains(text, "Authentication failed"@) || contains(
        text,
        "could not read Username"@,
    ) {
        ErrorKind::AuthenticationFailed
    } else if contains(text, "Could not resolve host"@) || contains(text, "Failed to connect"@) {
        ErrorKind::NetworkFailure
    } else if contains(text, "couldn't find remote ref"@) || contains(text, "did not match any"@)
        || contains(text, "unknown revision"@) {
        ErrorKind::BranchNotFound
    } else if contains(text, "already exists"@) {
        ErrorKind::AlreadyExists
    } else if contains(text, "warning:"@) && !contains(text, "fatal:"@) && !contains(
        text,
        "error:"@,
    ) {
        ErrorKind::Benign
    } else {
        ErrorKind::Other
    }
}

/// The failure that stands for a tool's complaint `text`, reported under
/// `prefix`.
pub open spec fn tool_failure(prefix: Seq<char>, text: Seq<char>) -> ErrorView {
    ErrorView { kind: kind_of(text), message: prefix + text }
}

/// Tells the kind of failure from a tool's message.
pub fn classify(text: &str) -> (kind: ErrorKind)
    ensures
        kind == kind_of(text@),
{
    reveal(kind_of);
    if has_substring(text, "dubious ownership") || has_substring(text, "safe.directory")
        || has_substring(text, "not a git repository") {
        ErrorKind::UnsafeDirectory
    } else if has_substring(text, "Authentication failed") || has_substring(
        text,
        "could not read Username",
    ) {
        ErrorKind::AuthenticationFailed
    } else if has_substring(text, "Could not resolve host") || has_substring(
        text,
        "Failed to connect",
    ) {
        ErrorKind::NetworkFailure
    } else if has_substring(text, "couldn't find remote ref") || has_substring(
        text,
        "did not match any",
    ) || has_substring(text, "unknown revision") {
        ErrorKind::BranchNotFound
    } else if has_substring(text, "already exists") {
        ErrorKind::AlreadyExists
    } else if has_substring(text, "warning:") && !has_substring(text, "fatal:") && !has_substring(
        text,
        "error:",
    ) {
        ErrorKind::Benign
    } else {
        ErrorKind::Other
    }
}

impl SyncError {
    /// A failure of the given kind with the given message.
    pub fn new(kind: ErrorKind, message: &str) -> (e: SyncError)
        ensures
            e@ == (ErrorView { kind, message: message@ }),
    {
        SyncError { kind, message: message.to_owned() }
    }

    /// The failure that stands for a tool's complaint `text`, reported
    /// under `prefix`.
    pub fn from_tool(prefix: &str, text: &str) -> (e: SyncError)
        ensures
            e@ == tool_failure(prefix@, text@),
    {
        let kind = classify(text);
        let message = prefix.to_owned().concat(text);
        SyncError { kind, message }
    }

    /// Whether the way out of this failure is to have the directory
    /// trusted and to try again.
    pub fn remediable(&self) -> (b: bool)
        ensures
            b == (self@.kind == ErrorKind::UnsafeDirectory),
    {
        match self.kind {
            ErrorKind::UnsafeDirectory => true,
            _ => false,
        }
    }

    /// Whether this failure is a warning in disguise.
    pub fn benign(&self) -> (b: bool)
        ensures
            b == (self@.kind == ErrorKind::Benign),
    {
        match self.kind {
            ErrorKind::Benign => true,
            _ => false,
        }
    }
}

impl Clone for SyncError {
    fn clone(&self) -> (e: SyncError)
        ensures
            e == *self,
    {
        SyncError { kind: self.kind, message: self.message.clone() }
    }
}

/// A copy of a list of failures.
pub fn clone_errors(errors: &Vec<SyncError>) -> (copy: Vec<SyncError>)
    ensures
        copy@ == errors@,
{
    let mut copy: Vec<SyncError> = Vec::new();
    let mut i: usize = 0;
    while i < errors.len()
        invariant
            i <= errors.len(),
            copy@ == errors@.take(i as int),
        decreases errors.len() - i,
    {
        copy.push(errors[i].clone());
        assert(errors@.take(i as int).push(errors@[i as int]) =~= errors@.take(i + 1));
        i = i + 1;
    }
    assert(errors@.take(errors.len() as int) =~= errors@);
    copy
}

} // verus!
