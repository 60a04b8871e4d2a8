//! How often a pull is tried again, and what is done about a failure
//! before the next try.
//!
//! A pull that fails because the directory is not trusted is tried again
//! once the directory has been trusted and fetched; that costs nothing of
//! the budget. A failure the tool reports for what is only a warning
//! counts as a pull that brought changes. Every other failure uses up one
//! of `MAX_RETRIES` tries and is followed by a pause. No pull is started
//! once `ATTEMPT_CEILING` pulls have been started, whatever their
//! failures were.

use crate::error::{clone_errors, error_views, ErrorKind, ErrorView, SyncError};
use vstd::prelude::*;

verus! {

/// How many failures that no remedy exists for end the pull.
pub const MAX_RETRIES: u32 = 3;

/// The pause, in seconds, after such a failure.
pub const RETRY_DELAY_SECONDS: u64 = 3;

/// How many pulls are started at most, remedied ones included.
pub const ATTEMPT_CEILING: u32 = 10;

/// Where a pull with its retries stands.
#[derive(Debug, PartialEq, Eq)]
pub struct RetryState {
    /// The pulls started so far.
    pub attempts: u32,
    /// The failures that used up a try.
    pub failures: u32,
    /// Every failure met so far, oldest first.
    pub errors: Vec<SyncError>,
}

/// The state of a pull as a plain value.
pub struct RetryView {
    pub attempts: u32,
    pub failures: u32,
    pub errors: Seq<ErrorView>,
}

impl View for RetryState {
    type V = RetryView;

    open spec fn view(&self) -> RetryView {
        RetryView {
            attempts: self.attempts,
            failures: self.failures,
            errors: error_views(self.errors@),
        }
    }
}

/// What is to follow an attempt.
#[derive(Debug, PartialEq, Eq)]
pub enum Verdict {
    /// The pull is done; `changed` says whether it brought anything.
    Settled { changed: bool },
    /// The directory is to be trusted and fetched, then the pull tried
    /// again.
    Remediate,
    /// The pull is to be tried again after a pause.
    RetryAfter { seconds: u64 },
    /// The pull has failed for good, with every failure it met.
    GiveUp { errors: Vec<SyncError> },
}

/// A verdict as a plain value.
pub enum VerdictView {
    Settled { changed: bool },
    Remediate,
    RetryAfter { seconds: u64 },
    GiveUp { errors: Seq<ErrorView> },
}

impl View for Verdict {
    type V = VerdictView;

    open spec fn view(&self) -> VerdictView {
        match self {
            Verdict::Settled { changed } => VerdictView::Settled { changed: *changed },
            Verdict::Remediate => VerdictView::Remediate,
            Verdict::RetryAfter { seconds } => VerdictView::RetryAfter { seconds: *seconds },
            Verdict::GiveUp { errors } => VerdictView::GiveUp { errors: error_views(errors@) },
        }
    }
}

/// The state before the first pull.
pub open spec fn fresh() -> RetryView {
    RetryView { attempts: 0, failures: 0, errors: Seq::empty() }
}

/// Whether another pull may be started.
pub open spec fn may_attempt(state: RetryView) -> bool {
    state.attempts < ATTEMPT_CEILING
}

/// The state once another pull has been started.
pub open spec fn attempt_started(state: RetryView) -> RetryView {
    RetryView { attempts: (state.attempts + 1) as u32, ..state }
}

/// The state with one more failure noted that uses up no try.
pub open spec fn failure_noted(state: RetryView, error: ErrorView) -> RetryView {
    RetryView { errors: state.errors.push(error), ..state }
}

/// The state and the verdict after an attempt that ended as `attempt`:
/// with the truth of whether the branch moved, or with a failure.
pub open spec fn after_attempt(state: RetryView, attempt: Result<bool, ErrorView>) -> (
    RetryView,
    VerdictView,
) {
    match attempt {
        Ok(changed) => (state, VerdictView::Settled { changed }),
        Err(error) => if error.kind == ErrorKind::Benign {
            (state, VerdictView::Settled { changed: true })
        } else if error.kind == ErrorKind::UnsafeDirectory {
            let noted = failure_noted(state, error);
            if may_attempt(noted) {
                (noted, VerdictView::Remediate)
            } else {
                (noted, VerdictView::GiveUp { errors: noted.errors })
            }
        } else {
            let noted = RetryView {
                failures: if state.failures < u32::MAX {
                    (state.failures + 1) as u32
                } else {
                    state.failures
                },
                ..failure_noted(state, error)
            };
            if noted.failures >= MAX_RETRIES || !may_attempt(noted) {
                (noted, VerdictView::GiveUp { errors: noted.errors })
            } else {
                (noted, VerdictView::RetryAfter { seconds: RETRY_DELAY_SECONDS })
            }
        },
    }
}

/// The view of the outcome of one attempt.
pub open spec fn attempt_view(attempt: Result<bool, SyncError>) -> Result<bool, ErrorView> {
    match attempt {
        Ok(b) => Ok(b),
        Err(e) => Err(e@),
    }
}

impl RetryState {
    /// The state before the first pull.
    pub fn new() -> (state: RetryState)
        ensures
            state@ == fresh(),
    {
        let errors: Vec<SyncError> = Vec::new();
        assert(error_views(errors@) =~= Seq::empty());
        RetryState { attempts: 0, failures: 0, errors }
    }

    /// Whether another pull may be started.
    pub fn may_attempt(&self) -> (b: bool)
        ensures
            b == may_attempt(self@),
    {
        self.attempts < ATTEMPT_CEILING
    }

    /// Notes that another pull has been started.
    pub fn start_attempt(&mut self)
        requires
            may_attempt(old(self)@),
        ensures
            final(self)@ == attempt_started(old(self)@),
    {
        self.attempts = self.attempts + 1;
    }

    /// Notes a failure that uses up no try.
    pub fn note_failure(&mut self, error: SyncError)
        ensures
            final(self)@ == failure_noted(old(self)@, error@),
    {
        self.errors.push(error);
        assert(error_views(self.errors@) =~= error_views(old(self).errors@).push(error@));
    }

    /// Decides what follows an attempt that ended as `attempt`.
    pub fn pull_with_retry(&mut self, attempt: Result<bool, SyncError>) -> (verdict: Verdict)
        ensures
            (final(self)@, verdict@) == after_attempt(old(self)@, attempt_view(attempt)),
    {
        match attempt {
            Ok(changed) => Verdict::Settled { changed },
            Err(error) => {
                if error.benign() {
                    Verdict::Settled { changed: true }
                } else if error.remediable() {
                    self.note_failure(error);
                    if self.may_attempt() {
                        Verdict::Remediate
                    } else {
                        Verdict::GiveUp { errors: clone_errors(&self.errors) }
                    }
                } else {
                    self.note_failure(error);
                    if self.failures < u32::MAX {
                        self.failures = self.failures + 1;
                    }
                    if self.failures >= MAX_RETRIES || !self.may_attempt() {
                        Verdict::GiveUp { errors: clone_errors(&self.errors) }
                    } else {
                        Verdict::RetryAfter { seconds: RETRY_DELAY_SECONDS }
                    }
                }
            },
        }
    }
}

/// Whether a failure uses up a try: it is neither remedied nor taken for
/// a warning.
pub open spec fn uses_a_try(error: ErrorView) -> bool {
    error.kind != ErrorKind::Benign && error.kind != ErrorKind::UnsafeDirectory
}

/// A pull that fails three times with failures that use up a try is tried
/// again after a pause of `RETRY_DELAY_SECONDS` the first and the second
/// time, and has failed for good the third time, with the three failures
/// in the order they came.
pub proof fn law_retry_ceiling(first: ErrorView, second: ErrorView, third: ErrorView)
    requires
        uses_a_try(first),
        uses_a_try(second),
        uses_a_try(third),
    ensures
        ({
            let one = after_attempt(attempt_started(fresh()), Err(first));
            let two = after_attempt(attempt_started(one.0), Err(second));
            let three = after_attempt(attempt_started(two.0), Err(third));
            &&& one.1 == VerdictView::RetryAfter { seconds: RETRY_DELAY_SECONDS }
            &&& two.1 == VerdictView::RetryAfter { seconds: RETRY_DELAY_SECONDS }
            &&& three.1 == VerdictView::GiveUp { errors: seq![first, second, third] }
            &&& three.0.attempts == 3
        }),
{
    let one = after_attempt(attempt_started(fresh()), Err(first));
    let two = after_attempt(attempt_started(one.0), Err(second));
    let three = after_attempt(attempt_started(two.0), Err(third));
    assert(three.0.errors =~= seq![first, second, third]);
}

/// A pull that is refused because the directory is not trusted is
/// remedied, and the failure uses up no try: a pull that then succeeds
/// settles with what it brought.
pub proof fn law_remediation_is_free(state: RetryView, refusal: ErrorView, changed: bool)
    requires
        refusal.kind == ErrorKind::UnsafeDirectory,
        state.attempts < ATTEMPT_CEILING,
    ensures
        ({
            let refused = after_attempt(state, Err(refusal));
            let settled = after_attempt(attempt_started(refused.0), Ok(changed));
            &&& refused.1 == VerdictView::Remediate
            &&& refused.0.failures == state.failures
            &&& settled.1 == VerdictView::Settled { changed }
            &&& settled.0.failures == state.failures
        }),
{
}

/// However the attempts end, the pull is over once `ATTEMPT_CEILING`
/// pulls have been started: the verdict on the last of them is never to
/// try again.
pub proof fn law_attempts_bounded(state: RetryView, attempt: Result<bool, ErrorView>)
    requires
        state.attempts >= ATTEMPT_CEILING,
    ensures
        after_attempt(state, attempt).1 is Settled || after_attempt(state, attempt).1 is GiveUp,
{
}

} // verus!
