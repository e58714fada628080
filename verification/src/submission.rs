//! The course of one file's submission: its requests are sent one after the
//! other, and the first that does not succeed ends it.
//!
//! The caller does the sending. It asks for the next request, sends it, and
//! hands back the outcome, until no request is left to ask for.

use vstd::prelude::*;
use crate::endpoint::Asset;
use crate::request::{request_views, ReadError, ReadErrorView, Request, RequestView};
use crate::response::{OutcomeView, SubmissionOutcome};

verus! {

/// Why a file was not submitted in full.
#[derive(Debug, Clone, Copy, PartialEq, Eq, Structural)]
pub enum ErrorKind {
    /// No template matched the path, or the match led to no endpoint.
    NoRouteMatch,
    /// A local file could not be read.
    ReadError,
    /// A request did not reach the service.
    TransportError,
    /// The service's answer was malformed.
    ProtocolError,
    /// The service refused the submission.
    RemoteFailure,
}

/// How one file ended.
#[derive(Debug, Clone, PartialEq, Eq)]
pub enum FileVerdict {
    /// Every request of the file succeeded.
    Success,
    /// The file has no route and nothing was sent.
    Skipped,
    /// A file could not be read or a request did not succeed.
    Failed { kind: ErrorKind, asset: Asset, message: String },
}

/// The mathematical value of a [`FileVerdict`].
pub enum VerdictView {
    Success,
    Skipped,
    Failed { kind: ErrorKind, asset: Asset, message: Seq<char> },
}

impl View for FileVerdict {
    type V = VerdictView;

    open spec fn view(&self) -> VerdictView {
        match self {
            FileVerdict::Success => VerdictView::Success,
            FileVerdict::Skipped => VerdictView::Skipped,
            FileVerdict::Failed { kind, asset, message } => VerdictView::Failed {
                kind: *kind,
                asset: *asset,
                message: message@,
            },
        }
    }
}

/// The kind of error that a verdict reports, if it reports one.
pub open spec fn kind_of(verdict: VerdictView) -> Option<ErrorKind> {
    match verdict {
        VerdictView::Success => None,
        VerdictView::Skipped => Some(ErrorKind::NoRouteMatch),
        VerdictView::Failed { kind, .. } => Some(kind),
    }
}

/// The failure that the outcome of the request for `asset` means for its
/// file; none where the request succeeded.
pub open spec fn failure_of(asset: Asset, outcome: OutcomeView) -> Option<VerdictView> {
    match outcome {
        OutcomeView::Success => None,
        OutcomeView::Failure { message } => Some(
            VerdictView::Failed { kind: ErrorKind::RemoteFailure, asset, message },
        ),
        OutcomeView::TransportError { detail } => Some(
            VerdictView::Failed { kind: ErrorKind::TransportError, asset, message: detail },
        ),
        OutcomeView::ProtocolError { detail } => Some(
            VerdictView::Failed { kind: ErrorKind::ProtocolError, asset, message: detail },
        ),
    }
}

/// The failure that a read error means for its file.
pub open spec fn read_failure(error: ReadErrorView) -> VerdictView {
    VerdictView::Failed { kind: ErrorKind::ReadError, asset: error.asset, message: error.detail }
}

impl FileVerdict {
    /// The kind of error that the verdict reports, if it reports one.
    pub fn kind(&self) -> (kind: Option<ErrorKind>)
        ensures
            kind == kind_of(self@),
    {
        match self {
            FileVerdict::Success => None,
            FileVerdict::Skipped => Some(ErrorKind::NoRouteMatch),
            FileVerdict::Failed { kind, .. } => Some(*kind),
        }
    }

    /// The verdict on a file that could not be read.
    pub fn from_read_error(error: ReadError) -> (verdict: FileVerdict)
        ensures
            verdict@ == read_failure(error@),
    {
        FileVerdict::Failed { kind: ErrorKind::ReadError, asset: error.asset, message: error.detail }
    }

    /// The failure that `outcome` of the request for `asset` means.
    pub fn from_outcome(asset: Asset, outcome: SubmissionOutcome) -> (verdict: Option<FileVerdict>)
        ensures
            match verdict {
                Some(failure) => failure_of(asset, outcome@) == Some(failure@),
                None => failure_of(asset, outcome@) is None,
            },
    {
        match outcome {
            SubmissionOutcome::Success => None,
            SubmissionOutcome::Failure { message } => Some(
                FileVerdict::Failed { kind: ErrorKind::RemoteFailure, asset, message },
            ),
            SubmissionOutcome::TransportError { detail } => Some(
                FileVerdict::Failed { kind: ErrorKind::TransportError, asset, message: detail },
            ),
            SubmissionOutcome::ProtocolError { detail } => Some(
                FileVerdict::Failed { kind: ErrorKind::ProtocolError, asset, message: detail },
            ),
        }
    }
}

/// The mathematical value of a [`Submission`].
pub struct SubmissionView {
    /// The requests of the file, in sending order.
    pub requests: Seq<RequestView>,
    /// How many of them have succeeded.
    pub sent: nat,
    /// The failure that ended the submission, if one did.
    pub failure: Option<VerdictView>,
}

/// The submission of `requests` before anything is sent.
pub open spec fn started(requests: Seq<RequestView>) -> SubmissionView {
    SubmissionView { requests, sent: 0, failure: None }
}

/// The request to send next: the first that has not been sent, unless one
/// has failed.
pub open spec fn pending(state: SubmissionView) -> Option<RequestView> {
    if state.failure is None && state.sent < state.requests.len() {
        Some(state.requests[state.sent as int])
    } else {
        None
    }
}

/// The state after the outcome of the pending request is known. Where no
/// request is pending the outcome belongs to none and changes nothing.
pub open spec fn recorded(state: SubmissionView, outcome: OutcomeView) -> SubmissionView {
    match pending(state) {
        None => state,
        Some(request) => match failure_of(request.asset, outcome) {
            None => SubmissionView { sent: state.sent + 1, ..state },
            Some(failure) => SubmissionView { failure: Some(failure), ..state },
        },
    }
}

/// The verdict on the file, once no request is pending: the failure that
/// ended the submission, or success where every request succeeded.
pub open spec fn verdict_of(state: SubmissionView) -> Option<VerdictView> {
    match state.failure {
        Some(failure) => Some(failure),
        None => if state.sent >= state.requests.len() {
            Some(VerdictView::Success)
        } else {
            None
        },
    }
}

/// The state of the submission of `requests` after the outcomes `outcomes`
/// were handed in, in this order.
pub open spec fn after(requests: Seq<RequestView>, outcomes: Seq<OutcomeView>) -> SubmissionView
    decreases outcomes.len(),
{
    if outcomes.len() == 0 {
        started(requests)
    } else {
        recorded(after(requests, outcomes.drop_last()), outcomes.last())
    }
}

/// The course of one file's submission.
#[derive(Debug)]
pub struct Submission {
    requests: Vec<Request>,
    sent: usize,
    failure: Option<FileVerdict>,
}

impl View for Submission {
    type V = SubmissionView;

    closed spec fn view(&self) -> SubmissionView {
        SubmissionView {
            requests: request_views(self.requests@),
            sent: self.sent as nat,
            failure: match self.failure {
                Some(failure) => Some(failure@),
                None => None,
            },
        }
    }
}

impl Submission {
    /// Starts the submission of `requests`.
    pub fn new(requests: Vec<Request>) -> (submission: Submission)
        ensures
            submission@ == started(request_views(requests@)),
    {
        Submission { requests, sent: 0, failure: None }
    }

    /// The request to send next; none once the submission has ended.
    pub fn next_request(&self) -> (request: Option<&Request>)
        ensures
            match request {
                Some(next) => pending(self@) == Some(next@),
                None => pending(self@) is None,
            },
    {
        if self.failure.is_none() && self.sent < self.requests.len() {
            Some(&self.requests[self.sent])
        } else {
            None
        }
    }

    /// Takes the outcome of the request that was pending.
    pub fn record(&mut self, outcome: SubmissionOutcome)
        ensures
            final(self)@ == recorded(old(self)@, outcome@),
    {
        if self.failure.is_none() && self.sent < self.requests.len() {
            let asset = self.requests[self.sent].asset;
            match FileVerdict::from_outcome(asset, outcome) {
                None => {
                    self.sent = self.sent + 1;
                },
                Some(failure) => {
                    self.failure = Some(failure);
                },
            }
        }
    }

    /// Whether the submission has ended.
    pub fn is_finished(&self) -> (finished: bool)
        ensures
            finished == (pending(self@) is None),
    {
        !(self.failure.is_none() && self.sent < self.requests.len())
    }

    /// The verdict on the file; none while a request is pending.
    pub fn verdict(&self) -> (verdict: Option<FileVerdict>)
        ensures
            match verdict {
                Some(found) => verdict_of(self@) == Some(found@),
                None => verdict_of(self@) is None,
            },
            verdict is Some <==> pending(self@) is None,
    {
        match &self.failure {
            Some(failure) => Some(failure.duplicate()),
            None => if self.sent >= self.requests.len() {
                Some(FileVerdict::Success)
            } else {
                None
            },
        }
    }
}

impl FileVerdict {
    /// A copy of the verdict.
    pub fn duplicate(&self) -> (copy: FileVerdict)
        ensures
            copy@ == self@,
    {
        match self {
            FileVerdict::Success => FileVerdict::Success,
            FileVerdict::Skipped => FileVerdict::Skipped,
            FileVerdict::Failed { kind, asset, message } => FileVerdict::Failed {
                kind: *kind,
                asset: *asset,
                message: message.clone(),
            },
        }
    }
}

/// Whether the first `count` of `outcomes` are all successes.
pub open spec fn all_succeeded(outcomes: Seq<OutcomeView>, count: int) -> bool {
    forall|i: int| 0 <= i < count ==> #[trigger] outcomes[i] is Success
}

/// After any outcomes, the requests that count as sent all succeeded, and a
/// failure is that of the first outcome that was no success.
pub proof fn lemma_after_shape(requests: Seq<RequestView>, outcomes: Seq<OutcomeView>)
    ensures
        ({
            let state = after(requests, outcomes);
            &&& state.requests == requests
            &&& state.sent <= outcomes.len()
            &&& state.sent <= requests.len()
            &&& all_succeeded(outcomes, state.sent as int)
            &&& match state.failure {
                None => state.sent == outcomes.len() || state.sent == requests.len(),
                Some(failure) => {
                    &&& state.sent < outcomes.len()
                    &&& state.sent < requests.len()
                    &&& failure_of(
                        requests[state.sent as int].asset,
                        outcomes[state.sent as int],
                    ) == Some(failure)
                },
            }
        }),
    decreases outcomes.len(),
{
    if outcomes.len() > 0 {
        let head = outcomes.drop_last();
        lemma_after_shape(requests, head);
        let before = after(requests, head);
        assert forall|i: int| 0 <= i < before.sent implies #[trigger] outcomes[i] is Success by {
            assert(head[i] is Success);
        }
        if before.failure is Some {
            assert(outcomes[before.sent as int] == head[before.sent as int]);
        }
    }
}

/// A file succeeds exactly when every one of its requests was answered with
/// success: one outcome of any other kind among them fails the file.
pub proof fn lemma_success_needs_all(requests: Seq<RequestView>, outcomes: Seq<OutcomeView>)
    ensures
        verdict_of(after(requests, outcomes)) == Some(VerdictView::Success) <==> outcomes.len()
            >= requests.len() && all_succeeded(outcomes, requests.len() as int),
{
    lemma_after_shape(requests, outcomes);
    let state = after(requests, outcomes);
    if outcomes.len() >= requests.len() && all_succeeded(outcomes, requests.len() as int) {
        if state.failure is Some {
            assert(outcomes[state.sent as int] is Success);
        }
    }
    if let Some(failure) = state.failure {
        assert(failure != VerdictView::Success);
    }
}

/// The first outcome that is no success settles how the file ends: it fails
/// with the error of that request, whatever comes after.
pub proof fn lemma_first_failure_decides(
    requests: Seq<RequestView>,
    outcomes: Seq<OutcomeView>,
    at: int,
)
    requires
        0 <= at < outcomes.len(),
        at < requests.len(),
        all_succeeded(outcomes, at),
        !(outcomes[at] is Success),
    ensures
        verdict_of(after(requests, outcomes)) == failure_of(requests[at].asset, outcomes[at]),
{
    lemma_after_shape(requests, outcomes);
    let state = after(requests, outcomes);
    if state.sent < at {
        assert(outcomes[state.sent as int] is Success);
    }
    if state.sent > at {
        assert(outcomes[at] is Success);
    }
}

} // verus!
