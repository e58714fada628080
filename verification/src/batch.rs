//! The run over all files of one invocation: one report per file, in the
//! order in which the files were given, and the exit status that they add up
//! to.

use vstd::prelude::*;
use crate::endpoint::{asset_name, Action, Asset};
use crate::submission::{ErrorKind, FileVerdict, VerdictView};

verus! {

/// What a file without a route means for the exit status.
#[derive(Debug, Clone, Copy, PartialEq, Eq, Structural)]
pub enum UnroutedPolicy {
    /// It is reported and does not fail the run.
    Warn,
    /// It is reported and fails the run.
    Fail,
}

/// The policy for a file under an action: a file that the user named
/// fails an update when it has no route, and nothing else does.
pub open spec fn policy_for(action: Action, named_by_user: bool) -> UnroutedPolicy {
    if action == Action::Update && named_by_user {
        UnroutedPolicy::Fail
    } else {
        UnroutedPolicy::Warn
    }
}

impl UnroutedPolicy {
    /// The policy for a file under `action`.
    pub fn for_action(action: Action, named_by_user: bool) -> (policy: UnroutedPolicy)
        ensures
            policy == policy_for(action, named_by_user),
    {
        match action {
            Action::Update => if named_by_user {
                UnroutedPolicy::Fail
            } else {
                UnroutedPolicy::Warn
            },
            Action::Validate => UnroutedPolicy::Warn,
        }
    }
}

/// Whether a verdict fails the run: every failure does, success never, and
/// a skipped file as the policy says.
pub open spec fn counts_as_failure(policy: UnroutedPolicy, verdict: VerdictView) -> bool {
    match verdict {
        VerdictView::Success => false,
        VerdictView::Skipped => policy == UnroutedPolicy::Fail,
        VerdictView::Failed { .. } => true,
    }
}

/// The report on one file.
#[derive(Debug, Clone, PartialEq, Eq)]
pub struct FileReport {
    pub file: String,
    pub policy: UnroutedPolicy,
    pub verdict: FileVerdict,
}

/// The mathematical value of a [`FileReport`].
pub struct ReportView {
    pub file: Seq<char>,
    pub policy: UnroutedPolicy,
    pub verdict: VerdictView,
}

impl View for FileReport {
    type V = ReportView;

    open spec fn view(&self) -> ReportView {
        ReportView { file: self.file@, policy: self.policy, verdict: self.verdict@ }
    }
}

/// The views of a vector of reports, in order.
pub open spec fn report_views(v: Seq<FileReport>) -> Seq<ReportView> {
    Seq::new(v.len(), |i: int| v[i]@)
}

/// Whether a report fails the run.
pub open spec fn report_fails(report: ReportView) -> bool {
    counts_as_failure(report.policy, report.verdict)
}

/// Whether any of the reports fails the run.
pub open spec fn any_failure(reports: Seq<ReportView>) -> bool {
    exists|i: int| 0 <= i < reports.len() && report_fails(#[trigger] reports[i])
}

/// The exit status of a run with these reports: 0 where none fails the run,
/// 1 otherwise.
pub open spec fn exit_status(reports: Seq<ReportView>) -> int {
    if any_failure(reports) {
        1
    } else {
        0
    }
}

/// The run over the files of one invocation.
#[derive(Debug)]
pub struct BatchRunner {
    reports: Vec<FileReport>,
    failed: bool,
}

impl View for BatchRunner {
    type V = Seq<ReportView>;

    closed spec fn view(&self) -> Seq<ReportView> {
        report_views(self.reports@)
    }
}

impl BatchRunner {
    #[verifier::type_invariant]
    spec fn flag_agrees(self) -> bool {
        self.failed == any_failure(report_views(self.reports@))
    }

    /// The run before any file.
    pub fn new() -> (runner: BatchRunner)
        ensures
            runner@ == Seq::<ReportView>::empty(),
    {
        let runner = BatchRunner { reports: Vec::new(), failed: false };
        proof {
            assert(runner@ =~= Seq::<ReportView>::empty());
        }
        runner
    }

    /// Takes the verdict on the next file and answers whether it fails the
    /// run.
    pub fn record(&mut self, file: String, policy: UnroutedPolicy, verdict: FileVerdict) -> (fails:
        bool)
        ensures
            final(self)@ == old(self)@.push(ReportView { file: file@, policy, verdict: verdict@ }),
            fails == counts_as_failure(policy, verdict@),
    {
        proof {
            use_type_invariant(&*self);
        }
        let fails = match &verdict {
            FileVerdict::Success => false,
            FileVerdict::Skipped => match policy {
                UnroutedPolicy::Fail => true,
                UnroutedPolicy::Warn => false,
            },
            FileVerdict::Failed { .. } => true,
        };
        let report = FileReport { file, policy, verdict };
        let failed = self.failed || fails;
        // Flag and reports change at once: the runner is taken apart and put
        // together again.
        let mut taken = BatchRunner::new();
        std::mem::swap(&mut taken, self);
        let mut reports = taken.reports;
        let ghost before = report_views(reports@);
        reports.push(report);
        proof {
            assert(report_views(reports@) =~= before.push(report@));
            lemma_failure_is_kept(before, report@);
        }
        *self = BatchRunner { reports, failed };
        fails
    }

    /// The reports so far, one per file, in the order of the files.
    pub fn reports(&self) -> (reports: &Vec<FileReport>)
        ensures
            report_views(reports@) == self@,
    {
        &self.reports
    }

    /// The number of reports so far.
    pub fn len(&self) -> (n: usize)
        ensures
            n == self@.len(),
    {
        self.reports.len()
    }

    /// Whether any file so far fails the run.
    pub fn had_failure(&self) -> (failed: bool)
        ensures
            failed == any_failure(self@),
    {
        proof {
            use_type_invariant(self);
        }
        self.failed
    }

    /// The exit status of the run: 0 where no file fails it, 1 otherwise.
    pub fn exit_code(&self) -> (code: i32)
        ensures
            code == exit_status(self@),
    {
        if self.had_failure() {
            1
        } else {
            0
        }
    }
}

/// The run exits with 0 exactly when every file succeeded or was skipped
/// under a policy that only warns.
pub proof fn lemma_exit_status(reports: Seq<ReportView>)
    ensures
        exit_status(reports) == 0 || exit_status(reports) == 1,
        exit_status(reports) == 0 <==> forall|i: int|
            0 <= i < reports.len() ==> {
                ||| (#[trigger] reports[i]).verdict is Success
                ||| (reports[i].verdict is Skipped && reports[i].policy == UnroutedPolicy::Warn)
            },
{
    if exit_status(reports) == 0 {
        assert forall|i: int| 0 <= i < reports.len() implies {
            ||| (#[trigger] reports[i]).verdict is Success
            ||| (reports[i].verdict is Skipped && reports[i].policy == UnroutedPolicy::Warn)
        } by {
            assert(!report_fails(reports[i]));
        }
    } else {
        let i = choose|i: int| 0 <= i < reports.len() && report_fails(#[trigger] reports[i]);
        assert(!(reports[i].verdict is Success));
    }
}

/// A run that has failed stays failed, whatever is reported after.
pub proof fn lemma_failure_is_kept(reports: Seq<ReportView>, next: ReportView)
    ensures
        any_failure(reports) ==> any_failure(reports.push(next)),
        any_failure(reports.push(next)) <==> any_failure(reports) || report_fails(next),
{
    let now = reports.push(next);
    if any_failure(reports) {
        let i = choose|i: int| 0 <= i < reports.len() && report_fails(#[trigger] reports[i]);
        assert(now[i] == reports[i]);
    }
    if report_fails(next) {
        assert(report_fails(now[reports.len() as int]));
    }
    if any_failure(now) {
        let i = choose|i: int| 0 <= i < now.len() && report_fails(#[trigger] now[i]);
        if i < reports.len() {
            assert(reports[i] == now[i]);
        }
    }
}

/// What is said of a failure: a read error names the file that could not be
/// read, and under an update a request that did not succeed names the asset
/// whose upload it was.
pub open spec fn failure_text(
    action: Action,
    kind: ErrorKind,
    asset: Asset,
    message: Seq<char>,
) -> Seq<char> {
    match kind {
        ErrorKind::ReadError => if asset == Asset::Config {
            "read error: "@ + message
        } else {
            asset_name(asset) + " read error: "@ + message
        },
        ErrorKind::NoRouteMatch => message,
        _ => match action {
            Action::Validate => message,
            Action::Update => asset_name(asset) + " upload failed: "@ + message,
        },
    }
}

/// The line that reports on one file, without the marker in front of it.
pub open spec fn report_text(action: Action, report: ReportView) -> Seq<char> {
    match report.verdict {
        VerdictView::Success => match action {
            Action::Validate => report.file + " is valid"@,
            Action::Update => report.file + " submitted"@,
        },
        VerdictView::Skipped => "Skipping "@ + report.file + " (no route matched)"@,
        VerdictView::Failed { kind, asset, message } => report.file + ": "@ + failure_text(
            action,
            kind,
            asset,
            message,
        ),
    }
}

/// What is said of a failure of `kind` on `asset` with the message
/// `message`.
pub fn describe_failure(action: Action, kind: ErrorKind, asset: Asset, message: &str) -> (text:
    String)
    ensures
        text@ == failure_text(action, kind, asset, message@),
{
    let mut text = String::new();
    match kind {
        ErrorKind::ReadError => {
            match asset {
                Asset::Config => {
                    text.append("read error: ");
                },
                _ => {
                    text.append(asset.name());
                    text.append(" read error: ");
                },
            }
        },
        ErrorKind::NoRouteMatch => {},
        _ => {
            match action {
                Action::Validate => {},
                Action::Update => {
                    text.append(asset.name());
                    text.append(" upload failed: ");
                },
            }
        },
    }
    text.append(message);
    proof {
        assert(text@ =~= failure_text(action, kind, asset, message@));
    }
    text
}

impl FileReport {
    /// The line that reports on the file, without the marker in front of it.
    pub fn text(&self, action: Action) -> (line: String)
        ensures
            line@ == report_text(action, self@),
    {
        let mut line = String::new();
        match &self.verdict {
            FileVerdict::Success => {
                line.append(self.file.as_str());
                match action {
                    Action::Validate => {
                        line.append(" is valid");
                    },
                    Action::Update => {
                        line.append(" submitted");
                    },
                }
            },
            FileVerdict::Skipped => {
                line.append("Skipping ");
                line.append(self.file.as_str());
                line.append(" (no route matched)");
            },
            FileVerdict::Failed { kind, asset, message } => {
                let said = describe_failure(action, *kind, *asset, message.as_str());
                line.append(self.file.as_str());
                line.append(": ");
                line.append(said.as_str());
            },
        }
        proof {
            assert(line@ =~= report_text(action, self@));
        }
        line
    }
}

} // verus!
