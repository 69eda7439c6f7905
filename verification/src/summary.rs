//! Folding case outcomes into the summary of a run.

use crate::case::{CaseOutcome, CaseStatus, OutcomeModel};
use crate::clock::Timestamp;
use crate::layout::{rel_path, relative_to, LayoutModel, RunLayout};
use crate::manifest::{clone_text, CaseModel, Manifest, ManifestModel, TestCase};
use crate::suite::Suite;
use crate::text::{append_decimal, decimal};
use vstd::prelude::*;

verus! {

/// What the summary keeps of one case.
#[derive(Clone, Debug, PartialEq, Eq)]
pub struct CaseDetail {
    pub name: String,
    pub status: CaseStatus,
    pub duration_ms: u128,
    pub exit_code: Option<i32>,
    pub allow_failure: bool,
    /// The case's log, relative to the workspace.
    pub log_path: String,
}

/// The mathematical content of a [`CaseDetail`].
pub struct DetailModel {
    pub name: Seq<char>,
    pub status: CaseStatus,
    pub duration_ms: u128,
    pub exit_code: Option<i32>,
    pub allow_failure: bool,
    pub log_path: Seq<char>,
}

impl View for CaseDetail {
    type V = DetailModel;

    open spec fn view(&self) -> DetailModel {
        DetailModel {
            name: self.name@,
            status: self.status,
            duration_ms: self.duration_ms,
            exit_code: self.exit_code,
            allow_failure: self.allow_failure,
            log_path: self.log_path@,
        }
    }
}

impl DeepView for CaseDetail {
    type V = DetailModel;

    open spec fn deep_view(&self) -> DetailModel {
        self@
    }
}

impl DetailModel {
    /// What the summary keeps of `case` once it ended as `outcome`: the
    /// outcome, the case's name and tolerance, and the log path as seen from
    /// the workspace.
    pub open spec fn of(case: CaseModel, outcome: OutcomeModel, workspace: Seq<char>) -> DetailModel {
        DetailModel {
            name: case.name,
            status: outcome.status,
            duration_ms: outcome.duration_ms,
            exit_code: outcome.exit_code,
            allow_failure: case.allow_failure,
            log_path: relative_to(outcome.log_path, workspace),
        }
    }

    /// Whether this entry is an entry for `case`: it carries the case's name
    /// and tolerance, and the status that its exit code gives under them.
    pub open spec fn matches_case(self, case: CaseModel) -> bool {
        &&& self.name == case.name
        &&& self.allow_failure == case.allow_failure
        &&& self.status == CaseStatus::of(self.exit_code, case.allow_failure)
    }
}

impl CaseDetail {
    /// Folds the outcome of `case` into a summary entry.
    pub fn of(case: &TestCase, outcome: CaseOutcome, workspace: &str) -> (detail: CaseDetail)
        ensures
            detail@ == DetailModel::of(case@, outcome@, workspace@),
    {
        CaseDetail {
            name: case.name.clone(),
            status: outcome.status,
            duration_ms: outcome.duration_ms,
            exit_code: outcome.exit_code,
            allow_failure: case.allow_failure,
            log_path: rel_path(outcome.log_path.as_str(), workspace),
        }
    }
}

/// How many of the entries have the given status.
pub open spec fn tally(details: Seq<DetailModel>, status: CaseStatus) -> nat
    decreases details.len(),
{
    if details.len() == 0 {
        0
    } else {
        tally(details.drop_last(), status) + if details.last().status == status {
            1nat
        } else {
            0nat
        }
    }
}

/// The statuses that the cases get from the given exit codes, case by case.
pub open spec fn replay(cases: Seq<CaseModel>, exit_codes: Seq<Option<i32>>) -> Seq<CaseStatus> {
    Seq::new(cases.len(), |i: int| CaseStatus::of(exit_codes[i], cases[i].allow_failure))
}

/// How many of the statuses are the given one.
pub open spec fn count(statuses: Seq<CaseStatus>, status: CaseStatus) -> nat
    decreases statuses.len(),
{
    if statuses.len() == 0 {
        0
    } else {
        count(statuses.drop_last(), status) + if statuses.last() == status {
            1nat
        } else {
            0nat
        }
    }
}

/// Every entry has exactly one of the three statuses.
pub proof fn lemma_tally_partitions(details: Seq<DetailModel>)
    ensures
        tally(details, CaseStatus::Passed) + tally(details, CaseStatus::Failed) + tally(
            details,
            CaseStatus::SoftFailed,
        ) == details.len(),
    decreases details.len(),
{
    if details.len() > 0 {
        lemma_tally_partitions(details.drop_last());
    }
}

/// Counting one more case keeps the counts equal to the tallies.
pub proof fn lemma_with_case_tallied(summary: SummaryModel, detail: DetailModel)
    requires
        summary.tallied(),
    ensures
        summary.with_case(detail).tallied(),
{
    let grown = summary.cases.push(detail);
    assert(grown.drop_last() =~= summary.cases);
}

/// The line kept in the error marker of a run with failures.
pub open spec fn marker_text(failed: nat, run_log: Seq<char>) -> Seq<char> {
    decimal(failed) + " cases failed. See "@ + run_log + " for details."@
}

/// The message of a run that ends in failure.
pub open spec fn failure_text(suite: Suite, run_log: Seq<char>) -> Seq<char> {
    suite.display_name_text() + " failed. Consult "@ + run_log
}

/// The line kept in the error marker: the number of failed cases and the
/// run log to consult.
pub fn error_marker(failed: usize, run_log: &str) -> (line: String)
    ensures
        line@ == marker_text(failed as nat, run_log@),
{
    let mut line = String::new();
    append_decimal(&mut line, failed as u128);
    line.append(" cases failed. See ");
    line.append(run_log);
    line.append(" for details.");
    line
}

/// The message of a run that ends in failure.
pub fn failure_message(suite: Suite, run_log: &str) -> (line: String)
    ensures
        line@ == failure_text(suite, run_log@),
{
    let mut line = String::from_str(suite.display_name());
    line.append(" failed. Consult ");
    line.append(run_log);
    line
}

/// The summary of a run. All paths are relative to the workspace.
#[derive(Clone, Debug, PartialEq, Eq)]
pub struct RunSummary {
    pub suite: String,
    pub action: String,
    pub description: Option<String>,
    pub arch: Option<String>,
    pub started_at: Timestamp,
    pub finished_at: Timestamp,
    pub total: usize,
    pub passed: usize,
    pub failed: usize,
    pub soft_failed: usize,
    pub log_file: String,
    pub error_log: Option<String>,
    pub case_logs_root: String,
    pub artifacts_root: String,
    pub cases: Vec<CaseDetail>,
}

/// The mathematical content of a [`RunSummary`].
#[verifier::ext_equal]
pub struct SummaryModel {
    pub suite: Seq<char>,
    pub action: Seq<char>,
    pub description: Option<Seq<char>>,
    pub arch: Option<Seq<char>>,
    pub started_at: Timestamp,
    pub finished_at: Timestamp,
    pub total: nat,
    pub passed: nat,
    pub failed: nat,
    pub soft_failed: nat,
    pub log_file: Seq<char>,
    pub error_log: Option<Seq<char>>,
    pub case_logs_root: Seq<char>,
    pub artifacts_root: Seq<char>,
    pub cases: Seq<DetailModel>,
}

impl View for RunSummary {
    type V = SummaryModel;

    open spec fn view(&self) -> SummaryModel {
        SummaryModel {
            suite: self.suite@,
            action: self.action@,
            description: self.description.deep_view(),
            arch: self.arch.deep_view(),
            started_at: self.started_at,
            finished_at: self.finished_at,
            total: self.total as nat,
            passed: self.passed as nat,
            failed: self.failed as nat,
            soft_failed: self.soft_failed as nat,
            log_file: self.log_file@,
            error_log: self.error_log.deep_view(),
            case_logs_root: self.case_logs_root@,
            artifacts_root: self.artifacts_root@,
            cases: self.cases.deep_view(),
        }
    }
}

impl SummaryModel {
    /// The summary of a run that has not started: nothing in it.
    pub open spec fn blank() -> SummaryModel {
        let epoch = Timestamp { secs: 0, nanos: 0, offset_secs: 0 };
        SummaryModel {
            suite: Seq::empty(),
            action: Seq::empty(),
            description: None,
            arch: None,
            started_at: epoch,
            finished_at: epoch,
            total: 0,
            passed: 0,
            failed: 0,
            soft_failed: 0,
            log_file: Seq::empty(),
            error_log: None,
            case_logs_root: Seq::empty(),
            artifacts_root: Seq::empty(),
            cases: Seq::empty(),
        }
    }

    /// The summary of a run of `suite` at the moment it starts: the totals of
    /// the manifest, no case yet.
    pub open spec fn opening(
        manifest: ManifestModel,
        suite: Suite,
        workspace: Seq<char>,
        layout: LayoutModel,
        started_at: Timestamp,
    ) -> SummaryModel {
        SummaryModel {
            suite: manifest.label(suite),
            action: "run"@,
            description: manifest.description,
            arch: manifest.arch,
            started_at,
            finished_at: started_at,
            total: manifest.cases.len(),
            passed: 0,
            failed: 0,
            soft_failed: 0,
            log_file: relative_to(layout.run_log, workspace),
            error_log: None,
            case_logs_root: relative_to(layout.case_logs_root, workspace),
            artifacts_root: relative_to(layout.artifacts_root, workspace),
            cases: Seq::empty(),
        }
    }

    /// The summary with one more case: the entry is appended and the count
    /// of its status grows by one.
    pub open spec fn with_case(self, detail: DetailModel) -> SummaryModel {
        SummaryModel {
            passed: self.passed + if detail.status == CaseStatus::Passed {
                1nat
            } else {
                0nat
            },
            failed: self.failed + if detail.status == CaseStatus::Failed {
                1nat
            } else {
                0nat
            },
            soft_failed: self.soft_failed + if detail.status == CaseStatus::SoftFailed {
                1nat
            } else {
                0nat
            },
            cases: self.cases.push(detail),
            ..self
        }
    }

    /// The summary once the run is over: the end time, and the error marker
    /// where a case failed.
    pub open spec fn closed(self, finished_at: Timestamp, error_log: Seq<char>) -> SummaryModel {
        SummaryModel {
            finished_at,
            error_log: if self.failed > 0 {
                Some(error_log)
            } else {
                None
            },
            ..self
        }
    }

    /// The three counts are the numbers of entries with each status.
    pub open spec fn tallied(self) -> bool {
        &&& self.passed == tally(self.cases, CaseStatus::Passed)
        &&& self.failed == tally(self.cases, CaseStatus::Failed)
        &&& self.soft_failed == tally(self.cases, CaseStatus::SoftFailed)
    }

    /// The entries are entries for the first cases of the manifest, in the
    /// manifest's order.
    pub open spec fn follows(self, cases: Seq<CaseModel>) -> bool {
        &&& self.cases.len() <= cases.len()
        &&& forall|i: int|
            0 <= i < self.cases.len() ==> (#[trigger] self.cases[i]).matches_case(cases[i])
    }

    /// The summary accounts for every case: one entry per case, and counts
    /// that add up to the total.
    pub open spec fn complete(self) -> bool {
        &&& self.cases.len() == self.total
        &&& self.passed + self.failed + self.soft_failed == self.total
    }

    /// A run succeeds when no case failed; soft failures do not count.
    pub open spec fn succeeded(self) -> bool {
        self.failed == 0
    }

    /// The statuses of the entries, in order.
    pub open spec fn statuses(self) -> Seq<CaseStatus> {
        Seq::new(self.cases.len(), |i: int| self.cases[i].status)
    }

    /// The recorded exit codes of the entries, in order.
    pub open spec fn exit_codes(self) -> Seq<Option<i32>> {
        Seq::new(self.cases.len(), |i: int| self.cases[i].exit_code)
    }
}

impl RunSummary {
    /// The summary of a run that has not started.
    pub fn blank() -> (summary: RunSummary)
        ensures
            summary@ == SummaryModel::blank(),
    {
        let epoch = Timestamp { secs: 0, nanos: 0, offset_secs: 0 };
        let summary = RunSummary {
            suite: String::new(),
            action: String::new(),
            description: None,
            arch: None,
            started_at: epoch,
            finished_at: epoch,
            total: 0,
            passed: 0,
            failed: 0,
            soft_failed: 0,
            log_file: String::new(),
            error_log: None,
            case_logs_root: String::new(),
            artifacts_root: String::new(),
            cases: Vec::new(),
        };
        assert(summary@ =~= SummaryModel::blank());
        summary
    }

    /// The summary of a run of `suite` at the moment it starts.
    pub fn opening(
        manifest: &Manifest,
        suite: Suite,
        workspace: &str,
        layout: &RunLayout,
        started_at: Timestamp,
    ) -> (summary: RunSummary)
        ensures
            summary@ == SummaryModel::opening(manifest@, suite, workspace@, layout@, started_at),
    {
        let summary = RunSummary {
            suite: manifest.label(suite),
            action: String::from_str("run"),
            description: clone_text(&manifest.description),
            arch: clone_text(&manifest.arch),
            started_at,
            finished_at: started_at,
            total: manifest.cases.len(),
            passed: 0,
            failed: 0,
            soft_failed: 0,
            log_file: rel_path(layout.run_log.as_str(), workspace),
            error_log: None,
            case_logs_root: rel_path(layout.case_logs_root.as_str(), workspace),
            artifacts_root: rel_path(layout.artifacts_root.as_str(), workspace),
            cases: Vec::new(),
        };
        assert(summary@ =~= SummaryModel::opening(
            manifest@,
            suite,
            workspace@,
            layout@,
            started_at,
        ));
        summary
    }

    /// Appends one case and counts its status.
    pub fn record(&mut self, detail: CaseDetail)
        requires
            old(self)@.tallied(),
        ensures
            final(self)@ == old(self)@.with_case(detail@),
            final(self)@.tallied(),
    {
        proof {
            lemma_tally_partitions(self@.cases);
            lemma_with_case_tallied(self@, detail@);
        }
        let status = detail.status;
        self.cases.push(detail);
        let entries: usize = self.cases.len();
        assert(self.cases.deep_view() =~= old(self).cases.deep_view().push(detail@));
        assert(old(self)@.cases.len() + 1 == entries);
        match status {
            CaseStatus::Passed => {
                self.passed = self.passed + 1;
            },
            CaseStatus::Failed => {
                self.failed = self.failed + 1;
            },
            CaseStatus::SoftFailed => {
                self.soft_failed = self.soft_failed + 1;
            },
        }
        assert(self@ =~= old(self)@.with_case(detail@));
    }

    /// Closes the summary: sets the end time, and names the error marker
    /// where a case failed.
    pub fn close(&mut self, finished_at: Timestamp, error_log: &str)
        ensures
            final(self)@ == old(self)@.closed(finished_at, error_log@),
            old(self)@.tallied() ==> final(self)@.tallied(),
    {
        self.finished_at = finished_at;
        if self.failed > 0 {
            self.error_log = Some(String::from_str(error_log));
        } else {
            self.error_log = None;
        }
        assert(self@ =~= old(self)@.closed(finished_at, error_log@));
    }

    /// Whether the run succeeded: no case failed.
    pub fn succeeded(&self) -> (yes: bool)
        ensures
            yes == self@.succeeded(),
    {
        self.failed == 0
    }
}

} // verus!
