//! What holds of every run, proved over the state machine.
//!
//! A run is the state reached from [`RunModel::initial`] by any sequence of
//! events, each read at some time. Every law here is stated of all such
//! runs.

use crate::case::{CaseStatus, PlanModel};
use crate::clock::Timestamp;
use crate::effect::{EffectModel, EventModel};
use crate::engine::{lemma_initial_wf, lemma_step_wf, Phase, RunModel};
use crate::error::FatalModel;
use crate::components::{body_start, last_name_end, name_start, parent_of};
use crate::layout::{directory_of, is_slug_char, join, lemma_slug_is_safe, manifest_path_of, slug_of,
    LayoutModel};
use crate::manifest::{CaseModel, ManifestModel};
use crate::suite::Suite;
use crate::summary::{count, lemma_tally_partitions, replay, tally, DetailModel, SummaryModel};
use vstd::prelude::*;

verus! {

/// The state of the run of `suite` below `workspace` after the given
/// events, each paired with the time it was read at.
pub open spec fn run_after(
    suite: Suite,
    workspace: Seq<char>,
    events: Seq<(EventModel, Timestamp)>,
) -> RunModel
    decreases events.len(),
{
    if events.len() == 0 {
        RunModel::initial(suite, workspace)
    } else {
        run_after(suite, workspace, events.drop_last()).step(events.last().0, events.last().1).0
    }
}

/// Whether the effects replace the contents of the file at `path`.
pub open spec fn writes_file(effects: Seq<EffectModel>, path: Seq<char>) -> bool {
    exists|i: int|
        0 <= i < effects.len() && (#[trigger] effects[i]) is WriteFile
            && effects[i]->WriteFile_path == path
}

/// Whether the effects remove the file at `path`.
pub open spec fn removes_file(effects: Seq<EffectModel>, path: Seq<char>) -> bool {
    exists|i: int|
        0 <= i < effects.len() && (#[trigger] effects[i]) is RemoveFile
            && effects[i]->RemoveFile_path == path
}

/// Whether the effects touch the file system to change it.
pub open spec fn changes_files(effects: Seq<EffectModel>) -> bool {
    exists|i: int|
        0 <= i < effects.len() && !((#[trigger] effects[i]) is Abort || effects[i] is Finish
            || effects[i] is Announce || effects[i] is Probe || effects[i] is LoadManifest)
}

/// Every run satisfies the invariant [`RunModel::wf`], whatever events it
/// has taken.
pub proof fn law_run_invariant(
    suite: Suite,
    workspace: Seq<char>,
    events: Seq<(EventModel, Timestamp)>,
)
    ensures
        run_after(suite, workspace, events).wf(),
    decreases events.len(),
{
    if events.len() == 0 {
        lemma_initial_wf(suite, workspace);
    } else {
        law_run_invariant(suite, workspace, events.drop_last());
        lemma_step_wf(
            run_after(suite, workspace, events.drop_last()),
            events.last().0,
            events.last().1,
        );
    }
}

/// A run that has gone through its cases has a manifest of at least one
/// case, and its summary lists exactly the cases of the manifest, in the
/// manifest's order; the total is their number.
pub proof fn law_completed_run_lists_every_case(
    suite: Suite,
    workspace: Seq<char>,
    events: Seq<(EventModel, Timestamp)>,
)
    requires
        run_after(suite, workspace, events).phase.completed(),
    ensures
        ({
            let run = run_after(suite, workspace, events);
            &&& run.manifest.cases.len() >= 1
            &&& run.summary.cases.len() == run.manifest.cases.len()
            &&& run.summary.total == run.manifest.cases.len()
            &&& forall|i: int|
                0 <= i < run.manifest.cases.len() ==> (#[trigger] run.summary.cases[i]).name
                    == run.manifest.cases[i].name && run.summary.cases[i].allow_failure
                    == run.manifest.cases[i].allow_failure
        }),
{
    law_run_invariant(suite, workspace, events);
    let run = run_after(suite, workspace, events);
    assert forall|i: int| 0 <= i < run.manifest.cases.len() implies (
    #[trigger] run.summary.cases[i]).name == run.manifest.cases[i].name
        && run.summary.cases[i].allow_failure == run.manifest.cases[i].allow_failure by {
        assert(run.summary.cases[i].matches_case(run.manifest.cases[i]));
    }
}

/// In every state of every run the three counts add up to the number of
/// cases recorded so far; once the run has gone through its cases, they add
/// up to the total.
pub proof fn law_counts_add_up(
    suite: Suite,
    workspace: Seq<char>,
    events: Seq<(EventModel, Timestamp)>,
)
    ensures
        ({
            let run = run_after(suite, workspace, events);
            &&& run.summary.passed + run.summary.failed + run.summary.soft_failed
                == run.summary.cases.len()
            &&& run.phase.completed() ==> run.summary.passed + run.summary.failed
                + run.summary.soft_failed == run.summary.total
        }),
{
    law_run_invariant(suite, workspace, events);
    lemma_tally_partitions(run_after(suite, workspace, events).summary.cases);
}

/// Every case recorded by a run has the status its exit code gives: passed
/// for exit code 0, whatever the tolerance; otherwise a soft failure where
/// the manifest tolerates failure of the case, a failure where it does not.
pub proof fn law_status_follows_exit_code(
    suite: Suite,
    workspace: Seq<char>,
    events: Seq<(EventModel, Timestamp)>,
    i: int,
)
    requires
        0 <= i < run_after(suite, workspace, events).summary.cases.len(),
    ensures
        ({
            let run = run_after(suite, workspace, events);
            let entry = run.summary.cases[i];
            let tolerated = run.manifest.cases[i].allow_failure;
            &&& entry.exit_code == Some(0i32) ==> entry.status == CaseStatus::Passed
            &&& entry.exit_code != Some(0i32) && !tolerated ==> entry.status == CaseStatus::Failed
            &&& entry.exit_code != Some(0i32) && tolerated ==> entry.status
                == CaseStatus::SoftFailed
        }),
{
    law_run_invariant(suite, workspace, events);
    let run = run_after(suite, workspace, events);
    assert(run.summary.cases[i].matches_case(run.manifest.cases[i]));
}

/// A run that has gone through its cases owes exit code 0 exactly when no
/// case failed, and a non-zero code exactly when one did; soft failures
/// have no part in it.
pub proof fn law_exit_code_follows_failures(
    suite: Suite,
    workspace: Seq<char>,
    events: Seq<(EventModel, Timestamp)>,
)
    requires
        run_after(suite, workspace, events).phase.completed(),
    ensures
        ({
            let run = run_after(suite, workspace, events);
            &&& run.exit_code() is Some
            &&& run.exit_code() != Some(0i32) <==> run.summary.failed > 0
            &&& run.summary.succeeded() <==> run.exit_code() == Some(0i32)
        }),
{
    law_run_invariant(suite, workspace, events);
}

/// The error marker is written by the step that records the last case of a
/// run with a failed case, and by no other step; where no case failed, that
/// step removes the marker. From then on the summary names the marker
/// exactly when a case failed.
pub proof fn law_error_marker_follows_failures(
    suite: Suite,
    workspace: Seq<char>,
    events: Seq<(EventModel, Timestamp)>,
    event: EventModel,
    now: Timestamp,
)
    ensures
        ({
            let run = run_after(suite, workspace, events);
            let next = run.step(event, now).0;
            let effects = run.step(event, now).1;
            let marker = next.layout().error_log;
            if run.phase == Phase::RunningCase && next.phase == Phase::Summarizing {
                &&& writes_file(effects, marker) <==> next.summary.failed > 0
                &&& removes_file(effects, marker) <==> next.summary.failed == 0
                &&& next.summary.error_log is Some <==> next.summary.failed > 0
            } else {
                &&& forall|i: int|
                    0 <= i < effects.len() ==> !((#[trigger] effects[i]) is WriteFile)
                        && !(effects[i] is RemoveFile)
                &&& next.phase.completed() ==> (next.summary.error_log is Some
                    <==> next.summary.failed > 0)
            }
        }),
{
    law_run_invariant(suite, workspace, events);
    let run = run_after(suite, workspace, events);
    lemma_step_wf(run, event, now);
    let next = run.step(event, now).0;
    let effects = run.step(event, now).1;
    let marker = next.layout().error_log;
    if run.phase == Phase::RunningCase && next.phase == Phase::Summarizing {
        assert(event is Exited);
        assert(effects.len() == 6);
        assert(effects[5] == next.closing_effects()[1]);
        if next.summary.failed > 0 {
            assert(effects[4] is WriteFile && effects[4]->WriteFile_path == marker);
            assert forall|i: int| 0 <= i < effects.len() implies !((#[trigger] effects[i])
                is RemoveFile) by {}
        } else {
            assert(effects[4] is RemoveFile && effects[4]->RemoveFile_path == marker);
            assert forall|i: int| 0 <= i < effects.len() implies !((#[trigger] effects[i])
                is WriteFile) by {}
        }
    } else {
        assert forall|i: int| 0 <= i < effects.len() implies !((#[trigger] effects[i])
            is WriteFile) && !(effects[i] is RemoveFile) by {}
    }
}

/// A run is over in success or failure only once its summary is written:
/// the one way there is the answer to the request to write it. A failure on
/// the file system while that request is pending aborts the run instead.
pub proof fn law_verdict_follows_the_summary(
    suite: Suite,
    workspace: Seq<char>,
    events: Seq<(EventModel, Timestamp)>,
    event: EventModel,
    now: Timestamp,
)
    ensures
        ({
            let run = run_after(suite, workspace, events);
            let next = run.step(event, now).0;
            &&& !run.phase.completed() && next.phase.completed() ==> run.phase
                == Phase::Summarizing && event is SummaryWritten
            &&& run.phase == Phase::Summarizing && event is IoFailed ==> next.phase
                == Phase::Aborted && next.exit_code() == Some(1i32)
        }),
{
    law_run_invariant(suite, workspace, events);
}

/// A run that waits for its manifest and gets one with at least one case,
/// at a time that has a run identifier, opens: it has that identifier and
/// goes on to look for the build script.
pub proof fn law_loaded_manifest_opens_the_run(
    suite: Suite,
    workspace: Seq<char>,
    manifest: ManifestModel,
    now: Timestamp,
)
    requires
        manifest.cases.len() >= 1,
        now.run_id_spec() is Some,
    ensures
        ({
            let event = EventModel::ManifestLoaded { manifest };
            let next = RunModel::initial(suite, workspace).step(event, now).0;
            &&& next.phase == Phase::ProbingBuild
            &&& Some(next.run_id) == now.run_id_spec()
            &&& next.manifest == manifest
            &&& next.summary.total == manifest.cases.len()
        }),
{
}

/// The statuses are as many of each kind as status by status.
proof fn lemma_tally_is_count(summary: SummaryModel, status: CaseStatus)
    ensures
        tally(summary.cases, status) == count(summary.statuses(), status),
    decreases summary.cases.len(),
{
    if summary.cases.len() > 0 {
        let shorter = SummaryModel { cases: summary.cases.drop_last(), ..summary };
        lemma_tally_is_count(shorter, status);
        assert(summary.statuses().drop_last() =~= shorter.statuses());
    }
}

/// The counts of a run that has gone through its cases are those found by
/// replaying the cases of the manifest against the exit codes recorded in
/// the summary.
pub proof fn law_counts_match_replay(
    suite: Suite,
    workspace: Seq<char>,
    events: Seq<(EventModel, Timestamp)>,
)
    requires
        run_after(suite, workspace, events).phase.completed(),
    ensures
        ({
            let run = run_after(suite, workspace, events);
            let replayed = replay(run.manifest.cases, run.summary.exit_codes());
            &&& run.summary.statuses() == replayed
            &&& run.summary.passed == count(replayed, CaseStatus::Passed)
            &&& run.summary.failed == count(replayed, CaseStatus::Failed)
            &&& run.summary.soft_failed == count(replayed, CaseStatus::SoftFailed)
        }),
{
    law_run_invariant(suite, workspace, events);
    let run = run_after(suite, workspace, events);
    let replayed = replay(run.manifest.cases, run.summary.exit_codes());
    assert forall|i: int| 0 <= i < replayed.len() implies run.summary.statuses()[i]
        == replayed[i] by {
        assert(run.summary.cases[i].matches_case(run.manifest.cases[i]));
    }
    assert(run.summary.statuses() =~= replayed);
    lemma_tally_is_count(run.summary, CaseStatus::Passed);
    lemma_tally_is_count(run.summary, CaseStatus::Failed);
    lemma_tally_is_count(run.summary, CaseStatus::SoftFailed);
}

/// A run whose manifest cannot be had, or lists no case, is aborted at once:
/// it owes a non-zero exit code, and the only thing it asks for is that the
/// error be reported. No directory is created and no file written.
pub proof fn law_failed_load_changes_nothing(
    suite: Suite,
    workspace: Seq<char>,
    event: EventModel,
    now: Timestamp,
)
    requires
        event is ManifestUnreadable || event is ManifestMalformed || (event is ManifestLoaded
            && event->manifest.cases.len() == 0),
    ensures
        ({
            let next = RunModel::initial(suite, workspace).step(event, now).0;
            let effects = RunModel::initial(suite, workspace).step(event, now).1;
            &&& next.phase == Phase::Aborted
            &&& next.exit_code() == Some(1i32)
            &&& effects.len() == 1
            &&& effects[0] is Abort
            &&& !changes_files(effects)
        }),
{
}

/// The name that ends at `to` starts at `at`, where a separator stands
/// before `at` and none between `at` and `to`.
proof fn lemma_name_starts_at(path: Seq<char>, floor: int, at: int, to: int)
    requires
        0 <= floor < at <= to <= path.len(),
        path[at - 1] == '/',
        forall|k: int| at <= k < to ==> path[k] != '/',
    ensures
        name_start(path, floor, to) == at,
    decreases to - at,
{
    if to > at {
        lemma_name_starts_at(path, floor, at, to - 1);
    }
}

/// In the layout of a run the log of every case lies directly in the
/// directory of case logs, so that directory is what the case is told as
/// its log directory.
pub proof fn law_case_logs_lie_in_their_directory(
    workspace: Seq<char>,
    suite: Suite,
    run_id: Seq<char>,
    case: CaseModel,
    default_timeout_secs: u64,
)
    ensures
        ({
            let layout = LayoutModel::of(workspace, suite, run_id);
            let plan = PlanModel::of(case, workspace, run_id, layout, default_timeout_secs);
            &&& directory_of(layout.case_log(slug_of(case.name))) == layout.case_logs_root
            &&& plan.command.env[6] == ("STARRY_CASE_LOG_DIR"@, layout.case_logs_root)
        }),
{
    reveal_strlit("cases");
    reveal_strlit(".log");
    let layout = LayoutModel::of(workspace, suite, run_id);
    let root = layout.case_logs_root;
    let slug = slug_of(case.name);
    let file = slug + ".log"@;
    let log = layout.case_log(slug);
    lemma_slug_is_safe(case.name);
    assert(root == join(layout.run_dir, "cases"@));
    assert(root.len() >= 5 && root.last() == 's');
    assert(file.len() == slug.len() + 4);
    assert(file[0] != '/') by {
        if slug.len() > 0 {
            assert(is_slug_char(slug[0]));
            assert(file[0] == slug[0]);
        }
    }
    assert(log =~= root + seq!['/'] + file);
    let n = log.len() as int;
    let cut = root.len() as int;
    let floor = body_start(log);
    assert(log[n - 1] == 'g');
    assert(last_name_end(log, floor, n) == n);
    assert forall|k: int| cut + 1 <= k < n implies log[k] != '/' by {
        let m = k - cut - 1;
        assert(log[k] == file[m]);
        if m < slug.len() {
            assert(is_slug_char(slug[m]));
            assert(file[m] == slug[m]);
        }
    }
    assert(log[cut] == '/');
    lemma_name_starts_at(log, floor, cut + 1, n);
    assert(log[cut - 1] == 's');
    assert(last_name_end(log, floor, cut + 1) == last_name_end(log, floor, cut));
    assert(last_name_end(log, floor, cut) == cut);
    assert(log.subrange(0, cut) =~= root);
    assert(parent_of(log) == Some(root));
}

} // verus!
