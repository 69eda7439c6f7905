//! The run as a state machine: every decision of a run is a step from a
//! state and an event to the next state and the effects to perform.

use crate::build_step::{build_command, build_command_of, build_script, build_script_of,
    skip_line, skip_message, start_line, start_message};
use crate::case::{finish_line, finish_message, CaseOutcome, CasePlan, OutcomeModel, OutputModel,
    PlanModel, ProcessOutput};
use crate::clock::Timestamp;
use crate::effect::{Effect, EffectModel, Event, EventModel, Notice, NoticeModel};
use crate::error::{Fatal, FatalModel};
use crate::layout::{manifest_path, manifest_path_of, rel_path, relative_to, LayoutModel,
    RunLayout};
use crate::manifest::{clone_text, Manifest, ManifestModel};
use crate::suite::Suite;
use crate::summary::{error_marker, failure_message, failure_text, lemma_tally_partitions,
    lemma_with_case_tallied, marker_text, CaseDetail, DetailModel, RunSummary, SummaryModel};
use vstd::prelude::*;

verus! {

/// Where a run stands: what it is waiting for, or how it ended.
#[derive(Clone, Copy, Debug, PartialEq, Eq, Structural)]
pub enum Phase {
    /// Waiting for the manifest.
    Loading,
    /// Waiting to learn whether the build script exists.
    ProbingBuild,
    /// Waiting for the build script to end.
    Building,
    /// Waiting to learn whether the next case's executable exists.
    ProbingCase,
    /// Waiting for the current case to end.
    RunningCase,
    /// Waiting for the error marker and the summary to be written.
    Summarizing,
    /// Over: every case ran, the summary is written, and none failed.
    Succeeded,
    /// Over: every case ran, the summary is written, and at least one
    /// failed.
    Failed,
    /// Over: a fatal error stopped the run before its summary.
    Aborted,
}

impl Phase {
    /// Whether the run is over.
    pub open spec fn terminal(self) -> bool {
        self == Phase::Succeeded || self == Phase::Failed || self == Phase::Aborted
    }

    /// Whether the run went through all its cases.
    pub open spec fn completed(self) -> bool {
        self == Phase::Succeeded || self == Phase::Failed
    }
}

/// The mathematical content of a run.
#[verifier::ext_equal]
pub struct RunModel {
    pub suite: Suite,
    pub workspace: Seq<char>,
    pub phase: Phase,
    pub manifest: ManifestModel,
    pub run_id: Seq<char>,
    pub summary: SummaryModel,
}

impl RunModel {
    /// A run of `suite` below `workspace` that waits for its manifest.
    pub open spec fn initial(suite: Suite, workspace: Seq<char>) -> RunModel {
        RunModel {
            suite,
            workspace,
            phase: Phase::Loading,
            manifest: ManifestModel::blank(),
            run_id: Seq::empty(),
            summary: SummaryModel::blank(),
        }
    }

    /// The first request of a run: load the suite's manifest.
    pub open spec fn first_effects(suite: Suite, workspace: Seq<char>) -> Seq<EffectModel> {
        seq![EffectModel::LoadManifest { path: manifest_path_of(workspace, suite) }]
    }

    /// Where the run keeps its files.
    pub open spec fn layout(self) -> LayoutModel {
        LayoutModel::of(self.workspace, self.suite, self.run_id)
    }

    /// The index of the case that is next to run or running.
    pub open spec fn cursor(self) -> int {
        self.summary.cases.len() as int
    }

    /// The plan of the case at index `i`.
    pub open spec fn plan(self, i: int) -> PlanModel {
        PlanModel::of(
            self.manifest.cases[i],
            self.workspace,
            self.run_id,
            self.layout(),
            self.manifest.default_timeout_secs,
        )
    }

    /// The build script of the run.
    pub open spec fn build_script(self) -> Seq<char> {
        build_script_of(self.manifest, self.workspace)
    }

    /// What holds of every run that has a manifest: the manifest has cases
    /// and the summary's total is their number.
    pub open spec fn underway(self) -> bool {
        &&& self.manifest.runnable()
        &&& self.summary.total == self.manifest.cases.len()
    }

    /// The invariant of a run: the summary counts what it lists, it lists
    /// the first cases of the manifest in order, and the phase agrees with
    /// how far the run has come.
    pub open spec fn wf(self) -> bool {
        &&& self.summary.tallied()
        &&& self.summary.follows(self.manifest.cases)
        &&& match self.phase {
            Phase::Loading => true,
            Phase::Aborted => true,
            Phase::ProbingBuild => self.underway() && self.summary.cases.len() == 0,
            Phase::Building => self.underway() && self.summary.cases.len() == 0,
            Phase::ProbingCase => self.underway() && self.summary.cases.len()
                < self.manifest.cases.len(),
            Phase::RunningCase => self.underway() && self.summary.cases.len()
                < self.manifest.cases.len(),
            Phase::Summarizing => {
                &&& self.underway()
                &&& self.summary.complete()
                &&& self.summary.error_log is Some <==> self.summary.failed > 0
            },
            Phase::Succeeded => {
                &&& self.underway()
                &&& self.summary.complete()
                &&& self.summary.failed == 0
                &&& self.summary.error_log is None
            },
            Phase::Failed => {
                &&& self.underway()
                &&& self.summary.complete()
                &&& self.summary.failed > 0
                &&& self.summary.error_log is Some
            },
        }
    }

    /// The exit code owed once the run is over: 0 where every case ran and
    /// none failed, 1 where a case failed or the run was aborted.
    pub open spec fn exit_code(self) -> Option<i32> {
        match self.phase {
            Phase::Succeeded => Some(0i32),
            Phase::Failed => Some(1i32),
            Phase::Aborted => Some(1i32),
            _ => None,
        }
    }

    /// The run stopped by `error`: nothing more is done but to report it.
    pub open spec fn aborted(self, error: FatalModel) -> (RunModel, Seq<EffectModel>) {
        (RunModel { phase: Phase::Aborted, ..self }, seq![EffectModel::Abort { error }])
    }

    /// What is done before anything runs: the directories and the run log are
    /// created, the header is logged, and the build script is looked for.
    pub open spec fn opening_effects(self) -> Seq<EffectModel> {
        let layout = self.layout();
        seq![
            EffectModel::CreateDir { path: layout.logs_root },
            EffectModel::CreateDir { path: layout.run_dir },
            EffectModel::CreateDir { path: layout.case_logs_root },
            EffectModel::CreateDir { path: layout.artifacts_root },
            EffectModel::CreateFile { path: layout.run_log },
            EffectModel::AppendLine {
                path: layout.run_log,
                line: self.manifest.header(self.suite),
            },
            EffectModel::Announce {
                notice: NoticeModel::SuiteStarted {
                    label: self.manifest.label(self.suite),
                    arch: self.manifest.arch,
                    description: self.manifest.description,
                    cases: self.manifest.cases.len(),
                },
            },
            EffectModel::Probe { path: self.build_script() },
        ]
    }

    /// What is done to start the case at index `i`: its artifact directory is
    /// created, its start is logged, and its executable is looked for.
    pub open spec fn case_effects(self, i: int) -> Seq<EffectModel> {
        let case = self.manifest.cases[i];
        let plan = self.plan(i);
        let log = relative_to(plan.log_path, self.workspace);
        let run_log = self.layout().run_log;
        seq![
            EffectModel::CreateDir { path: plan.artifact_dir },
            EffectModel::Announce {
                notice: NoticeModel::CaseStarted {
                    index: (i + 1) as nat,
                    total: self.manifest.cases.len(),
                    name: case.name,
                    description: case.description,
                    log,
                },
            },
            EffectModel::AppendLine {
                path: run_log,
                line: crate::case::start_line(case.name, log),
            },
        ] + match case.description {
            Some(description) => seq![
                EffectModel::AppendLine {
                    path: run_log,
                    line: crate::case::description_line(description),
                },
            ],
            None => Seq::empty(),
        } + seq![EffectModel::Probe { path: plan.script }]
    }

    /// The manifest has arrived.
    pub open spec fn on_manifest(self, manifest: ManifestModel, now: Timestamp) -> (
        RunModel,
        Seq<EffectModel>,
    ) {
        if !manifest.runnable() {
            self.aborted(
                FatalModel::NoCases {
                    suite: self.suite,
                    manifest: manifest_path_of(self.workspace, self.suite),
                },
            )
        } else {
            match now.run_id_spec() {
                None => self.aborted(FatalModel::ClockOutOfRange),
                Some(run_id) => {
                    let layout = LayoutModel::of(self.workspace, self.suite, run_id);
                    let next = RunModel {
                        phase: Phase::ProbingBuild,
                        manifest,
                        run_id,
                        summary: SummaryModel::opening(
                            manifest,
                            self.suite,
                            self.workspace,
                            layout,
                            now,
                        ),
                        ..self
                    };
                    (next, next.opening_effects())
                },
            }
        }
    }

    /// It is known whether the build script exists.
    pub open spec fn on_build_probed(self, exists: bool) -> (RunModel, Seq<EffectModel>) {
        let script = self.build_script();
        let run_log = self.layout().run_log;
        if exists {
            let line = start_line(script, self.suite);
            (
                RunModel { phase: Phase::Building, ..self },
                seq![
                    EffectModel::AppendLine { path: run_log, line },
                    EffectModel::Announce { notice: NoticeModel::Build { message: line } },
                    EffectModel::Spawn {
                        command: build_command_of(script, self.suite, self.workspace),
                        echo: true,
                    },
                ],
            )
        } else {
            let line = skip_line(script);
            let next = RunModel { phase: Phase::ProbingCase, ..self };
            (
                next,
                seq![
                    EffectModel::AppendLine { path: run_log, line },
                    EffectModel::Announce { notice: NoticeModel::Build { message: line } },
                ] + next.case_effects(0),
            )
        }
    }

    /// The build script has ended. Its output is logged; its exit code is
    /// not looked at.
    pub open spec fn on_build_exited(self, output: OutputModel) -> (RunModel, Seq<EffectModel>) {
        let run_log = self.layout().run_log;
        let next = RunModel { phase: Phase::ProbingCase, ..self };
        (
            next,
            seq![
                EffectModel::AppendBytes { path: run_log, bytes: output.stdout },
                EffectModel::AppendBytes { path: run_log, bytes: output.stderr },
            ] + next.case_effects(0),
        )
    }

    /// It is known whether the current case's executable exists.
    pub open spec fn on_case_probed(self, exists: bool) -> (RunModel, Seq<EffectModel>) {
        let i = self.cursor();
        let plan = self.plan(i);
        if exists {
            (
                RunModel { phase: Phase::RunningCase, ..self },
                seq![
                    EffectModel::CreateFile { path: plan.log_path },
                    EffectModel::AppendLine { path: plan.log_path, line: plan.header()[0] },
                    EffectModel::AppendLine { path: plan.log_path, line: plan.header()[1] },
                    EffectModel::CreateDir { path: plan.artifact_dir },
                    EffectModel::Spawn { command: plan.command, echo: false },
                ],
            )
        } else {
            self.aborted(
                FatalModel::MissingScript { case: self.manifest.cases[i].name, script: plan.script },
            )
        }
    }

    /// What the summary keeps of the current case once it ended as `output`.
    pub open spec fn detail(self, output: OutputModel) -> DetailModel {
        let i = self.cursor();
        let case = self.manifest.cases[i];
        DetailModel::of(
            case,
            OutcomeModel::of(case, output.exit_code, output.duration_ms, self.plan(i).log_path),
            self.workspace,
        )
    }

    /// What is done once the last case is recorded: the error marker is
    /// written where a case failed and removed where none did, and the
    /// summary is written.
    pub open spec fn closing_effects(self) -> Seq<EffectModel> {
        let layout = self.layout();
        seq![
            if self.summary.failed > 0 {
                EffectModel::WriteFile {
                    path: layout.error_log,
                    contents: marker_text(self.summary.failed, self.summary.log_file),
                }
            } else {
                EffectModel::RemoveFile { path: layout.error_log }
            },
            EffectModel::WriteSummary { path: layout.summary_file },
        ]
    }

    /// The marker and the summary are written: the run is over, in failure
    /// exactly when a case failed.
    pub open spec fn on_summary_written(self) -> (RunModel, Seq<EffectModel>) {
        if self.summary.failed > 0 {
            (
                RunModel { phase: Phase::Failed, ..self },
                seq![
                    EffectModel::Finish {
                        failure: Some(failure_text(self.suite, self.summary.log_file)),
                    },
                ],
            )
        } else {
            (
                RunModel { phase: Phase::Succeeded, ..self },
                seq![EffectModel::Finish { failure: None }],
            )
        }
    }

    /// The current case has ended.
    pub open spec fn on_case_exited(self, output: OutputModel, now: Timestamp) -> (
        RunModel,
        Seq<EffectModel>,
    ) {
        let i = self.cursor();
        let case = self.manifest.cases[i];
        let plan = self.plan(i);
        let detail = self.detail(output);
        let recorded = self.summary.with_case(detail);
        let report = seq![
            EffectModel::AppendBytes { path: plan.log_path, bytes: output.stdout },
            EffectModel::AppendBytes { path: plan.log_path, bytes: output.stderr },
            EffectModel::AppendLine {
                path: self.layout().run_log,
                line: finish_line(case.name, output.duration_ms, output.exit_code),
            },
            EffectModel::Announce {
                notice: NoticeModel::CaseFinished {
                    status: detail.status,
                    duration_ms: output.duration_ms,
                },
            },
        ];
        if i + 1 < self.manifest.cases.len() {
            let next = RunModel { phase: Phase::ProbingCase, summary: recorded, ..self };
            (next, report + next.case_effects(i + 1))
        } else {
            let closed = recorded.closed(
                now,
                relative_to(self.layout().error_log, self.workspace),
            );
            let next = RunModel { phase: Phase::Summarizing, summary: closed, ..self };
            (next, report + next.closing_effects())
        }
    }

    /// One step of the run: the state after `event`, read at time `now`, and
    /// the effects to perform.
    ///
    /// A run that is over ignores every event. A failure on the file system
    /// aborts the run, and so does an event that does not answer what the run
    /// was waiting for.
    pub open spec fn step(self, event: EventModel, now: Timestamp) -> (RunModel, Seq<EffectModel>) {
        if self.phase.terminal() {
            (self, Seq::empty())
        } else {
            match (self.phase, event) {
                (_, EventModel::IoFailed { detail }) => self.aborted(FatalModel::Io { detail }),
                (Phase::Loading, EventModel::ManifestLoaded { manifest }) => self.on_manifest(
                    manifest,
                    now,
                ),
                (Phase::Loading, EventModel::ManifestUnreadable { detail }) => self.aborted(
                    FatalModel::ManifestUnreadable {
                        path: manifest_path_of(self.workspace, self.suite),
                        detail,
                    },
                ),
                (Phase::Loading, EventModel::ManifestMalformed { detail }) => self.aborted(
                    FatalModel::ManifestMalformed {
                        path: manifest_path_of(self.workspace, self.suite),
                        detail,
                    },
                ),
                (Phase::ProbingBuild, EventModel::Probed { exists }) => self.on_build_probed(
                    exists,
                ),
                (Phase::Building, EventModel::Exited { output }) => self.on_build_exited(output),
                (Phase::Building, EventModel::SpawnFailed { detail }) => self.aborted(
                    FatalModel::BuildNotStarted { script: self.build_script(), detail },
                ),
                (Phase::ProbingCase, EventModel::Probed { exists }) => self.on_case_probed(exists),
                (Phase::RunningCase, EventModel::Exited { output }) => self.on_case_exited(
                    output,
                    now,
                ),
                (Phase::RunningCase, EventModel::SpawnFailed { detail }) => self.aborted(
                    FatalModel::CaseNotStarted {
                        case: self.manifest.cases[self.cursor()].name,
                        detail,
                    },
                ),
                (Phase::Summarizing, EventModel::SummaryWritten) => self.on_summary_written(),
                _ => self.aborted(FatalModel::UnexpectedEvent),
            }
        }
    }
}

/// A fresh run satisfies the invariant.
pub proof fn lemma_initial_wf(suite: Suite, workspace: Seq<char>)
    ensures
        RunModel::initial(suite, workspace).wf(),
{
}

/// Every step keeps the invariant.
pub proof fn lemma_step_wf(run: RunModel, event: EventModel, now: Timestamp)
    requires
        run.wf(),
    ensures
        run.step(event, now).0.wf(),
{
    let next = run.step(event, now).0;
    if run.phase.terminal() {
    } else if next.phase == Phase::Aborted {
    } else {
        match (run.phase, event) {
            (Phase::Loading, EventModel::ManifestLoaded { manifest }) => {
                assert(next.summary.cases =~= Seq::empty());
            },
            (Phase::RunningCase, EventModel::Exited { output }) => {
                let detail = run.detail(output);
                let recorded = run.summary.with_case(detail);
                lemma_with_case_tallied(run.summary, detail);
                lemma_tally_partitions(recorded.cases);
                assert(detail.matches_case(run.manifest.cases[run.cursor()]));
                assert(recorded.follows(run.manifest.cases));
            },
            _ => {},
        }
    }
}

/// One run of a suite: its state between two steps.
///
/// A run is made by [`Run::start`] and moved on by [`Run::step`]; its state
/// always satisfies [`RunModel::wf`].
#[derive(Debug)]
pub struct Run {
    suite: Suite,
    workspace: String,
    phase: Phase,
    manifest: Manifest,
    run_id: String,
    summary: RunSummary,
}

impl View for Run {
    type V = RunModel;

    closed spec fn view(&self) -> RunModel {
        RunModel {
            suite: self.suite,
            workspace: self.workspace@,
            phase: self.phase,
            manifest: self.manifest@,
            run_id: self.run_id@,
            summary: self.summary@,
        }
    }
}

/// Appends one effect to a list.
fn emit(effects: &mut Vec<Effect>, effect: Effect)
    ensures
        final(effects).deep_view() == old(effects).deep_view().push(effect@),
{
    effects.push(effect);
    assert(effects.deep_view() =~= old(effects).deep_view().push(effect@));
}

impl Run {
    #[verifier::type_invariant]
    spec fn inv(self) -> bool {
        self@.wf()
    }

    /// Begins a run of `suite` below `workspace`: the run waits for its
    /// manifest and asks for it to be loaded.
    pub fn start(suite: Suite, workspace: &str) -> (begun: (Run, Vec<Effect>))
        ensures
            begun.0@ == RunModel::initial(suite, workspace@),
            begun.1.deep_view() == RunModel::first_effects(suite, workspace@),
            begun.0@.wf(),
    {
        let run = Run {
            suite,
            workspace: String::from_str(workspace),
            phase: Phase::Loading,
            manifest: Manifest::blank(),
            run_id: String::new(),
            summary: RunSummary::blank(),
        };
        let mut effects: Vec<Effect> = Vec::new();
        emit(&mut effects, Effect::LoadManifest { path: manifest_path(workspace, suite) });
        assert(run@ =~= RunModel::initial(suite, workspace@));
        (run, effects)
    }

    /// The suite that runs.
    pub fn suite(&self) -> (suite: Suite)
        ensures
            suite == self@.suite,
    {
        self.suite
    }

    /// The workspace the run works in.
    pub fn workspace(&self) -> (workspace: &str)
        ensures
            workspace@ == self@.workspace,
    {
        self.workspace.as_str()
    }

    /// Where the run stands.
    pub fn phase(&self) -> (phase: Phase)
        ensures
            phase == self@.phase,
            self@.wf(),
    {
        proof {
            use_type_invariant(self);
        }
        self.phase
    }

    /// The manifest of the run; blank until one is loaded.
    pub fn manifest(&self) -> (manifest: &Manifest)
        ensures
            manifest@ == self@.manifest,
    {
        &self.manifest
    }

    /// The identifier of the run; empty until the run has a manifest.
    pub fn run_id(&self) -> (run_id: &str)
        ensures
            run_id@ == self@.run_id,
    {
        self.run_id.as_str()
    }

    /// The summary of the run as it stands.
    pub fn summary(&self) -> (summary: &RunSummary)
        ensures
            summary@ == self@.summary,
            self@.wf(),
    {
        proof {
            use_type_invariant(self);
        }
        &self.summary
    }

    /// Whether the run is over.
    pub fn is_over(&self) -> (over: bool)
        ensures
            over == self@.phase.terminal(),
    {
        match self.phase {
            Phase::Succeeded => true,
            Phase::Failed => true,
            Phase::Aborted => true,
            _ => false,
        }
    }

    /// The exit code the process owes once the run is over: 0 where every
    /// case ran and none failed, 1 where a case failed or the run was
    /// aborted. `None` while the run is not over.
    pub fn exit_code(&self) -> (code: Option<i32>)
        ensures
            code == self@.exit_code(),
            self@.wf(),
    {
        proof {
            use_type_invariant(self);
        }
        match self.phase {
            Phase::Succeeded => Some(0),
            Phase::Failed => Some(1),
            Phase::Aborted => Some(1),
            _ => None,
        }
    }

    /// Puts a run together from its parts.
    fn assemble(
        suite: Suite,
        workspace: String,
        phase: Phase,
        manifest: Manifest,
        run_id: String,
        summary: RunSummary,
    ) -> (run: Run)
        requires
            (RunModel {
                suite,
                workspace: workspace@,
                phase,
                manifest: manifest@,
                run_id: run_id@,
                summary: summary@,
            }).wf(),
        ensures
            run@ == (RunModel {
                suite,
                workspace: workspace@,
                phase,
                manifest: manifest@,
                run_id: run_id@,
                summary: summary@,
            }),
    {
        Run { suite, workspace, phase, manifest, run_id, summary }
    }

    /// Stops the run with `error`.
    fn abort(self, error: Fatal) -> (next: (Run, Vec<Effect>))
        ensures
            next.0@ == self@.aborted(error@).0,
            next.1.deep_view() == self@.aborted(error@).1,
    {
        proof {
            use_type_invariant(&self);
        }
        let Run { suite, workspace, phase: _, manifest, run_id, summary } = self;
        let run = Run::assemble(suite, workspace, Phase::Aborted, manifest, run_id, summary);
        let mut effects: Vec<Effect> = Vec::new();
        emit(&mut effects, Effect::Abort { error });
        (run, effects)
    }

    /// The same run in another phase.
    fn moved_to(self, phase: Phase) -> (next: Run)
        requires
            (RunModel { phase, ..self@ }).wf(),
        ensures
            next@ == (RunModel { phase, ..self@ }),
    {
        let Run { suite, workspace, phase: _, manifest, run_id, summary } = self;
        Run::assemble(suite, workspace, phase, manifest, run_id, summary)
    }

    /// Where the run keeps its files.
    fn layout(&self) -> (layout: RunLayout)
        ensures
            layout@ == self@.layout(),
    {
        RunLayout::new(self.workspace.as_str(), self.suite, self.run_id.as_str())
    }

    /// The plan of the case at index `i`.
    fn plan(&self, i: usize, layout: &RunLayout) -> (plan: CasePlan)
        requires
            i < self@.manifest.cases.len(),
            layout@ == self@.layout(),
        ensures
            plan@ == self@.plan(i as int),
    {
        assert(self.manifest.cases.deep_view()[i as int] == self.manifest.cases@[i as int]@);
        CasePlan::new(
            &self.manifest.cases[i],
            self.workspace.as_str(),
            self.run_id.as_str(),
            layout,
            self.manifest.default_timeout_secs,
        )
    }

    /// Appends what is done before anything runs.
    fn open_run(&self, effects: &mut Vec<Effect>)
        ensures
            final(effects).deep_view() == old(effects).deep_view() + self@.opening_effects(),
    {
        let layout = self.layout();
        emit(effects, Effect::CreateDir { path: layout.logs_root.clone() });
        emit(effects, Effect::CreateDir { path: layout.run_dir.clone() });
        emit(effects, Effect::CreateDir { path: layout.case_logs_root.clone() });
        emit(effects, Effect::CreateDir { path: layout.artifacts_root.clone() });
        emit(effects, Effect::CreateFile { path: layout.run_log.clone() });
        emit(
            effects,
            Effect::AppendLine {
                path: layout.run_log.clone(),
                line: self.manifest.header(self.suite),
            },
        );
        emit(
            effects,
            Effect::Announce {
                notice: Notice::SuiteStarted {
                    label: self.manifest.label(self.suite),
                    arch: clone_text(&self.manifest.arch),
                    description: clone_text(&self.manifest.description),
                    cases: self.manifest.cases.len(),
                },
            },
        );
        emit(
            effects,
            Effect::Probe { path: build_script(&self.manifest, self.workspace.as_str()) },
        );
        assert(effects.deep_view() =~= old(effects).deep_view() + self@.opening_effects());
    }

    /// Appends what is done to start the case at index `i`.
    fn open_case(&self, i: usize, effects: &mut Vec<Effect>)
        requires
            i < self@.manifest.cases.len(),
        ensures
            final(effects).deep_view() == old(effects).deep_view() + self@.case_effects(i as int),
    {
        let layout = self.layout();
        let plan = self.plan(i, &layout);
        assert(self.manifest.cases.deep_view()[i as int] == self.manifest.cases@[i as int]@);
        let total: usize = self.manifest.cases.len();
        let case = &self.manifest.cases[i];
        let log = rel_path(plan.log_path.as_str(), self.workspace.as_str());
        emit(effects, Effect::CreateDir { path: plan.artifact_dir.clone() });
        emit(
            effects,
            Effect::Announce {
                notice: Notice::CaseStarted {
                    index: i + 1,
                    total,
                    name: case.name.clone(),
                    description: clone_text(&case.description),
                    log: log.clone(),
                },
            },
        );
        emit(
            effects,
            Effect::AppendLine {
                path: layout.run_log.clone(),
                line: crate::case::start_message(case.name.as_str(), log.as_str()),
            },
        );
        match &case.description {
            Some(description) => {
                emit(
                    effects,
                    Effect::AppendLine {
                        path: layout.run_log.clone(),
                        line: crate::case::description_message(description.as_str()),
                    },
                );
            },
            None => {},
        }
        emit(effects, Effect::Probe { path: plan.script.clone() });
        assert(effects.deep_view() =~= old(effects).deep_view() + self@.case_effects(i as int));
    }

    /// Appends what is done once the last case is recorded.
    fn close_run(&self, effects: &mut Vec<Effect>)
        ensures
            final(effects).deep_view() == old(effects).deep_view() + self@.closing_effects(),
    {
        let layout = self.layout();
        if self.summary.failed > 0 {
            emit(
                effects,
                Effect::WriteFile {
                    path: layout.error_log.clone(),
                    contents: error_marker(self.summary.failed, self.summary.log_file.as_str()),
                },
            );
        } else {
            emit(effects, Effect::RemoveFile { path: layout.error_log.clone() });
        }
        emit(effects, Effect::WriteSummary { path: layout.summary_file.clone() });
        assert(effects.deep_view() =~= old(effects).deep_view() + self@.closing_effects());
    }

    /// The marker and the summary are written.
    fn on_summary_written(self) -> (next: (Run, Vec<Effect>))
        requires
            self@.phase == Phase::Summarizing,
        ensures
            next.0@ == self@.on_summary_written().0,
            next.1.deep_view() == self@.on_summary_written().1,
    {
        proof {
            use_type_invariant(&self);
        }
        let mut effects: Vec<Effect> = Vec::new();
        if self.summary.failed > 0 {
            emit(
                &mut effects,
                Effect::Finish {
                    failure: Some(failure_message(self.suite, self.summary.log_file.as_str())),
                },
            );
            let run = self.moved_to(Phase::Failed);
            (run, effects)
        } else {
            emit(&mut effects, Effect::Finish { failure: None });
            let run = self.moved_to(Phase::Succeeded);
            (run, effects)
        }
    }

    /// The manifest has arrived.
    fn on_manifest(self, manifest: Manifest, now: Timestamp) -> (next: (Run, Vec<Effect>))
        requires
            self@.phase == Phase::Loading,
        ensures
            next.0@ == self@.on_manifest(manifest@, now).0,
            next.1.deep_view() == self@.on_manifest(manifest@, now).1,
    {
        if !manifest.runnable() {
            let path = manifest_path(self.workspace.as_str(), self.suite);
            let suite = self.suite;
            return self.abort(Fatal::NoCases { suite, manifest: path });
        }
        match now.run_id() {
            None => self.abort(Fatal::ClockOutOfRange),
            Some(run_id) => {
                let layout = RunLayout::new(self.workspace.as_str(), self.suite, run_id.as_str());
                let summary = RunSummary::opening(
                    &manifest,
                    self.suite,
                    self.workspace.as_str(),
                    &layout,
                    now,
                );
                let Run { suite, workspace, phase: _, manifest: _, run_id: _, summary: _ } = self;
                proof {
                    assert(summary@.follows(manifest@.cases));
                }
                let run = Run::assemble(
                    suite,
                    workspace,
                    Phase::ProbingBuild,
                    manifest,
                    run_id,
                    summary,
                );
                let mut effects: Vec<Effect> = Vec::new();
                run.open_run(&mut effects);
                assert(effects.deep_view() =~= run@.opening_effects());
                (run, effects)
            },
        }
    }

    /// It is known whether the build script exists.
    fn on_build_probed(self, exists: bool) -> (next: (Run, Vec<Effect>))
        requires
            self@.phase == Phase::ProbingBuild,
        ensures
            next.0@ == self@.on_build_probed(exists).0,
            next.1.deep_view() == self@.on_build_probed(exists).1,
    {
        let ghost before = self@;
        proof {
            use_type_invariant(&self);
        }
        let layout = self.layout();
        let script = build_script(&self.manifest, self.workspace.as_str());
        let mut effects: Vec<Effect> = Vec::new();
        if exists {
            let line = start_message(script.as_str(), self.suite);
            emit(
                &mut effects,
                Effect::AppendLine { path: layout.run_log.clone(), line: line.clone() },
            );
            emit(&mut effects, Effect::Announce { notice: Notice::Build { message: line } });
            emit(
                &mut effects,
                Effect::Spawn {
                    command: build_command(script.as_str(), self.suite, self.workspace.as_str()),
                    echo: true,
                },
            );
            let run = self.moved_to(Phase::Building);
            assert(effects.deep_view() =~= before.on_build_probed(exists).1);
            (run, effects)
        } else {
            let line = skip_message(script.as_str());
            emit(
                &mut effects,
                Effect::AppendLine { path: layout.run_log.clone(), line: line.clone() },
            );
            emit(&mut effects, Effect::Announce { notice: Notice::Build { message: line } });
            let run = self.moved_to(Phase::ProbingCase);
            run.open_case(0, &mut effects);
            assert(effects.deep_view() =~= before.on_build_probed(exists).1);
            (run, effects)
        }
    }

    /// The build script has ended.
    fn on_build_exited(self, output: ProcessOutput) -> (next: (Run, Vec<Effect>))
        requires
            self@.phase == Phase::Building,
        ensures
            next.0@ == self@.on_build_exited(output@).0,
            next.1.deep_view() == self@.on_build_exited(output@).1,
    {
        let ghost before = self@;
        let ghost given = output@;
        proof {
            use_type_invariant(&self);
        }
        let layout = self.layout();
        let mut effects: Vec<Effect> = Vec::new();
        let ProcessOutput { exit_code: _, stdout, stderr, duration_ms: _ } = output;
        emit(&mut effects, Effect::AppendBytes { path: layout.run_log.clone(), bytes: stdout });
        emit(&mut effects, Effect::AppendBytes { path: layout.run_log.clone(), bytes: stderr });
        let run = self.moved_to(Phase::ProbingCase);
        run.open_case(0, &mut effects);
        assert(effects.deep_view() =~= before.on_build_exited(given).1);
        (run, effects)
    }

    /// It is known whether the current case's executable exists.
    fn on_case_probed(self, exists: bool) -> (next: (Run, Vec<Effect>))
        requires
            self@.phase == Phase::ProbingCase,
        ensures
            next.0@ == self@.on_case_probed(exists).0,
            next.1.deep_view() == self@.on_case_probed(exists).1,
    {
        let ghost before = self@;
        proof {
            use_type_invariant(&self);
        }
        let i: usize = self.summary.cases.len();
        let layout = self.layout();
        let plan = self.plan(i, &layout);
        if exists {
            let mut effects: Vec<Effect> = Vec::new();
            let command_line = plan.command_header();
            let timeout_line = plan.timeout_header();
            let CasePlan { slug: _, script: _, log_path, artifact_dir, timeout_secs: _, command } =
                plan;
            emit(&mut effects, Effect::CreateFile { path: log_path.clone() });
            emit(&mut effects, Effect::AppendLine { path: log_path.clone(), line: command_line });
            emit(&mut effects, Effect::AppendLine { path: log_path, line: timeout_line });
            emit(&mut effects, Effect::CreateDir { path: artifact_dir });
            emit(&mut effects, Effect::Spawn { command, echo: false });
            let run = self.moved_to(Phase::RunningCase);
            assert(effects.deep_view() =~= before.on_case_probed(exists).1);
            (run, effects)
        } else {
            assert(self.manifest.cases.deep_view()[i as int] == self.manifest.cases@[i as int]@);
            let case = self.manifest.cases[i].name.clone();
            self.abort(Fatal::MissingScript { case, script: plan.script })
        }
    }

    /// The current case has ended.
    fn on_case_exited(self, output: ProcessOutput, now: Timestamp) -> (next: (Run, Vec<Effect>))
        requires
            self@.phase == Phase::RunningCase,
        ensures
            next.0@ == self@.on_case_exited(output@, now).0,
            next.1.deep_view() == self@.on_case_exited(output@, now).1,
    {
        let ghost before = self@;
        let ghost given = output@;
        proof {
            use_type_invariant(&self);
            lemma_step_wf(self@, (EventModel::Exited { output: output@ }), now);
        }
        let i: usize = self.summary.cases.len();
        let total: usize = self.manifest.cases.len();
        let layout = self.layout();
        let plan = self.plan(i, &layout);
        assert(self.manifest.cases.deep_view()[i as int] == self.manifest.cases@[i as int]@);
        let ProcessOutput { exit_code, stdout, stderr, duration_ms } = output;
        let outcome = CaseOutcome::of(&self.manifest.cases[i], exit_code, duration_ms, plan.log_path.clone());
        let status = outcome.status;
        let detail = CaseDetail::of(&self.manifest.cases[i], outcome, self.workspace.as_str());
        let mut effects: Vec<Effect> = Vec::new();
        emit(&mut effects, Effect::AppendBytes { path: plan.log_path.clone(), bytes: stdout });
        emit(&mut effects, Effect::AppendBytes { path: plan.log_path.clone(), bytes: stderr });
        emit(
            &mut effects,
            Effect::AppendLine {
                path: layout.run_log.clone(),
                line: finish_message(self.manifest.cases[i].name.as_str(), duration_ms, exit_code),
            },
        );
        emit(&mut effects, Effect::Announce { notice: Notice::CaseFinished { status, duration_ms } });
        let error_log = rel_path(layout.error_log.as_str(), self.workspace.as_str());
        let Run { suite, workspace, phase: _, manifest, run_id, mut summary } = self;
        summary.record(detail);
        if i + 1 < total {
            let run = Run::assemble(suite, workspace, Phase::ProbingCase, manifest, run_id, summary);
            run.open_case(i + 1, &mut effects);
            assert(effects.deep_view() =~= before.on_case_exited(given, now).1);
            (run, effects)
        } else {
            summary.close(now, error_log.as_str());
            let run = Run::assemble(
                suite,
                workspace,
                Phase::Summarizing,
                manifest,
                run_id,
                summary,
            );
            run.close_run(&mut effects);
            assert(effects.deep_view() =~= before.on_case_exited(given, now).1);
            (run, effects)
        }
    }

    /// Moves the run one step on: takes what happened outside, read at time
    /// `now`, and gives the next state and the effects to perform, exactly
    /// as [`RunModel::step`] says.
    pub fn advance(self, event: Event, now: Timestamp) -> (next: (Run, Vec<Effect>))
        ensures
            next.0@ == self@.step(event@, now).0,
            next.1.deep_view() == self@.step(event@, now).1,
            self@.wf(),
            next.0@.wf(),
    {
        proof {
            use_type_invariant(&self);
            lemma_step_wf(self@, event@, now);
        }
        if self.is_over() {
            let effects: Vec<Effect> = Vec::new();
            assert(effects.deep_view() =~= Seq::<EffectModel>::empty());
            return (self, effects);
        }
        let phase = self.phase;
        match event {
            Event::IoFailed { detail } => self.abort(Fatal::Io { detail }),
            Event::ManifestLoaded { manifest } => match phase {
                Phase::Loading => self.on_manifest(manifest, now),
                _ => self.abort(Fatal::UnexpectedEvent),
            },
            Event::ManifestUnreadable { detail } => match phase {
                Phase::Loading => {
                    let path = manifest_path(self.workspace.as_str(), self.suite);
                    self.abort(Fatal::ManifestUnreadable { path, detail })
                },
                _ => self.abort(Fatal::UnexpectedEvent),
            },
            Event::ManifestMalformed { detail } => match phase {
                Phase::Loading => {
                    let path = manifest_path(self.workspace.as_str(), self.suite);
                    self.abort(Fatal::ManifestMalformed { path, detail })
                },
                _ => self.abort(Fatal::UnexpectedEvent),
            },
            Event::Probed { exists } => match phase {
                Phase::ProbingBuild => self.on_build_probed(exists),
                Phase::ProbingCase => self.on_case_probed(exists),
                _ => self.abort(Fatal::UnexpectedEvent),
            },
            Event::Exited { output } => match phase {
                Phase::Building => self.on_build_exited(output),
                Phase::RunningCase => self.on_case_exited(output, now),
                _ => self.abort(Fatal::UnexpectedEvent),
            },
            Event::SummaryWritten => match phase {
                Phase::Summarizing => self.on_summary_written(),
                _ => self.abort(Fatal::UnexpectedEvent),
            },
            Event::SpawnFailed { detail } => match phase {
                Phase::Building => {
                    let script = build_script(&self.manifest, self.workspace.as_str());
                    self.abort(Fatal::BuildNotStarted { script, detail })
                },
                Phase::RunningCase => {
                    let i: usize = self.summary.cases.len();
                    assert(self.manifest.cases.deep_view()[i as int]
                        == self.manifest.cases@[i as int]@);
                    let case = self.manifest.cases[i].name.clone();
                    self.abort(Fatal::CaseNotStarted { case, detail })
                },
                _ => self.abort(Fatal::UnexpectedEvent),
            },
        }
    }

    /// Moves the run one step on, reading the clock for the time of the
    /// event: the result is that of [`Run::advance`] for the time read.
    pub fn step(self, event: Event) -> (next: (Run, Vec<Effect>))
        ensures
            exists|now: Timestamp|
                now.run_id_spec() is Some && next.0@ == self@.step(event@, now).0
                    && next.1.deep_view() == (#[trigger] self@.step(event@, now)).1,
            next.0@.wf(),
    {
        let now = Timestamp::now();
        self.advance(event, now)
    }
}


} // verus!
