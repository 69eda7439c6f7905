//! Running one case: the command and environment handed to the child, the
//! lines written around it, and how its exit is classified.

use crate::layout::{directory_of, join, join_path, parent_dir, sanitize_case_name, slug_of,
    LayoutModel, RunLayout};
use crate::manifest::{CaseModel, TestCase};
use crate::text::{append_decimal, append_signed_decimal, decimal, join_with_spaces, join_words,
    signed_decimal};
use vstd::prelude::*;

verus! {

/// How a case ended.
#[derive(Clone, Copy, Debug, PartialEq, Eq, Structural)]
pub enum CaseStatus {
    /// The process exited with code 0.
    Passed,
    /// The process did not exit with code 0 and failure is not tolerated.
    Failed,
    /// The process did not exit with code 0 and failure is tolerated.
    SoftFailed,
}

impl CaseStatus {
    /// The name of the status in the run summary.
    pub open spec fn text(self) -> Seq<char> {
        match self {
            CaseStatus::Passed => "passed"@,
            CaseStatus::Failed => "failed"@,
            CaseStatus::SoftFailed => "soft_failed"@,
        }
    }

    /// The status of a process that ended with `exit_code` (`None` when a
    /// signal ended it), under the case's tolerance for failure.
    pub open spec fn of(exit_code: Option<i32>, allow_failure: bool) -> CaseStatus {
        if exit_code == Some(0i32) {
            CaseStatus::Passed
        } else if allow_failure {
            CaseStatus::SoftFailed
        } else {
            CaseStatus::Failed
        }
    }

    /// The name of the status in the run summary.
    pub fn as_str(&self) -> (name: &'static str)
        ensures
            name@ == self.text(),
    {
        match self {
            CaseStatus::Passed => "passed",
            CaseStatus::Failed => "failed",
            CaseStatus::SoftFailed => "soft_failed",
        }
    }
}

/// Classifies the end of a case: exit code 0 passes whatever the tolerance;
/// any other end is a soft failure where failure is allowed, a failure where
/// it is not.
pub fn classify(exit_code: Option<i32>, allow_failure: bool) -> (status: CaseStatus)
    ensures
        status == CaseStatus::of(exit_code, allow_failure),
        exit_code == Some(0i32) ==> status == CaseStatus::Passed,
        exit_code != Some(0i32) && !allow_failure ==> status == CaseStatus::Failed,
        exit_code != Some(0i32) && allow_failure ==> status == CaseStatus::SoftFailed,
{
    match exit_code {
        Some(code) => {
            if code == 0 {
                CaseStatus::Passed
            } else if allow_failure {
                CaseStatus::SoftFailed
            } else {
                CaseStatus::Failed
            }
        },
        None => {
            if allow_failure {
                CaseStatus::SoftFailed
            } else {
                CaseStatus::Failed
            }
        },
    }
}

/// What a finished child process leaves behind.
#[derive(Clone, Debug, PartialEq, Eq)]
pub struct ProcessOutput {
    /// The exit code, absent when a signal ended the process.
    pub exit_code: Option<i32>,
    pub stdout: Vec<u8>,
    pub stderr: Vec<u8>,
    /// Wall-clock time from spawn to completion, in milliseconds.
    pub duration_ms: u128,
}

/// The mathematical content of a [`ProcessOutput`].
pub struct OutputModel {
    pub exit_code: Option<i32>,
    pub stdout: Seq<u8>,
    pub stderr: Seq<u8>,
    pub duration_ms: u128,
}

impl View for ProcessOutput {
    type V = OutputModel;

    open spec fn view(&self) -> OutputModel {
        OutputModel {
            exit_code: self.exit_code,
            stdout: self.stdout@,
            stderr: self.stderr@,
            duration_ms: self.duration_ms,
        }
    }
}

/// A command to run: the program, its arguments as given, the directory it
/// runs in and the variables added to its environment.
#[derive(Clone, Debug, PartialEq, Eq)]
pub struct Command {
    pub program: String,
    pub args: Vec<String>,
    pub cwd: String,
    pub env: Vec<(String, String)>,
}

/// The mathematical content of a [`Command`].
pub struct CommandModel {
    pub program: Seq<char>,
    pub args: Seq<Seq<char>>,
    pub cwd: Seq<char>,
    pub env: Seq<(Seq<char>, Seq<char>)>,
}

impl View for Command {
    type V = CommandModel;

    open spec fn view(&self) -> CommandModel {
        CommandModel {
            program: self.program@,
            args: self.args.deep_view(),
            cwd: self.cwd@,
            env: self.env.deep_view(),
        }
    }
}

/// The transient result of one case.
#[derive(Clone, Debug, PartialEq, Eq)]
pub struct CaseOutcome {
    pub status: CaseStatus,
    pub duration_ms: u128,
    pub exit_code: Option<i32>,
    pub log_path: String,
}

/// The mathematical content of a [`CaseOutcome`].
pub struct OutcomeModel {
    pub status: CaseStatus,
    pub duration_ms: u128,
    pub exit_code: Option<i32>,
    pub log_path: Seq<char>,
}

impl View for CaseOutcome {
    type V = OutcomeModel;

    open spec fn view(&self) -> OutcomeModel {
        OutcomeModel {
            status: self.status,
            duration_ms: self.duration_ms,
            exit_code: self.exit_code,
            log_path: self.log_path@,
        }
    }
}

impl OutcomeModel {
    /// The outcome of a case whose process ended with `exit_code` after
    /// `duration_ms`, its output kept in `log_path`.
    pub open spec fn of(
        case: CaseModel,
        exit_code: Option<i32>,
        duration_ms: u128,
        log_path: Seq<char>,
    ) -> OutcomeModel {
        OutcomeModel {
            status: CaseStatus::of(exit_code, case.allow_failure),
            duration_ms,
            exit_code,
            log_path,
        }
    }
}

impl CaseOutcome {
    /// The outcome of `case` once its process has ended.
    pub fn of(case: &TestCase, exit_code: Option<i32>, duration_ms: u128, log_path: String) -> (outcome:
        CaseOutcome)
        ensures
            outcome@ == OutcomeModel::of(case@, exit_code, duration_ms, log_path@),
    {
        CaseOutcome {
            status: classify(exit_code, case.allow_failure),
            duration_ms,
            exit_code,
            log_path,
        }
    }
}

/// The environment handed to a case: nine variables, in this order.
pub open spec fn case_environment(
    workspace: Seq<char>,
    run_id: Seq<char>,
    run_dir: Seq<char>,
    name: Seq<char>,
    slug: Seq<char>,
    log_path: Seq<char>,
    log_dir: Seq<char>,
    artifact_dir: Seq<char>,
    timeout_secs: u64,
) -> Seq<(Seq<char>, Seq<char>)> {
    seq![
        ("STARRY_WORKSPACE_ROOT"@, workspace),
        ("STARRY_RUN_ID"@, run_id),
        ("STARRY_RUN_DIR"@, run_dir),
        ("STARRY_CASE_NAME"@, name),
        ("STARRY_CASE_SLUG"@, slug),
        ("STARRY_CASE_LOG_PATH"@, log_path),
        ("STARRY_CASE_LOG_DIR"@, log_dir),
        ("STARRY_CASE_ARTIFACT_DIR"@, artifact_dir),
        ("STARRY_CASE_TIMEOUT_SECS"@, decimal(timeout_secs as nat)),
    ]
}

/// How an exit code reads in the run log: `Some(<code>)`, or `None` when a
/// signal ended the process.
pub open spec fn exit_text(exit_code: Option<i32>) -> Seq<char> {
    match exit_code {
        Some(code) => "Some("@ + signed_decimal(code as int) + ")"@,
        None => "None"@,
    }
}

/// First line of a case's log: the command line.
pub open spec fn command_line(script: Seq<char>, args: Seq<Seq<char>>) -> Seq<char> {
    "[case] command: "@ + script + " "@ + join_words(args)
}

/// Second line of a case's log: the timeout handed to the case.
pub open spec fn timeout_line(timeout_secs: u64) -> Seq<char> {
    "[case] timeout budget: "@ + decimal(timeout_secs as nat) + "s"@
}

/// Run-log line written when a case starts.
pub open spec fn start_line(name: Seq<char>, log: Seq<char>) -> Seq<char> {
    "[case] starting "@ + name + " -> "@ + log
}

/// Run-log line that carries a case's description.
pub open spec fn description_line(description: Seq<char>) -> Seq<char> {
    "        "@ + description
}

/// Run-log line written when a case has finished.
pub open spec fn finish_line(name: Seq<char>, duration_ms: u128, exit_code: Option<i32>) -> Seq<
    char,
> {
    "[case] "@ + name + " finished in "@ + decimal(duration_ms as nat) + " ms (exit "@ + exit_text(
        exit_code,
    ) + ")"@
}

/// Everything decided about a case before its process is started.
#[derive(Clone, Debug, PartialEq, Eq)]
pub struct CasePlan {
    /// The file-system-safe name of the case.
    pub slug: String,
    /// The executable, resolved against the workspace.
    pub script: String,
    /// The file that receives the case's output.
    pub log_path: String,
    /// The directory the case may fill with artifacts.
    pub artifact_dir: String,
    /// The timeout handed to the case, in seconds.
    pub timeout_secs: u64,
    /// The command that runs the case.
    pub command: Command,
}

/// The mathematical content of a [`CasePlan`].
pub struct PlanModel {
    pub slug: Seq<char>,
    pub script: Seq<char>,
    pub log_path: Seq<char>,
    pub artifact_dir: Seq<char>,
    pub timeout_secs: u64,
    pub command: CommandModel,
}

impl View for CasePlan {
    type V = PlanModel;

    open spec fn view(&self) -> PlanModel {
        PlanModel {
            slug: self.slug@,
            script: self.script@,
            log_path: self.log_path@,
            artifact_dir: self.artifact_dir@,
            timeout_secs: self.timeout_secs,
            command: self.command@,
        }
    }
}

impl PlanModel {
    /// The plan for `case` in the run `run_id` laid out as `layout` below
    /// `workspace`: the child runs in the workspace, with the case's
    /// arguments as given and the nine variables of [`case_environment`].
    /// The log directory it is told is the directory that holds its log.
    pub open spec fn of(
        case: CaseModel,
        workspace: Seq<char>,
        run_id: Seq<char>,
        layout: LayoutModel,
        default_timeout_secs: u64,
    ) -> PlanModel {
        let slug = slug_of(case.name);
        let script = join(workspace, case.path);
        let log_path = layout.case_log(slug);
        let artifact_dir = layout.case_artifacts(slug);
        let timeout_secs = case.timeout_budget(default_timeout_secs);
        PlanModel {
            slug,
            script,
            log_path,
            artifact_dir,
            timeout_secs,
            command: CommandModel {
                program: script,
                args: case.args,
                cwd: workspace,
                env: case_environment(
                    workspace,
                    run_id,
                    layout.run_dir,
                    case.name,
                    slug,
                    log_path,
                    directory_of(log_path),
                    artifact_dir,
                    timeout_secs,
                ),
            },
        }
    }

    /// The two lines that open the case's log.
    pub open spec fn header(self) -> Seq<Seq<char>> {
        seq![command_line(self.script, self.command.args), timeout_line(self.timeout_secs)]
    }
}

/// A copy of a list of texts.
pub(crate) fn clone_texts(texts: &Vec<String>) -> (copy: Vec<String>)
    ensures
        copy.deep_view() == texts.deep_view(),
{
    let mut copy: Vec<String> = Vec::new();
    let mut i: usize = 0;
    while i < texts.len()
        invariant
            i <= texts.len(),
            copy.len() == i,
            forall|j: int| 0 <= j < i ==> copy@[j]@ == texts@[j]@,
        decreases texts.len() - i,
    {
        copy.push(texts[i].clone());
        i += 1;
    }
    proof {
        assert(copy.deep_view() =~= texts.deep_view());
    }
    copy
}

/// One variable of a child's environment.
fn variable(name: &str, value: &str) -> (pair: (String, String))
    ensures
        pair.deep_view() == (name@, value@),
{
    (String::from_str(name), String::from_str(value))
}

impl CasePlan {
    /// Plans the run of `case`.
    pub fn new(
        case: &TestCase,
        workspace: &str,
        run_id: &str,
        layout: &RunLayout,
        default_timeout_secs: u64,
    ) -> (plan: CasePlan)
        ensures
            plan@ == PlanModel::of(case@, workspace@, run_id@, layout@, default_timeout_secs),
    {
        let slug = sanitize_case_name(case.name.as_str());
        let script = join_path(workspace, case.path.as_str());
        let log_path = layout.case_log(slug.as_str());
        let artifact_dir = layout.case_artifacts(slug.as_str());
        let timeout_secs = case.timeout_budget(default_timeout_secs);
        let mut timeout_text = String::new();
        append_decimal(&mut timeout_text, timeout_secs as u128);
        let mut env: Vec<(String, String)> = Vec::new();
        env.push(variable("STARRY_WORKSPACE_ROOT", workspace));
        env.push(variable("STARRY_RUN_ID", run_id));
        env.push(variable("STARRY_RUN_DIR", layout.run_dir.as_str()));
        env.push(variable("STARRY_CASE_NAME", case.name.as_str()));
        env.push(variable("STARRY_CASE_SLUG", slug.as_str()));
        env.push(variable("STARRY_CASE_LOG_PATH", log_path.as_str()));
        let log_dir = parent_dir(log_path.as_str());
        env.push(variable("STARRY_CASE_LOG_DIR", log_dir.as_str()));
        env.push(variable("STARRY_CASE_ARTIFACT_DIR", artifact_dir.as_str()));
        env.push(variable("STARRY_CASE_TIMEOUT_SECS", timeout_text.as_str()));
        proof {
            let model = PlanModel::of(case@, workspace@, run_id@, layout@, default_timeout_secs);
            assert(Seq::<char>::empty() + decimal(timeout_secs as nat) =~= decimal(
                timeout_secs as nat,
            ));
            assert(env.deep_view() =~= model.command.env);
        }
        let command = Command {
            program: script.clone(),
            args: clone_texts(&case.args),
            cwd: String::from_str(workspace),
            env,
        };
        CasePlan { slug, script, log_path, artifact_dir, timeout_secs, command }
    }

    /// The first line of the case's log: the command line.
    pub fn command_header(&self) -> (line: String)
        ensures
            line@ == self@.header()[0],
    {
        let mut line = String::from_str("[case] command: ");
        line.append(self.script.as_str());
        line.append(" ");
        let args = join_with_spaces(&self.command.args);
        line.append(args.as_str());
        line
    }

    /// The second line of the case's log: the timeout handed to the case.
    pub fn timeout_header(&self) -> (line: String)
        ensures
            line@ == self@.header()[1],
    {
        let mut line = String::from_str("[case] timeout budget: ");
        append_decimal(&mut line, self.timeout_secs as u128);
        line.append("s");
        line
    }

    /// The two lines that open the case's log: the command line and the
    /// timeout handed to the case.
    pub fn header(&self) -> (lines: Vec<String>)
        ensures
            lines.deep_view() == self@.header(),
    {
        let mut lines: Vec<String> = Vec::new();
        lines.push(self.command_header());
        lines.push(self.timeout_header());
        proof {
            assert(lines.deep_view() =~= self@.header());
        }
        lines
    }
}

/// The run-log line written when a case starts.
pub fn start_message(name: &str, log: &str) -> (line: String)
    ensures
        line@ == start_line(name@, log@),
{
    let mut line = String::from_str("[case] starting ");
    line.append(name);
    line.append(" -> ");
    line.append(log);
    line
}

/// The run-log line that carries a case's description.
pub fn description_message(description: &str) -> (line: String)
    ensures
        line@ == description_line(description@),
{
    let mut line = String::from_str("        ");
    line.append(description);
    line
}

/// The run-log line written when a case has finished.
pub fn finish_message(name: &str, duration_ms: u128, exit_code: Option<i32>) -> (line: String)
    ensures
        line@ == finish_line(name@, duration_ms, exit_code),
{
    let mut line = String::from_str("[case] ");
    line.append(name);
    line.append(" finished in ");
    append_decimal(&mut line, duration_ms);
    line.append(" ms (exit ");
    match exit_code {
        Some(code) => {
            line.append("Some(");
            append_signed_decimal(&mut line, code);
            line.append(")");
        },
        None => {
            line.append("None");
        },
    }
    line.append(")");
    line
}

} // verus!
