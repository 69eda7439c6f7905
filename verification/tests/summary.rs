use starry_test_harness::case::{CaseOutcome, CaseStatus};
use starry_test_harness::clock::Timestamp;
use starry_test_harness::error::Fatal;
use starry_test_harness::layout::RunLayout;
use starry_test_harness::manifest::{Manifest, TestCase};
use starry_test_harness::suite::Suite;
use starry_test_harness::summary::{error_marker, failure_message, CaseDetail, RunSummary};

fn case_named(name: &str, allow_failure: bool) -> TestCase {
    TestCase {
        name: name.to_string(),
        description: None,
        path: name.to_string(),
        args: Vec::new(),
        timeout_secs: None,
        allow_failure,
    }
}

fn manifest_of(cases: Vec<TestCase>) -> Manifest {
    Manifest {
        name: Some("Core".to_string()),
        description: Some("syscalls".to_string()),
        build_script: None,
        arch: Some("x86_64".to_string()),
        default_timeout_secs: 600,
        cases,
    }
}

fn detail_with(name: &str, exit_code: Option<i32>, allow_failure: bool) -> CaseDetail {
    let case = case_named(name, allow_failure);
    let outcome = CaseOutcome::of(&case, exit_code, 5, format!("/ws/logs/ci/r/cases/{name}.log"));
    CaseDetail::of(&case, outcome, "/ws")
}

const START: Timestamp = Timestamp { secs: 1_700_000_000, nanos: 0, offset_secs: 0 };
const END: Timestamp = Timestamp { secs: 1_700_000_009, nanos: 500, offset_secs: 0 };

#[test]
fn detail_folds_case_and_outcome() {
    let case = case_named("Wait", true);
    let outcome = CaseOutcome::of(&case, Some(3), 77, "/ws/logs/ci/r/cases/wait.log".to_string());
    let detail = CaseDetail::of(&case, outcome, "/ws");
    assert_eq!(
        detail,
        CaseDetail {
            name: "Wait".to_string(),
            status: CaseStatus::SoftFailed,
            duration_ms: 77,
            exit_code: Some(3),
            allow_failure: true,
            log_path: "logs/ci/r/cases/wait.log".to_string(),
        }
    );
}

#[test]
fn blank_summary_is_empty() {
    let blank = RunSummary::blank();
    assert_eq!(blank.total, 0);
    assert_eq!(blank.passed + blank.failed + blank.soft_failed, 0);
    assert!(blank.cases.is_empty());
    assert_eq!(blank.error_log, None);
    assert_eq!(blank.suite, "");
}

#[test]
fn opening_summary_takes_the_manifest_totals() {
    let manifest = manifest_of(vec![case_named("a", false), case_named("b", true)]);
    let layout = RunLayout::new("/ws", Suite::CiTest, "r");
    let summary = RunSummary::opening(&manifest, Suite::CiTest, "/ws", &layout, START);
    assert_eq!(summary.suite, "Core");
    assert_eq!(summary.action, "run");
    assert_eq!(summary.description, Some("syscalls".to_string()));
    assert_eq!(summary.arch, Some("x86_64".to_string()));
    assert_eq!(summary.started_at, START);
    assert_eq!(summary.finished_at, START);
    assert_eq!(summary.total, 2);
    assert_eq!((summary.passed, summary.failed, summary.soft_failed), (0, 0, 0));
    assert_eq!(summary.log_file, "logs/ci/r/suite.log");
    assert_eq!(summary.error_log, None);
    assert_eq!(summary.case_logs_root, "logs/ci/r/cases");
    assert_eq!(summary.artifacts_root, "logs/ci/r/artifacts");
    assert!(summary.cases.is_empty());
}

#[test]
fn record_counts_each_status_once() {
    let manifest = manifest_of(vec![
        case_named("a", false),
        case_named("b", true),
        case_named("c", false),
        case_named("d", false),
    ]);
    let layout = RunLayout::new("/ws", Suite::CiTest, "r");
    let mut summary = RunSummary::opening(&manifest, Suite::CiTest, "/ws", &layout, START);
    summary.record(detail_with("a", Some(0), false));
    assert_eq!((summary.passed, summary.failed, summary.soft_failed), (1, 0, 0));
    summary.record(detail_with("b", Some(1), true));
    assert_eq!((summary.passed, summary.failed, summary.soft_failed), (1, 0, 1));
    summary.record(detail_with("c", None, false));
    assert_eq!((summary.passed, summary.failed, summary.soft_failed), (1, 1, 1));
    summary.record(detail_with("d", Some(0), false));
    assert_eq!((summary.passed, summary.failed, summary.soft_failed), (2, 1, 1));
    assert_eq!(summary.passed + summary.failed + summary.soft_failed, summary.total);
    let names: Vec<&str> = summary.cases.iter().map(|c| c.name.as_str()).collect();
    assert_eq!(names, vec!["a", "b", "c", "d"]);
}

#[test]
fn close_names_the_marker_only_after_a_failure() {
    let manifest = manifest_of(vec![case_named("a", false)]);
    let layout = RunLayout::new("/ws", Suite::CiTest, "r");
    let mut clean = RunSummary::opening(&manifest, Suite::CiTest, "/ws", &layout, START);
    clean.record(detail_with("a", Some(0), false));
    clean.close(END, "logs/ci/r/error.log");
    assert_eq!(clean.finished_at, END);
    assert_eq!(clean.error_log, None);
    assert!(clean.succeeded());

    let mut broken = RunSummary::opening(&manifest, Suite::CiTest, "/ws", &layout, START);
    broken.record(detail_with("a", Some(9), false));
    broken.close(END, "logs/ci/r/error.log");
    assert_eq!(broken.error_log, Some("logs/ci/r/error.log".to_string()));
    assert!(!broken.succeeded());
}

#[test]
fn soft_failures_do_not_fail_the_run() {
    let manifest = manifest_of(vec![case_named("a", true)]);
    let layout = RunLayout::new("/ws", Suite::CiTest, "r");
    let mut summary = RunSummary::opening(&manifest, Suite::CiTest, "/ws", &layout, START);
    summary.record(detail_with("a", Some(1), true));
    summary.close(END, "logs/ci/r/error.log");
    assert_eq!(summary.soft_failed, 1);
    assert!(summary.succeeded());
    assert_eq!(summary.error_log, None);
}

#[test]
fn error_marker_names_count_and_log() {
    assert_eq!(
        error_marker(1, "logs/ci/r/suite.log"),
        "1 cases failed. See logs/ci/r/suite.log for details."
    );
    assert_eq!(error_marker(12, "x"), "12 cases failed. See x for details.");
    assert_eq!(error_marker(0, ""), "0 cases failed. See  for details.");
    assert_eq!(
        error_marker(usize::MAX, "x"),
        format!("{} cases failed. See x for details.", usize::MAX)
    );
}

#[test]
fn failure_message_names_suite_and_log() {
    assert_eq!(
        failure_message(Suite::CiTest, "logs/ci/r/suite.log"),
        "CI Test failed. Consult logs/ci/r/suite.log"
    );
    assert_eq!(failure_message(Suite::DailyTest, "x"), "Daily Test failed. Consult x");
}

#[test]
fn fatal_messages() {
    let text = |s: &str| s.to_string();
    assert_eq!(
        Fatal::ManifestUnreadable { path: text("/ws/tests/ci/suite.toml"), detail: text("denied") }
            .message(),
        "failed to read manifest /ws/tests/ci/suite.toml"
    );
    assert_eq!(
        Fatal::ManifestMalformed { path: text("/ws/tests/ci/suite.toml"), detail: text("line 3") }
            .message(),
        "failed to parse manifest /ws/tests/ci/suite.toml"
    );
    assert_eq!(
        Fatal::NoCases { suite: Suite::StressTest, manifest: text("/ws/tests/stress/suite.toml") }
            .message(),
        "suite Stress Test has no cases defined - add entries to /ws/tests/stress/suite.toml"
    );
    assert_eq!(
        Fatal::MissingScript { case: text("a"), script: text("/ws/bin/a") }.message(),
        "test case a missing script /ws/bin/a"
    );
    assert_eq!(
        Fatal::BuildNotStarted { script: text("/ws/b.sh"), detail: text("denied") }.message(),
        "failed to run build script /ws/b.sh"
    );
    assert_eq!(
        Fatal::CaseNotStarted { case: text("a"), detail: text("denied") }.message(),
        "failed to run a"
    );
    assert_eq!(Fatal::Io { detail: text("disk full") }.message(), "disk full");
    assert_eq!(Fatal::ClockOutOfRange.message(), "the clock reading has no run identifier");
    assert_eq!(
        Fatal::UnexpectedEvent.message(),
        "the event does not answer the pending request"
    );
}

#[test]
fn fatal_causes() {
    let text = |s: &str| s.to_string();
    assert_eq!(
        Fatal::ManifestUnreadable { path: text("p"), detail: text("denied") }.cause(),
        Some(text("denied"))
    );
    assert_eq!(
        Fatal::ManifestMalformed { path: text("p"), detail: text("line 3") }.cause(),
        Some(text("line 3"))
    );
    assert_eq!(
        Fatal::BuildNotStarted { script: text("s"), detail: text("d1") }.cause(),
        Some(text("d1"))
    );
    assert_eq!(
        Fatal::CaseNotStarted { case: text("c"), detail: text("d2") }.cause(),
        Some(text("d2"))
    );
    assert_eq!(Fatal::NoCases { suite: Suite::CiTest, manifest: text("p") }.cause(), None);
    assert_eq!(Fatal::MissingScript { case: text("a"), script: text("s") }.cause(), None);
    assert_eq!(Fatal::Io { detail: text("x") }.cause(), None);
    assert_eq!(Fatal::ClockOutOfRange.cause(), None);
    assert_eq!(Fatal::UnexpectedEvent.cause(), None);
}
