use starry_test_harness::build_step::{build_command, build_script, skip_message, start_message};
use starry_test_harness::case::{
    classify, description_message, finish_message, CaseOutcome, CasePlan, CaseStatus,
};
use starry_test_harness::layout::RunLayout;
use starry_test_harness::manifest::{default_timeout, Manifest, TestCase};
use starry_test_harness::suite::Suite;

fn sample_case(name: &str, path: &str, allow_failure: bool) -> TestCase {
    TestCase {
        name: name.to_string(),
        description: None,
        path: path.to_string(),
        args: Vec::new(),
        timeout_secs: None,
        allow_failure,
    }
}

fn sample_manifest(cases: Vec<TestCase>) -> Manifest {
    Manifest {
        name: None,
        description: None,
        build_script: None,
        arch: None,
        default_timeout_secs: default_timeout(),
        cases,
    }
}

#[test]
fn status_names() {
    assert_eq!(CaseStatus::Passed.as_str(), "passed");
    assert_eq!(CaseStatus::Failed.as_str(), "failed");
    assert_eq!(CaseStatus::SoftFailed.as_str(), "soft_failed");
}

#[test]
fn exit_zero_always_passes() {
    assert_eq!(classify(Some(0), false), CaseStatus::Passed);
    assert_eq!(classify(Some(0), true), CaseStatus::Passed);
}

#[test]
fn non_zero_exit_fails_unless_tolerated() {
    assert_eq!(classify(Some(1), false), CaseStatus::Failed);
    assert_eq!(classify(Some(1), true), CaseStatus::SoftFailed);
    assert_eq!(classify(Some(-1), false), CaseStatus::Failed);
    assert_eq!(classify(Some(255), true), CaseStatus::SoftFailed);
    assert_eq!(classify(Some(i32::MIN), false), CaseStatus::Failed);
}

#[test]
fn death_by_signal_is_a_failure() {
    assert_eq!(classify(None, false), CaseStatus::Failed);
    assert_eq!(classify(None, true), CaseStatus::SoftFailed);
}

#[test]
fn default_timeout_is_ten_minutes() {
    assert_eq!(default_timeout(), 600);
}

#[test]
fn case_timeout_overrides_the_default() {
    let mut case = sample_case("a", "bin/a", false);
    assert_eq!(case.timeout_budget(600), 600);
    assert_eq!(case.timeout_budget(5), 5);
    case.timeout_secs = Some(30);
    assert_eq!(case.timeout_budget(600), 30);
    case.timeout_secs = Some(0);
    assert_eq!(case.timeout_budget(600), 0);
}

#[test]
fn blank_manifest_has_no_cases() {
    let blank = Manifest::blank();
    assert_eq!(blank, sample_manifest(Vec::new()));
    assert!(!blank.runnable());
    assert!(sample_manifest(vec![sample_case("a", "a", false)]).runnable());
}

#[test]
fn label_prefers_the_manifest_name() {
    let mut manifest = sample_manifest(Vec::new());
    assert_eq!(manifest.label(Suite::StressTest), "Stress Test");
    manifest.name = Some("Nightly".to_string());
    assert_eq!(manifest.label(Suite::StressTest), "Nightly");
}

#[test]
fn suite_header_fills_in_what_is_missing() {
    let mut manifest = sample_manifest(Vec::new());
    assert_eq!(
        manifest.header(Suite::CiTest),
        "[suite] CI Test (unknown arch) - no description provided"
    );
    manifest.name = Some("Core".to_string());
    manifest.arch = Some("riscv64".to_string());
    manifest.description = Some("syscall checks".to_string());
    assert_eq!(manifest.header(Suite::CiTest), "[suite] Core (riscv64) - syscall checks");
}

#[test]
fn outcome_keeps_what_the_process_left() {
    let case = sample_case("a", "bin/a", true);
    let outcome = CaseOutcome::of(&case, Some(2), 1234, "/ws/x.log".to_string());
    assert_eq!(outcome.status, CaseStatus::SoftFailed);
    assert_eq!(outcome.exit_code, Some(2));
    assert_eq!(outcome.duration_ms, 1234);
    assert_eq!(outcome.log_path, "/ws/x.log");
    let killed = CaseOutcome::of(&case, None, 0, String::new());
    assert_eq!(killed.status, CaseStatus::SoftFailed);
    assert_eq!(killed.exit_code, None);
}

#[test]
fn plan_resolves_paths_and_timeout() {
    let layout = RunLayout::new("/ws", Suite::CiTest, "20240102-030405");
    let mut case = sample_case("Wait PID", "target/debug/waitpid", false);
    case.args = vec!["--fast".to_string(), "two words".to_string()];
    let plan = CasePlan::new(&case, "/ws", "20240102-030405", &layout, 600);
    assert_eq!(plan.slug, "wait-pid");
    assert_eq!(plan.script, "/ws/target/debug/waitpid");
    assert_eq!(plan.log_path, "/ws/logs/ci/20240102-030405/cases/wait-pid.log");
    assert_eq!(plan.artifact_dir, "/ws/logs/ci/20240102-030405/artifacts/wait-pid");
    assert_eq!(plan.timeout_secs, 600);
    assert_eq!(plan.command.program, "/ws/target/debug/waitpid");
    assert_eq!(plan.command.args, vec!["--fast".to_string(), "two words".to_string()]);
    assert_eq!(plan.command.cwd, "/ws");
}

#[test]
fn plan_hands_the_child_nine_variables() {
    let layout = RunLayout::new("/ws", Suite::CiTest, "20240102-030405");
    let mut case = sample_case("Wait PID", "target/debug/waitpid", false);
    case.timeout_secs = Some(45);
    let plan = CasePlan::new(&case, "/ws", "20240102-030405", &layout, 600);
    let expected: Vec<(String, String)> = [
        ("STARRY_WORKSPACE_ROOT", "/ws"),
        ("STARRY_RUN_ID", "20240102-030405"),
        ("STARRY_RUN_DIR", "/ws/logs/ci/20240102-030405"),
        ("STARRY_CASE_NAME", "Wait PID"),
        ("STARRY_CASE_SLUG", "wait-pid"),
        ("STARRY_CASE_LOG_PATH", "/ws/logs/ci/20240102-030405/cases/wait-pid.log"),
        ("STARRY_CASE_LOG_DIR", "/ws/logs/ci/20240102-030405/cases"),
        ("STARRY_CASE_ARTIFACT_DIR", "/ws/logs/ci/20240102-030405/artifacts/wait-pid"),
        ("STARRY_CASE_TIMEOUT_SECS", "45"),
    ]
    .iter()
    .map(|(name, value)| (name.to_string(), value.to_string()))
    .collect();
    assert_eq!(plan.command.env, expected);
}

#[test]
fn plan_tells_the_child_the_directory_of_its_log() {
    let mut layout = RunLayout::new("/ws", Suite::CiTest, "r");
    let case = sample_case("ok", "bin/ok", false);
    let plan = CasePlan::new(&case, "/ws", "r", &layout, 600);
    assert_eq!(plan.command.env[6], ("STARRY_CASE_LOG_DIR".to_string(), layout.case_logs_root.clone()));

    layout.case_logs_root = "/elsewhere/cases/".to_string();
    let plan = CasePlan::new(&case, "/ws", "r", &layout, 600);
    assert_eq!(plan.log_path, "/elsewhere/cases/ok.log");
    assert_eq!(plan.command.env[6].1, "/elsewhere/cases");
    let parent = std::path::Path::new(&plan.log_path).parent().unwrap();
    assert_eq!(plan.command.env[6].1, parent.to_str().unwrap());
}

#[test]
fn plan_timeout_variable_is_decimal() {
    let layout = RunLayout::new("/ws", Suite::CiTest, "r");
    let mut case = sample_case("a", "a", false);
    for secs in [0u64, 7, 10, 600, 18446744073709551615] {
        case.timeout_secs = Some(secs);
        let plan = CasePlan::new(&case, "/ws", "r", &layout, 1);
        assert_eq!(plan.command.env[8].1, secs.to_string());
    }
}

#[test]
fn plan_header_has_command_and_timeout() {
    let layout = RunLayout::new("/ws", Suite::CiTest, "r");
    let mut case = sample_case("a", "bin/a", false);
    case.args = vec!["x".to_string(), "y z".to_string(), "".to_string()];
    let plan = CasePlan::new(&case, "/ws", "r", &layout, 600);
    assert_eq!(
        plan.header(),
        vec![
            "[case] command: /ws/bin/a x y z ".to_string(),
            "[case] timeout budget: 600s".to_string(),
        ]
    );
    assert_eq!(plan.command_header(), "[case] command: /ws/bin/a x y z ");
    assert_eq!(plan.timeout_header(), "[case] timeout budget: 600s");
}

#[test]
fn plan_header_without_arguments() {
    let layout = RunLayout::new("/ws", Suite::CiTest, "r");
    let case = sample_case("a", "bin/a", false);
    let plan = CasePlan::new(&case, "/ws", "r", &layout, 600);
    assert_eq!(plan.command_header(), "[case] command: /ws/bin/a ");
}

#[test]
fn plan_keeps_an_absolute_executable() {
    let layout = RunLayout::new("/ws", Suite::CiTest, "r");
    let case = sample_case("true", "/bin/true", false);
    let plan = CasePlan::new(&case, "/ws", "r", &layout, 600);
    assert_eq!(plan.script, "/bin/true");
}

#[test]
fn case_log_lines() {
    assert_eq!(
        starry_test_harness::case::start_message("a", "logs/ci/r/cases/a.log"),
        "[case] starting a -> logs/ci/r/cases/a.log"
    );
    assert_eq!(description_message("checks waitpid"), "        checks waitpid");
}

#[test]
fn finish_line_shows_duration_and_exit() {
    assert_eq!(finish_message("a", 0, Some(0)), "[case] a finished in 0 ms (exit Some(0))");
    assert_eq!(finish_message("a", 1500, Some(1)), "[case] a finished in 1500 ms (exit Some(1))");
    assert_eq!(finish_message("b c", 9, Some(-7)), "[case] b c finished in 9 ms (exit Some(-7))");
    assert_eq!(finish_message("a", 10, None), "[case] a finished in 10 ms (exit None)");
    assert_eq!(
        finish_message("a", u128::MAX, Some(i32::MIN)),
        format!("[case] a finished in {} ms (exit {:?})", u128::MAX, Some(i32::MIN))
    );
    assert_eq!(
        finish_message("a", 1, Some(i32::MAX)),
        "[case] a finished in 1 ms (exit Some(2147483647))"
    );
}

#[test]
fn build_script_defaults_to_the_stub() {
    let mut manifest = sample_manifest(Vec::new());
    assert_eq!(build_script(&manifest, "/ws"), "/ws/scripts/build_stub.sh");
    manifest.build_script = Some("scripts/build.sh".to_string());
    assert_eq!(build_script(&manifest, "/ws"), "/ws/scripts/build.sh");
    manifest.build_script = Some("/opt/build.sh".to_string());
    assert_eq!(build_script(&manifest, "/ws"), "/opt/build.sh");
}

#[test]
fn build_messages() {
    assert_eq!(
        skip_message("/ws/scripts/build_stub.sh"),
        "[build] skipped build step because /ws/scripts/build_stub.sh does not exist"
    );
    assert_eq!(
        start_message("/ws/scripts/build.sh", Suite::DailyTest),
        "[build] executing /ws/scripts/build.sh for Daily Test"
    );
}

#[test]
fn build_command_gets_the_suite_directory() {
    let command = build_command("/ws/scripts/build.sh", Suite::StressTest, "/ws");
    assert_eq!(command.program, "/ws/scripts/build.sh");
    assert_eq!(command.args, vec!["stress".to_string()]);
    assert_eq!(command.cwd, "/ws");
    assert!(command.env.is_empty());
}
