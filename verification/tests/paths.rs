use starry_test_harness::layout::{
    join_path, manifest_path, parent_dir, rel_path, sanitize_case_name, RunLayout,
};
use starry_test_harness::suite::Suite;

#[test]
fn suite_directory_names() {
    assert_eq!(Suite::CiTest.dir_name(), "ci");
    assert_eq!(Suite::StressTest.dir_name(), "stress");
    assert_eq!(Suite::DailyTest.dir_name(), "daily");
}

#[test]
fn suite_display_names() {
    assert_eq!(Suite::CiTest.display_name(), "CI Test");
    assert_eq!(Suite::StressTest.display_name(), "Stress Test");
    assert_eq!(Suite::DailyTest.display_name(), "Daily Test");
}

#[test]
fn join_appends_with_one_separator() {
    assert_eq!(join_path("/ws", "logs"), "/ws/logs");
    assert_eq!(join_path("/ws/", "logs"), "/ws/logs");
    assert_eq!(join_path("rel", "a/b"), "rel/a/b");
}

#[test]
fn join_keeps_an_absolute_path() {
    assert_eq!(join_path("/ws", "/usr/bin/true"), "/usr/bin/true");
    assert_eq!(join_path("", "/x"), "/x");
}

#[test]
fn join_with_an_empty_side() {
    assert_eq!(join_path("", "logs"), "logs");
    assert_eq!(join_path("/ws", ""), "/ws/");
    assert_eq!(join_path("", ""), "");
}

#[test]
fn join_agrees_with_the_standard_library() {
    let pairs = [
        ("/ws", "logs"),
        ("/ws/", "logs"),
        ("/ws", "/abs"),
        ("", "logs"),
        ("/ws", ""),
        ("/", "x"),
        ("a/b", "../c"),
    ];
    for (base, rel) in pairs {
        let expected = std::path::Path::new(base).join(rel);
        assert_eq!(join_path(base, rel), expected.to_str().unwrap());
    }
}

#[test]
fn manifest_path_of_each_suite() {
    assert_eq!(manifest_path("/ws", Suite::CiTest), "/ws/tests/ci/suite.toml");
    assert_eq!(manifest_path("/ws", Suite::StressTest), "/ws/tests/stress/suite.toml");
    assert_eq!(manifest_path("/ws/", Suite::DailyTest), "/ws/tests/daily/suite.toml");
}

#[test]
fn rel_path_strips_the_workspace() {
    assert_eq!(rel_path("/ws/logs/ci/suite.log", "/ws"), "logs/ci/suite.log");
    assert_eq!(rel_path("/ws/logs", "/ws/"), "logs");
    assert_eq!(rel_path("/ws//logs", "/ws"), "logs");
    assert_eq!(rel_path("/logs", "/"), "logs");
}

#[test]
fn rel_path_of_the_workspace_itself_is_empty() {
    assert_eq!(rel_path("/ws", "/ws"), "");
    assert_eq!(rel_path("/ws/", "/ws"), "");
}

#[test]
fn rel_path_keeps_a_path_outside_the_workspace() {
    assert_eq!(rel_path("/other/logs", "/ws"), "/other/logs");
    assert_eq!(rel_path("/wsx/logs", "/ws"), "/wsx/logs");
    assert_eq!(rel_path("/w", "/ws"), "/w");
    assert_eq!(rel_path("logs", ""), "logs");
    assert_eq!(rel_path("/logs", ""), "/logs");
}

#[test]
fn rel_path_agrees_with_the_standard_library() {
    let pairs = [
        ("/ws/logs/ci/suite.log", "/ws"),
        ("/ws/logs", "/ws/"),
        ("/ws//logs", "/ws"),
        ("/other/logs", "/ws"),
        ("/wsx/logs", "/ws"),
        ("/ws", "/ws"),
        ("/logs", "/"),
        ("logs", ""),
    ];
    for (path, root) in pairs {
        let p = std::path::Path::new(path);
        let expected = p.strip_prefix(root).unwrap_or(p);
        assert_eq!(rel_path(path, root), expected.to_str().unwrap());
    }
}

#[test]
fn rel_path_goes_by_components() {
    assert_eq!(rel_path("/ws/./a", "/ws"), "a");
    assert_eq!(rel_path("/ws/.", "/ws"), "");
    assert_eq!(rel_path("/ws/a/", "/ws"), "a");
    assert_eq!(rel_path("/ws/a/./b//c/.", "/ws"), "a/./b//c");
    assert_eq!(rel_path("//ws/a", "/ws/./"), "a");
    assert_eq!(rel_path("/ws/../a", "/ws"), "../a");
    assert_eq!(rel_path("./ws/a", "./ws"), "a");
    assert_eq!(rel_path("ws/a", "./ws"), "ws/a");
    assert_eq!(rel_path("a/", ""), "a");
}

#[test]
fn rel_path_agrees_with_the_standard_library_on_the_three_shapes() {
    for (path, root) in [("/ws/./a", "/ws"), ("/ws/.", "/ws"), ("/ws/a/", "/ws")] {
        let p = std::path::Path::new(path);
        let expected = p.strip_prefix(root).unwrap_or(p);
        assert_eq!(rel_path(path, root), expected.to_str().unwrap());
    }
}

const SHAPES: [&str; 48] = [
    "", "/", "//", ".", "..", "...", "./", "./.", "/.", "/..", "a", "a/", "a/.", "a/..", "/a",
    "./a", "../a", "a//b", "a/./b", "a/b", "a/b/", "/a.", "/.a", ".hidden", "/ws", "/ws/", "/ws//",
    "/ws/.", "/ws/./", "/ws/./a", "/ws//a", "//ws/a", "/./ws/a", "/ws/a", "/ws/a/", "/ws/a/.",
    "/ws/a/./b", "/ws/../a", "/ws/.hidden", "/ws/a.b/", "/wsx", "/wsx/a", "ws", "ws/a", "./ws",
    "./ws/a", "/ws/logs/ci/r/cases/ok.log", "/ws/a/..",
];

#[test]
fn rel_path_agrees_with_the_standard_library_on_every_pair_of_shapes() {
    for path in SHAPES {
        for root in SHAPES {
            let p = std::path::Path::new(path);
            let expected = p.strip_prefix(root).unwrap_or(p);
            assert_eq!(
                rel_path(path, root),
                expected.to_str().unwrap(),
                "path {path:?} seen from {root:?}"
            );
        }
    }
}

#[test]
fn rel_path_joined_onto_the_workspace_names_the_path_again() {
    for path in SHAPES {
        for root in SHAPES {
            let p = std::path::Path::new(path);
            if p.starts_with(root) {
                let rel = rel_path(path, root);
                assert!(std::path::Path::new(&rel).is_relative() || root.is_empty());
                assert_eq!(std::path::Path::new(root).join(&rel), p, "{path:?} from {root:?}");
            } else {
                assert_eq!(rel_path(path, root), path);
            }
        }
    }
}

#[test]
fn parent_dir_drops_the_last_name() {
    assert_eq!(parent_dir("/ws/logs/ci/r/cases/ok.log"), "/ws/logs/ci/r/cases");
    assert_eq!(parent_dir("/ws/a/"), "/ws");
    assert_eq!(parent_dir("/a"), "/");
    assert_eq!(parent_dir("a"), "");
    assert_eq!(parent_dir("a/./b"), "a");
    assert_eq!(parent_dir("./a"), ".");
    assert_eq!(parent_dir("a/.."), "a");
}

#[test]
fn parent_dir_of_a_path_without_parent_is_the_current_directory() {
    assert_eq!(parent_dir(""), ".");
    assert_eq!(parent_dir("/"), ".");
    assert_eq!(parent_dir("//"), ".");
}

#[test]
fn parent_dir_agrees_with_the_standard_library() {
    for path in SHAPES {
        let expected = std::path::Path::new(path)
            .parent()
            .unwrap_or_else(|| std::path::Path::new("."));
        assert_eq!(parent_dir(path), expected.to_str().unwrap(), "parent of {path:?}");
    }
}

#[test]
fn slug_folds_case_and_replaces_the_rest() {
    assert_eq!(sanitize_case_name("Hello World!"), "hello-world");
    assert_eq!(sanitize_case_name("waitpid_posix"), "waitpid-posix");
    assert_eq!(sanitize_case_name("process-spawn"), "process-spawn");
    assert_eq!(sanitize_case_name("ABC xyz 019"), "abc-xyz-019");
    assert_eq!(sanitize_case_name("a  b"), "a--b");
}

#[test]
fn slug_trims_dashes_at_both_ends() {
    assert_eq!(sanitize_case_name("--a--"), "a");
    assert_eq!(sanitize_case_name("  spaced  "), "spaced");
    assert_eq!(sanitize_case_name("[x]"), "x");
}

#[test]
fn slug_of_nothing_usable_is_empty() {
    assert_eq!(sanitize_case_name(""), "");
    assert_eq!(sanitize_case_name("---"), "");
    assert_eq!(sanitize_case_name("!?"), "");
}

#[test]
fn slug_treats_non_ascii_letters_as_separators() {
    assert_eq!(sanitize_case_name("école"), "cole");
    assert_eq!(sanitize_case_name("测试 case"), "case");
    assert_eq!(sanitize_case_name("aÉb"), "a-b");
}

#[test]
fn slug_matches_the_character_rule() {
    let names = ["Hello World!", "--a--", "", "MiXeD_09", "a/b\\c", "ünï"];
    for name in names {
        let expected: String = name
            .chars()
            .map(|c| if c.is_ascii_alphanumeric() { c.to_ascii_lowercase() } else { '-' })
            .collect::<String>()
            .trim_matches('-')
            .to_string();
        assert_eq!(sanitize_case_name(name), expected);
    }
}

#[test]
fn distinct_names_may_share_a_slug() {
    assert_eq!(sanitize_case_name("a b"), sanitize_case_name("A_B"));
}

#[test]
fn layout_of_a_run() {
    let layout = RunLayout::new("/ws", Suite::CiTest, "20240102-030405");
    assert_eq!(layout.logs_root, "/ws/logs/ci");
    assert_eq!(layout.run_dir, "/ws/logs/ci/20240102-030405");
    assert_eq!(layout.run_log, "/ws/logs/ci/20240102-030405/suite.log");
    assert_eq!(layout.case_logs_root, "/ws/logs/ci/20240102-030405/cases");
    assert_eq!(layout.artifacts_root, "/ws/logs/ci/20240102-030405/artifacts");
    assert_eq!(layout.error_log, "/ws/logs/ci/20240102-030405/error.log");
    assert_eq!(layout.summary_file, "/ws/logs/ci/last_run.json");
}

#[test]
fn layout_directories_in_creation_order() {
    let layout = RunLayout::new("/ws", Suite::DailyTest, "r1");
    assert_eq!(
        layout.directories(),
        vec![
            "/ws/logs/daily".to_string(),
            "/ws/logs/daily/r1".to_string(),
            "/ws/logs/daily/r1/cases".to_string(),
            "/ws/logs/daily/r1/artifacts".to_string(),
        ]
    );
}

#[test]
fn layout_paths_of_a_case() {
    let layout = RunLayout::new("/ws", Suite::StressTest, "r1");
    assert_eq!(layout.case_log("hello-world"), "/ws/logs/stress/r1/cases/hello-world.log");
    assert_eq!(layout.case_artifacts("hello-world"), "/ws/logs/stress/r1/artifacts/hello-world");
    assert_eq!(layout.case_log(""), "/ws/logs/stress/r1/cases/.log");
    assert_eq!(layout.case_artifacts(""), "/ws/logs/stress/r1/artifacts/");
}
