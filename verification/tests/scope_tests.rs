use unity_test_runner::scope::{
    discovered_targets, latest_snapshot_path, request_has_search, requested_phase_modes,
    search_resolved_request,
};
use unity_test_runner::snapshot::summarize;
use unity_test_runner::text::{contains_text, is_blank_text, same_text, trim_text};
use unity_test_runner::types::{
    UnityTestAssembly, UnityTestDiscovery, UnityTestFixture, UnityTestMethod, UnityTestMode,
    UnityTestPhaseResult, UnityTestRunRequest, UnityTestTarget,
};

fn phase(total: u32, passed: u32, failed: u32, skipped: u32, duration: f64) -> UnityTestPhaseResult {
    UnityTestPhaseResult {
        run_id: String::new(),
        test_mode: String::new(),
        status: String::new(),
        total,
        passed,
        failed,
        skipped,
        duration_bits: duration.to_bits(),
        results: Vec::new(),
        error_code: None,
        error_message: None,
    }
}

fn method(name: &str) -> UnityTestMethod {
    UnityTestMethod {
        name: name.to_string(),
        full_name: format!("Full.{}", name),
        attributes: Vec::new(),
        source_path: None,
        line: None,
    }
}

#[test]
fn all_mode_runs_editmode_before_playmode() {
    let request = UnityTestRunRequest::default();
    assert_eq!(
        requested_phase_modes(&request),
        vec![UnityTestMode::Editmode, UnityTestMode::Playmode]
    );
}

#[test]
fn single_modes_run_one_phase() {
    let mut request = UnityTestRunRequest::default();
    request.filter.test_mode = UnityTestMode::Playmode;
    assert_eq!(requested_phase_modes(&request), vec![UnityTestMode::Playmode]);
    request.filter.test_mode = UnityTestMode::Editmode;
    assert_eq!(requested_phase_modes(&request), vec![UnityTestMode::Editmode]);
}

#[test]
fn summarizes_phase_results() {
    let summary = summarize(&vec![phase(2, 1, 1, 0, 1.5), phase(1, 0, 0, 1, 0.25)]);
    assert_eq!(summary.total, 3);
    assert_eq!(summary.passed, 1);
    assert_eq!(summary.failed, 1);
    assert_eq!(summary.skipped, 1);
}

#[test]
fn summary_of_no_phases_is_zero() {
    let summary = summarize(&Vec::new());
    assert_eq!((summary.total, summary.passed, summary.failed, summary.skipped), (0, 0, 0, 0));
}

#[test]
fn summary_counts_wrap_like_release_arithmetic() {
    let summary = summarize(&vec![phase(u32::MAX, 0, 0, 0, 0.0), phase(2, 0, 0, 0, 0.0)]);
    assert_eq!(summary.total, 1);
}

#[test]
fn search_must_hold_more_than_white_space() {
    let mut request = UnityTestRunRequest::default();
    assert!(!request_has_search(&request));
    request.filter.search = Some(" \t\u{3000}\n".to_string());
    assert!(!request_has_search(&request));
    request.filter.search = Some("  Player ".to_string());
    assert!(request_has_search(&request));
}

#[test]
fn trim_removes_unicode_white_space_at_both_ends() {
    assert_eq!(trim_text("\u{a0} a b\u{2029}\t"), "a b");
    assert_eq!(trim_text("   "), "");
    assert_eq!(trim_text("x"), "x");
    assert!(is_blank_text("\u{85}\u{2000}"));
    assert!(!is_blank_text(" ._ "));
}

#[test]
fn contains_finds_substrings() {
    assert!(contains_text("broken pipe", "pipe"));
    assert!(contains_text("pipe", "pipe"));
    assert!(!contains_text("pip", "pipe"));
    assert!(contains_text("anything", ""));
    assert!(same_text("busy", "busy"));
    assert!(!same_text("busy", "busy "));
}

#[test]
fn discovery_flattens_to_one_target_per_test() {
    let discovery = UnityTestDiscovery {
        assemblies: vec![
            UnityTestAssembly {
                name: "A".to_string(),
                test_mode: "editmode".to_string(),
                fixtures: vec![
                    UnityTestFixture { name: "F1".to_string(), tests: vec![method("t1"), method("t2")] },
                    UnityTestFixture { name: "F2".to_string(), tests: vec![] },
                ],
            },
            UnityTestAssembly {
                name: "B".to_string(),
                test_mode: "playmode".to_string(),
                fixtures: vec![UnityTestFixture { name: "G".to_string(), tests: vec![method("t3")] }],
            },
        ],
    };
    let targets = discovered_targets(&discovery);
    let names: Vec<(Option<String>, Option<String>, Option<String>)> = targets
        .into_iter()
        .map(|t: UnityTestTarget| (t.assembly_name, t.fixture_name, t.test_name))
        .collect();
    assert_eq!(
        names,
        vec![
            (Some("A".to_string()), Some("F1".to_string()), Some("t1".to_string())),
            (Some("A".to_string()), Some("F1".to_string()), Some("t2".to_string())),
            (Some("B".to_string()), Some("G".to_string()), Some("t3".to_string())),
        ]
    );
}

#[test]
fn resolved_search_keeps_mode_and_assembly_only() {
    let mut request = UnityTestRunRequest::default();
    request.filter.test_mode = UnityTestMode::Playmode;
    request.filter.assembly_name = Some("Game.Tests".to_string());
    request.filter.fixture_name = Some("Fx".to_string());
    request.filter.test_name = Some("T".to_string());
    request.filter.search = Some("jump".to_string());
    let discovery = UnityTestDiscovery {
        assemblies: vec![UnityTestAssembly {
            name: "Game.Tests".to_string(),
            test_mode: "playmode".to_string(),
            fixtures: vec![UnityTestFixture { name: "Jumping".to_string(), tests: vec![method("jumps")] }],
        }],
    };
    let resolved = search_resolved_request(&request, &discovery);
    assert_eq!(resolved.filter.test_mode, UnityTestMode::Playmode);
    assert_eq!(resolved.filter.assembly_name.as_deref(), Some("Game.Tests"));
    assert!(resolved.filter.fixture_name.is_none());
    assert!(resolved.filter.test_name.is_none());
    assert!(resolved.filter.search.is_none());
    assert_eq!(resolved.tests.len(), 1);
    assert_eq!(resolved.tests[0].test_name.as_deref(), Some("jumps"));
}

#[test]
fn latest_snapshot_path_joins_like_path_join() {
    assert_eq!(latest_snapshot_path("/work/game"), "/work/game/Locus/test-results/latest.json");
    assert_eq!(latest_snapshot_path("/work/game/"), "/work/game/Locus/test-results/latest.json");
    assert_eq!(latest_snapshot_path(""), "Locus/test-results/latest.json");
    assert_eq!(latest_snapshot_path("/proj"), "/proj/Locus/test-results/latest.json");
    assert_eq!(latest_snapshot_path("/tmp/why?"), "/tmp/why?/Locus/test-results/latest.json");
    for project in ["/work/game", "/work/game/", "", "a\\b", "rel/dir", "/proj", "/tmp/why?"] {
        let expected = std::path::Path::new(project).join("Locus").join("test-results").join("latest.json");
        assert_eq!(std::path::PathBuf::from(latest_snapshot_path(project)), expected);
    }
}

#[test]
fn bridge_names_of_modes() {
    assert_eq!(UnityTestMode::All.as_bridge_str(), "all");
    assert_eq!(UnityTestMode::Editmode.as_bridge_str(), "editmode");
    assert_eq!(UnityTestMode::Playmode.as_bridge_str(), "playmode");
    assert_eq!(UnityTestMode::default(), UnityTestMode::All);
}
