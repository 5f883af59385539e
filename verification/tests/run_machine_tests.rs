use unity_test_runner::run::{RunAction, RunEvent, RunStage, TestRun};
use unity_test_runner::types::{
    PipeResponse, Timestamp, UnityTestAssembly, UnityTestDiscovery, UnityTestFixture,
    UnityTestMode, UnityTestPhaseResult, UnityTestProgress, UnityTestRunRequest,
    UnityTestSnapshot, UnityTestError,
};

fn at(seconds: i64) -> Timestamp {
    Timestamp { seconds, nanos: 0 }
}

fn request(mode: UnityTestMode) -> UnityTestRunRequest {
    let mut r = UnityTestRunRequest::default();
    r.filter.test_mode = mode;
    r
}

fn accepted(message: &str) -> PipeResponse {
    PipeResponse { ok: true, message: Some(message.to_string()), error: None }
}

fn phase(mode: &str, status: &str, failed: u32) -> UnityTestPhaseResult {
    UnityTestPhaseResult {
        run_id: "run".to_string(),
        test_mode: mode.to_string(),
        status: status.to_string(),
        total: 2,
        passed: 2 - failed,
        failed,
        skipped: 0,
        duration_bits: 1.0f64.to_bits(),
        results: Vec::new(),
        error_code: None,
        error_message: None,
    }
}

fn progress(active: bool) -> UnityTestProgress {
    UnityTestProgress {
        active,
        run_id: "run".to_string(),
        phase: "editmode".to_string(),
        current_test: "T".to_string(),
        completed: 1,
        total: 2,
        failed: 0,
        revision: 4,
    }
}

fn step(run: TestRun, event: RunEvent) -> (TestRun, RunAction) {
    run.step(event)
}

/// Drives a started run, whose editor is connected and not in play mode and
/// hot-reloads, up to the start of its first phase.
fn to_first_phase(run: TestRun, action: RunAction) -> (TestRun, RunAction) {
    assert!(matches!(action, RunAction::ReadCancelFlag));
    let (run, a) = step(run, RunEvent::CancelFlag(false));
    assert!(matches!(a, RunAction::ReadClock));
    let (run, a) = step(run, RunEvent::Clock(at(10)));
    assert!(matches!(a, RunAction::QueryStatus));
    let (run, a) = step(run, RunEvent::UnityStatus { connected: true, in_play_mode: false });
    assert!(matches!(a, RunAction::HotReload));
    let (run, a) = step(run, RunEvent::HotReloaded(Some("reloaded".to_string())));
    assert!(matches!(a, RunAction::QueryStatus));
    step(run, RunEvent::UnityStatus { connected: true, in_play_mode: false })
}

/// Runs the phase that was just started to a passed or failed result.
fn finish_phase(run: TestRun, result: UnityTestPhaseResult) -> (TestRun, RunAction) {
    let (run, a) = step(run, RunEvent::PhaseReply(Ok(accepted("{...}"))));
    match a {
        RunAction::ParsePhaseResult(m) => assert_eq!(m, "{...}"),
        other => panic!("unexpected {:?}", other),
    }
    step(run, RunEvent::PhaseParsed(Ok(result)))
}

/// Takes a concluding run through its clean-up; returns what it finishes with.
fn clean_up(run: TestRun, action: RunAction, restores: bool) -> (String, Result<UnityTestSnapshot, UnityTestError>) {
    assert!(matches!(action, RunAction::ReadClock));
    assert_eq!(run.stage(), RunStage::Concluding);
    let (run, a) = step(run, RunEvent::Clock(at(99)));
    assert!(matches!(a, RunAction::WriteSnapshot));
    let written = run.pending_snapshot().unwrap().terminal_status.clone();
    let (run, a) = step(run, RunEvent::Done);
    assert!(matches!(a, RunAction::ExitPlayMode));
    let (run, a) = step(run, RunEvent::PlayModeExited(Err("no editor".to_string())));
    let (run, a) = if restores {
        assert!(matches!(a, RunAction::SetPlayModeReload(true)));
        step(run, RunEvent::ReloadSettingApplied(Err("ignored".to_string())))
    } else {
        (run, a)
    };
    assert_eq!(run.stage(), RunStage::Finished);
    assert!(matches!(a, RunAction::Finish));
    let mut slot = Some("run".to_string());
    let result = run.conclude(&mut slot).unwrap();
    assert!(slot.is_none());
    if let Ok(s) = &result {
        assert_eq!(s.terminal_status, written);
    }
    (written, result)
}

#[test]
fn editmode_run_completes_and_cleans_up() {
    let (run, a) = TestRun::start("run".to_string(), request(UnityTestMode::Editmode), at(1));
    let (run, a) = to_first_phase(run, a);
    match &a {
        RunAction::StartPhase { request, run_id, test_mode, progress } => {
            assert_eq!(request.filter.test_mode, UnityTestMode::Editmode);
            assert_eq!(run_id, "run");
            assert_eq!(test_mode, "editmode");
            assert!(progress.active);
            assert_eq!(progress.phase, "editmode");
            assert_eq!(progress.current_test, "");
        },
        other => panic!("unexpected {:?}", other),
    }
    let (run, a) = finish_phase(run, phase("editmode", "passed", 0));
    let (probe, result) = clean_up(run, a, false);
    assert_eq!(probe, "completed");
    let snapshot = result.unwrap();
    assert_eq!(snapshot.run_id, "run");
    assert_eq!(snapshot.started_at, at(10));
    assert_eq!(snapshot.finished_at, at(99));
    assert_eq!(snapshot.preparation.status, "ok");
    assert_eq!(snapshot.preparation.method, "hot_reload");
    assert_eq!(snapshot.preparation.message.as_deref(), Some("reloaded"));
    assert_eq!(snapshot.phase_summaries.len(), 1);
    assert_eq!(snapshot.total_summary.total, 2);
    assert!(snapshot.error.is_none());
}

#[test]
fn all_mode_disables_and_restores_domain_reload() {
    let (run, a) = TestRun::start("run".to_string(), request(UnityTestMode::All), at(1));
    assert!(matches!(a, RunAction::DetectReloadSettings));
    let (run, a) = step(run, RunEvent::ReloadSettingDetected(Some(true)));
    assert!(matches!(a, RunAction::SetPlayModeReload(false)));
    let (run, a) = step(run, RunEvent::ReloadSettingApplied(Ok(false)));
    assert!(matches!(a, RunAction::ReadCancelFlag));
    let (run, _) = step(run, RunEvent::CancelFlag(false));
    let (run, _) = step(run, RunEvent::Clock(at(10)));
    let (run, a) = step(run, RunEvent::UnityStatus { connected: true, in_play_mode: true });
    assert!(matches!(a, RunAction::HotReload));
    let (run, a) = step(run, RunEvent::HotReloaded(None));
    assert!(matches!(a, RunAction::ExitPlayMode));
    let (run, a) = step(run, RunEvent::PlayModeExited(Ok(())));
    assert!(matches!(a, RunAction::Recompile));
    let (run, a) = step(run, RunEvent::Recompiled(Ok("compiled".to_string())));
    assert!(matches!(a, RunAction::QueryStatus));
    let (run, a) = step(run, RunEvent::UnityStatus { connected: true, in_play_mode: false });
    match &a {
        RunAction::StartPhase { test_mode, .. } => assert_eq!(test_mode, "editmode"),
        other => panic!("unexpected {:?}", other),
    }
    let (run, a) = finish_phase(run, phase("editmode", "passed", 0));
    assert!(matches!(a, RunAction::QueryStatus));
    let (run, a) = step(run, RunEvent::UnityStatus { connected: true, in_play_mode: true });
    assert!(matches!(a, RunAction::ExitPlayMode));
    let (run, a) = step(run, RunEvent::PlayModeExited(Ok(())));
    match &a {
        RunAction::StartPhase { test_mode, request, .. } => {
            assert_eq!(test_mode, "playmode");
            assert_eq!(request.filter.test_mode, UnityTestMode::Playmode);
        },
        other => panic!("unexpected {:?}", other),
    }
    let (run, a) = finish_phase(run, phase("playmode", "failed", 1));
    let (probe, result) = clean_up(run, a, true);
    assert_eq!(probe, "completed_failed");
    let snapshot = result.unwrap();
    assert_eq!(snapshot.preparation.status, "ok");
    assert_eq!(snapshot.preparation.method, "recompile");
    assert_eq!(snapshot.phase_summaries.len(), 2);
    assert_eq!(snapshot.total_summary.failed, 1);
    assert_eq!(snapshot.requested_scope.filter.test_mode, UnityTestMode::All);
}

#[test]
fn domain_reload_that_stays_on_fails_the_run_without_restoring() {
    let (run, _) = TestRun::start("run".to_string(), request(UnityTestMode::Playmode), at(1));
    let (run, _) = step(run, RunEvent::ReloadSettingDetected(Some(true)));
    let (run, a) = step(run, RunEvent::ReloadSettingApplied(Ok(true)));
    let (probe, result) = clean_up(run, a, false);
    assert_eq!(probe, "runtime_error");
    let e = result.unwrap_err();
    assert_eq!(e.code, "unknown");
    assert_eq!(
        e.message,
        "Unity kept Play Mode domain reload enabled; PlayMode tests cannot run over the native bridge"
    );
}

#[test]
fn failing_to_disable_domain_reload_names_the_cause() {
    let (run, _) = TestRun::start("run".to_string(), request(UnityTestMode::All), at(1));
    let (run, _) = step(run, RunEvent::ReloadSettingDetected(Some(true)));
    let (run, a) = step(run, RunEvent::ReloadSettingApplied(Err("locked".to_string())));
    let (_, result) = clean_up(run, a, false);
    assert_eq!(
        result.unwrap_err().message,
        "Failed to disable Play Mode domain reload for Unity tests: locked"
    );
}

#[test]
fn domain_reload_left_alone_when_off() {
    let (run, _) = TestRun::start("run".to_string(), request(UnityTestMode::All), at(1));
    let (_, a) = step(run, RunEvent::ReloadSettingDetected(Some(false)));
    assert!(matches!(a, RunAction::ReadCancelFlag));
}

#[test]
fn cancelled_before_start() {
    let (run, _) = TestRun::start("run".to_string(), request(UnityTestMode::Editmode), at(1));
    let (run, a) = step(run, RunEvent::CancelFlag(true));
    let (probe, result) = clean_up(run, a, false);
    assert_eq!(probe, "cancelled");
    let e = result.unwrap_err();
    assert_eq!((e.code.as_str(), e.message.as_str()), ("cancelled", "Unity test run cancelled"));
}

#[test]
fn cancelling_during_a_phase_cancels_the_tests() {
    let (run, a) = TestRun::start("run".to_string(), request(UnityTestMode::Editmode), at(1));
    let (run, _) = to_first_phase(run, a);
    let (run, a) = step(run, RunEvent::CancelChanged { closed: false, cancelled: false });
    assert!(matches!(a, RunAction::AwaitPhaseEvent));
    let (run, a) = step(run, RunEvent::CancelChanged { closed: false, cancelled: true });
    assert!(matches!(a, RunAction::CancelTests));
    let (run, a) = step(run, RunEvent::Done);
    let (probe, result) = clean_up(run, a, false);
    assert_eq!(probe, "cancelled");
    assert_eq!(result.unwrap_err().code, "cancelled");
}

#[test]
fn closed_cancel_channel_counts_as_cancelled() {
    let (run, a) = TestRun::start("run".to_string(), request(UnityTestMode::Editmode), at(1));
    let (run, _) = to_first_phase(run, a);
    let (_, a) = step(run, RunEvent::CancelChanged { closed: true, cancelled: false });
    assert!(matches!(a, RunAction::CancelTests));
}

#[test]
fn disconnected_editor_fails_the_run() {
    let (run, _) = TestRun::start("run".to_string(), request(UnityTestMode::Editmode), at(1));
    let (run, _) = step(run, RunEvent::CancelFlag(false));
    let (run, _) = step(run, RunEvent::Clock(at(3)));
    let (run, a) = step(run, RunEvent::UnityStatus { connected: false, in_play_mode: false });
    let (probe, result) = clean_up(run, a, false);
    assert_eq!(probe, "runtime_error");
    let e = result.unwrap_err();
    assert_eq!((e.code.as_str(), e.message.as_str()), ("unity_disconnected", "Unity Editor not connected"));
}

#[test]
fn failed_recompilation_is_a_prepare_error() {
    let (run, _) = TestRun::start("run".to_string(), request(UnityTestMode::Editmode), at(1));
    let (run, _) = step(run, RunEvent::CancelFlag(false));
    let (run, _) = step(run, RunEvent::Clock(at(3)));
    let (run, _) = step(run, RunEvent::UnityStatus { connected: true, in_play_mode: false });
    let (run, a) = step(run, RunEvent::HotReloaded(None));
    assert!(matches!(a, RunAction::Recompile));
    let (run, a) = step(run, RunEvent::Recompiled(Err("CS1002".to_string())));
    let (probe, result) = clean_up(run, a, false);
    assert_eq!(probe, "prepare_error");
    let e = result.unwrap_err();
    assert_eq!((e.code.as_str(), e.message.as_str()), ("compile_failed", "CS1002"));
}

#[test]
fn progress_is_polled_after_warm_up_and_reported_when_active() {
    let (run, a) = TestRun::start("run".to_string(), request(UnityTestMode::Editmode), at(1));
    let (run, _) = to_first_phase(run, a);
    let (run, a) = step(run, RunEvent::Tick { past_warmup: false });
    assert!(matches!(a, RunAction::AwaitPhaseEvent));
    let (run, a) = step(run, RunEvent::Tick { past_warmup: true });
    assert!(matches!(a, RunAction::QueryProgress));
    let (run, a) = step(run, RunEvent::ProgressReply(Ok(None)));
    assert!(matches!(a, RunAction::AwaitPhaseEvent));
    let (run, _) = step(run, RunEvent::Tick { past_warmup: true });
    let (run, a) = step(run, RunEvent::ProgressReply(Ok(Some(accepted("p")))));
    assert!(matches!(a, RunAction::ParseProgress(ref m) if m == "p"));
    let (run, a) = step(run, RunEvent::ProgressParsed(Some(progress(true))));
    match a {
        RunAction::EmitProgress(p) => assert_eq!(p.revision, 4),
        other => panic!("unexpected {:?}", other),
    }
    let (run, _) = step(run, RunEvent::Tick { past_warmup: true });
    let (run, _) = step(run, RunEvent::ProgressReply(Ok(Some(accepted("p")))));
    let (run, a) = step(run, RunEvent::ProgressParsed(Some(progress(false))));
    assert!(matches!(a, RunAction::AwaitPhaseEvent));
    assert_eq!(run.stage(), RunStage::PhaseRunning);
}

#[test]
fn phase_with_unfinished_status_fails_the_run() {
    let (run, a) = TestRun::start("run".to_string(), request(UnityTestMode::Editmode), at(1));
    let (run, _) = to_first_phase(run, a);
    let mut bad = phase("editmode", "error", 0);
    bad.error_code = Some("test_framework_missing".to_string());
    let (run, a) = finish_phase(run, bad);
    let (_, result) = clean_up(run, a, false);
    let e = result.unwrap_err();
    assert_eq!(e.code, "test_framework_missing");
    assert_eq!(e.message, "Unity test phase 'editmode' ended with status 'error'");
}

#[test]
fn refused_phase_request_and_bad_json_fail_the_run() {
    let (run, a) = TestRun::start("run".to_string(), request(UnityTestMode::Editmode), at(1));
    let (run, _) = to_first_phase(run, a);
    let (run, a) = step(run, RunEvent::PhaseReply(Ok(PipeResponse { ok: false, message: None, error: Some("busy".to_string()) })));
    let (_, result) = clean_up(run, a, false);
    assert_eq!(result.unwrap_err().code, "busy");

    let (run, a) = TestRun::start("run".to_string(), request(UnityTestMode::Editmode), at(1));
    let (run, _) = to_first_phase(run, a);
    let (run, _) = step(run, RunEvent::PhaseReply(Ok(accepted("{"))));
    let (run, a) = step(run, RunEvent::PhaseParsed(Err("EOF".to_string())));
    let (_, result) = clean_up(run, a, false);
    assert_eq!(result.unwrap_err().message, "Invalid Unity test phase response: EOF");
}

#[test]
fn search_without_matches_passes_the_phase_unrun() {
    let mut r = request(UnityTestMode::Editmode);
    r.filter.search = Some("nothing".to_string());
    let (run, a) = TestRun::start("run".to_string(), r, at(1));
    let (run, a) = to_first_phase(run, a);
    match &a {
        RunAction::FindTests(filter) => {
            assert_eq!(filter.test_mode, UnityTestMode::Editmode);
            assert_eq!(filter.search.as_deref(), Some("nothing"));
        },
        other => panic!("unexpected {:?}", other),
    }
    let (run, a) = step(run, RunEvent::TestsFound(Ok(UnityTestDiscovery { assemblies: Vec::new() })));
    let (_, result) = clean_up(run, a, false);
    let snapshot = result.unwrap();
    assert_eq!(snapshot.phase_summaries.len(), 1);
    assert_eq!(snapshot.phase_summaries[0].status, "passed");
    assert_eq!(snapshot.phase_summaries[0].test_mode, "editmode");
    assert_eq!(snapshot.terminal_status, "completed");
}

#[test]
fn search_with_matches_runs_the_found_tests() {
    let mut r = request(UnityTestMode::Editmode);
    r.filter.search = Some("jump".to_string());
    r.filter.fixture_name = Some("Old".to_string());
    let (run, a) = TestRun::start("run".to_string(), r, at(1));
    let (run, _) = to_first_phase(run, a);
    let found = UnityTestDiscovery {
        assemblies: vec![UnityTestAssembly {
            name: "A".to_string(),
            test_mode: "editmode".to_string(),
            fixtures: vec![UnityTestFixture {
                name: "Jumps".to_string(),
                tests: vec![unity_test_runner::types::UnityTestMethod {
                    name: "high".to_string(),
                    full_name: "A.Jumps.high".to_string(),
                    attributes: Vec::new(),
                    source_path: None,
                    line: None,
                }],
            }],
        }],
    };
    let (_, a) = step(run, RunEvent::TestsFound(Ok(found)));
    match &a {
        RunAction::StartPhase { request, .. } => {
            assert!(request.filter.search.is_none());
            assert!(request.filter.fixture_name.is_none());
            assert_eq!(request.tests.len(), 1);
            assert_eq!(request.tests[0].fixture_name.as_deref(), Some("Jumps"));
        },
        other => panic!("unexpected {:?}", other),
    }
}

#[test]
fn failed_lookup_fails_the_run() {
    let mut r = request(UnityTestMode::Editmode);
    r.filter.search = Some("jump".to_string());
    let (run, a) = TestRun::start("run".to_string(), r, at(1));
    let (run, _) = to_first_phase(run, a);
    let (run, a) = step(run, RunEvent::TestsFound(Err(UnityTestError::new("unity_disconnected", "pipe"))));
    let (_, result) = clean_up(run, a, false);
    assert_eq!(result.unwrap_err().code, "unity_disconnected");
}

#[test]
fn events_that_do_not_fit_are_ignored() {
    let (run, _) = TestRun::start("run".to_string(), request(UnityTestMode::Editmode), at(1));
    let (run, a) = step(run, RunEvent::Done);
    assert!(matches!(a, RunAction::Ignored));
    assert_eq!(run.stage(), RunStage::CheckingCancel);
    assert_eq!(run.run_id(), "run");
}

#[test]
fn finished_run_ignores_further_events() {
    let (run, _) = TestRun::start("run".to_string(), request(UnityTestMode::Editmode), at(1));
    let (run, a) = step(run, RunEvent::CancelFlag(true));
    assert!(matches!(a, RunAction::ReadClock));
    let (run, _) = step(run, RunEvent::Clock(at(2)));
    let (run, _) = step(run, RunEvent::Done);
    let (run, a) = step(run, RunEvent::PlayModeExited(Ok(())));
    assert!(matches!(a, RunAction::Finish));
    assert_eq!(run.stage(), RunStage::Finished);
    let (run, a) = step(run, RunEvent::Clock(at(3)));
    assert!(matches!(a, RunAction::Ignored));
    let (run, a) = step(run, RunEvent::Done);
    assert!(matches!(a, RunAction::Ignored));
    assert_eq!(run.stage(), RunStage::Finished);
    let mut slot = Some("run".to_string());
    let e = run.conclude(&mut slot).unwrap().unwrap_err();
    assert_eq!(e.code, "cancelled");
    assert!(slot.is_none());
}

#[test]
fn begin_claims_the_slot_and_conclude_frees_it() {
    let mut slot: Option<String> = None;
    let (run, a) = TestRun::begin(&mut slot, request(UnityTestMode::Editmode), at(1)).unwrap();
    assert!(matches!(a, RunAction::ReadCancelFlag));
    assert_eq!(slot.as_deref(), Some(run.run_id().as_str()));
    assert_eq!(run.run_id().len(), 36);
    let e = TestRun::begin(&mut slot, request(UnityTestMode::Editmode), at(2)).err().unwrap();
    assert_eq!((e.code.as_str(), e.message.as_str()), ("busy", "A Unity test run is already active"));
    assert_eq!(slot.as_deref(), Some(run.run_id().as_str()));
    // A run that has not ended gives nothing, yet still frees the slot.
    assert!(run.conclude(&mut slot).is_none());
    assert!(slot.is_none());
    assert!(TestRun::begin(&mut slot, request(UnityTestMode::Playmode), at(3)).is_ok());
}
