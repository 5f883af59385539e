use unity_test_runner::active::{claim_active_run, claim_run_with_id, release_active_run};
use unity_test_runner::bridge::{
    call_message, check_phase_result, map_transport_error, ok_message, progress_message,
};
use unity_test_runner::snapshot::{build_completed_snapshot, build_failed_snapshot, run_result};
use unity_test_runner::storage::{
    cancel_result, failed_step_error, latest_snapshot_error_code, FailedStep,
};
use unity_test_runner::types::{
    PipeResponse, Timestamp, UnityTestError, UnityTestPhaseResult, UnityTestPreparation,
    UnityTestResult, UnityTestRunRequest,
};

fn refused(error: Option<&str>) -> PipeResponse {
    PipeResponse { ok: false, message: None, error: error.map(|e| e.to_string()) }
}

fn code_of(r: Result<String, UnityTestError>) -> (String, String) {
    let e = r.unwrap_err();
    (e.code, e.message)
}

fn phase(status: &str, code: Option<&str>, message: Option<&str>) -> UnityTestPhaseResult {
    UnityTestPhaseResult {
        run_id: "r".to_string(),
        test_mode: "editmode".to_string(),
        status: status.to_string(),
        total: 1,
        passed: 0,
        failed: 1,
        skipped: 0,
        duration_bits: 0,
        results: Vec::new(),
        error_code: code.map(|c| c.to_string()),
        error_message: message.map(|m| m.to_string()),
    }
}

fn test_result(name: &str) -> UnityTestResult {
    UnityTestResult {
        assembly_name: "A".to_string(),
        fixture_name: "F".to_string(),
        test_name: name.to_string(),
        full_name: format!("A.F.{}", name),
        outcome: "Passed".to_string(),
        duration_bits: 0.5f64.to_bits(),
        message: String::new(),
        stack_trace: String::new(),
        source_path: None,
        line: Some(3),
    }
}

#[test]
fn accepted_reply_gives_its_message() {
    let r = ok_message(PipeResponse { ok: true, message: Some("{}".to_string()), error: None });
    assert_eq!(r.unwrap(), "{}");
    let r = ok_message(PipeResponse { ok: true, message: None, error: Some("ignored".to_string()) });
    assert_eq!(r.unwrap(), "");
}

#[test]
fn refused_reply_codes() {
    assert_eq!(code_of(ok_message(refused(Some("busy")))), ("busy".to_string(), "busy".to_string()));
    assert_eq!(
        code_of(ok_message(refused(Some("test_framework_missing")))).0,
        "test_framework_missing"
    );
    assert_eq!(code_of(ok_message(refused(Some("broken pipe")))).0, "unity_disconnected");
    assert_eq!(code_of(ok_message(refused(Some("editor disconnected")))).0, "unity_disconnected");
    assert_eq!(code_of(ok_message(refused(Some("busy now")))).0, "unknown");
    assert_eq!(
        code_of(ok_message(refused(None))),
        ("unknown".to_string(), "Unity test request failed".to_string())
    );
}

#[test]
fn transport_errors_are_classified() {
    let e = map_transport_error("could not connect to editor".to_string());
    assert_eq!((e.code.as_str(), e.message.as_str()), ("unity_disconnected", "could not connect to editor"));
    assert_eq!(map_transport_error("pipe closed".to_string()).code, "unity_disconnected");
    assert_eq!(map_transport_error("timed out".to_string()).code, "unknown");
    let r = call_message(Err("disconnected".to_string()));
    assert_eq!(r.unwrap_err().code, "unity_disconnected");
}

#[test]
fn progress_is_read_only_from_accepted_replies_with_a_message() {
    let e = progress_message(Err("pipe broke".to_string())).unwrap_err();
    assert_eq!((e.code.as_str(), e.message.as_str()), ("unity_disconnected", "pipe broke"));
    assert_eq!(progress_message(Err("slow".to_string())).unwrap_err().code, "unknown");
    assert_eq!(progress_message(Ok(None)).unwrap(), None);
    assert_eq!(progress_message(Ok(Some(refused(Some("busy"))))).unwrap(), None);
    assert_eq!(progress_message(Ok(Some(PipeResponse { ok: true, message: None, error: None }))).unwrap(), None);
    assert_eq!(
        progress_message(Ok(Some(PipeResponse { ok: true, message: Some("p".to_string()), error: None }))).unwrap(),
        Some("p".to_string())
    );
}

#[test]
fn final_phase_statuses_are_accepted() {
    assert!(check_phase_result(phase("passed", None, None)).is_ok());
    assert!(check_phase_result(phase("failed", Some("x"), None)).is_ok());
}

#[test]
fn other_phase_statuses_become_errors() {
    let e = check_phase_result(phase("error", Some("  compile_failed "), Some(" broke \n"))).unwrap_err();
    assert_eq!((e.code.as_str(), e.message.as_str()), ("compile_failed", "broke"));
    let e = check_phase_result(phase("aborted", Some("   "), None)).unwrap_err();
    assert_eq!(e.code, "unknown");
    assert_eq!(e.message, "Unity test phase 'editmode' ended with status 'aborted'");
}

#[test]
fn failed_snapshot_statuses_follow_the_error_code() {
    let status = |code: &str| {
        build_failed_snapshot(
            "id".to_string(),
            Timestamp { seconds: 1, nanos: 0 },
            Timestamp { seconds: 2, nanos: 0 },
            UnityTestRunRequest::default(),
            UnityTestError::new(code, "why"),
        )
        .terminal_status
    };
    assert_eq!(status("cancelled"), "cancelled");
    assert_eq!(status("compile_failed"), "prepare_error");
    assert_eq!(status("unity_disconnected"), "runtime_error");
}

#[test]
fn failed_snapshot_records_the_error() {
    let s = build_failed_snapshot(
        "id".to_string(),
        Timestamp { seconds: 1, nanos: 5 },
        Timestamp { seconds: 2, nanos: 0 },
        UnityTestRunRequest::default(),
        UnityTestError::new("unknown", "boom"),
    );
    assert_eq!(s.preparation.method, "unknown");
    assert_eq!(s.preparation.status, "error");
    assert_eq!(s.preparation.message.as_deref(), Some("boom"));
    assert!(s.phase_summaries.is_empty() && s.results.is_empty());
    assert_eq!(s.started_at, Timestamp { seconds: 1, nanos: 5 });
    let r = run_result(s);
    assert_eq!(r.unwrap_err().message, "boom");
}

#[test]
fn completed_snapshot_sums_and_concatenates() {
    let mut p1 = phase("passed", None, None);
    p1.failed = 0;
    p1.passed = 1;
    p1.results = vec![test_result("a")];
    let mut p2 = phase("failed", None, None);
    p2.results = vec![test_result("b"), test_result("c")];
    let prep = UnityTestPreparation { method: "hot_reload".to_string(), status: "ok".to_string(), message: None };
    let s = build_completed_snapshot(
        "id".to_string(),
        Timestamp { seconds: 1, nanos: 0 },
        Timestamp { seconds: 9, nanos: 0 },
        prep,
        UnityTestRunRequest::default(),
        vec![p1, p2],
    );
    assert_eq!(s.terminal_status, "completed_failed");
    assert_eq!((s.total_summary.total, s.total_summary.passed, s.total_summary.failed), (2, 1, 1));
    let names: Vec<String> = s.results.iter().map(|r| r.test_name.clone()).collect();
    assert_eq!(names, vec!["a".to_string(), "b".to_string(), "c".to_string()]);
    assert!(s.error.is_none());
    assert!(run_result(s).is_ok());
}

#[test]
fn completed_snapshot_without_failures_is_completed() {
    let mut p = phase("passed", None, None);
    p.failed = 0;
    let prep = UnityTestPreparation { method: "recompile".to_string(), status: "ok".to_string(), message: None };
    let s = build_completed_snapshot(
        "id".to_string(),
        Timestamp { seconds: 1, nanos: 0 },
        Timestamp { seconds: 9, nanos: 0 },
        prep,
        UnityTestRunRequest::default(),
        vec![p],
    );
    assert_eq!(s.terminal_status, "completed");
}

#[test]
fn slot_admits_one_run_at_a_time() {
    let mut slot: Option<String> = None;
    let id = claim_run_with_id(&mut slot, "one".to_string()).unwrap();
    assert_eq!(id, "one");
    let e = claim_run_with_id(&mut slot, "two".to_string()).unwrap_err();
    assert_eq!((e.code.as_str(), e.message.as_str()), ("busy", "A Unity test run is already active"));
    assert_eq!(slot.as_deref(), Some("one"));
    release_active_run(&mut slot);
    assert!(slot.is_none());
    assert_eq!(claim_run_with_id(&mut slot, "three".to_string()).unwrap(), "three");
}

#[test]
fn fresh_run_ids_are_hyphenated_v4_uuids() {
    let mut slot: Option<String> = None;
    let id = claim_active_run(&mut slot).unwrap();
    assert_eq!(id.len(), 36);
    let chars: Vec<char> = id.chars().collect();
    for (i, c) in chars.iter().enumerate() {
        if i == 8 || i == 13 || i == 18 || i == 23 {
            assert_eq!(*c, '-');
        } else {
            assert!(c.is_ascii_hexdigit() && !c.is_ascii_uppercase());
        }
    }
    assert_eq!(chars[14], '4');
    assert_eq!(slot.as_deref(), Some(id.as_str()));
    assert_eq!(claim_active_run(&mut slot).unwrap_err().code, "busy");
}

#[test]
fn failed_step_messages() {
    let e = failed_step_error(FailedStep::DecodeDiscovery, "eof");
    assert_eq!((e.code.as_str(), e.message.as_str()), ("unknown", "Invalid Unity test discovery response: eof"));
    assert_eq!(
        failed_step_error(FailedStep::EncodeFindRequest, "x").message,
        "Failed to serialize test find request: x"
    );
    assert_eq!(
        failed_step_error(FailedStep::CreateResultsDir, "denied").message,
        "Failed to create test-results directory: denied"
    );
    assert_eq!(failed_step_error(FailedStep::EncodeSnapshot, "nan").message, "nan");
    assert_eq!(
        failed_step_error(FailedStep::WriteSnapshot, "full").message,
        "Failed to write latest Unity test snapshot: full"
    );
    assert_eq!(
        failed_step_error(FailedStep::ReadSnapshot, "gone").message,
        "Failed to read latest Unity test snapshot: gone"
    );
    assert_eq!(
        failed_step_error(FailedStep::DecodeSnapshot, "bad").message,
        "Invalid latest Unity test snapshot: bad"
    );
}

#[test]
fn cancellation_reply_and_ui_error_code() {
    assert!(cancel_result(Ok(PipeResponse { ok: true, message: None, error: None })).is_ok());
    assert_eq!(cancel_result(Ok(refused(Some("busy")))).unwrap_err().code, "busy");
    assert_eq!(cancel_result(Err("pipe".to_string())).unwrap_err().code, "unity_disconnected");
    assert_eq!(latest_snapshot_error_code(&UnityTestError::new("unknown", "m")), "unity_test.unknown");
}
