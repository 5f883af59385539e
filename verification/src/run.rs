//! A test run as a state machine. The caller performs each action it is
//! given (talking to the editor, reading the clock, waiting) and hands back
//! what came of it as the next event; the machine decides every step: the
//! preparation of the editor, the phases in order, the handling of progress
//! and cancellation, and the snapshot and clean-up at the end.

use vstd::prelude::*;
use vstd::string::*;

use crate::active::{active_view, claim_active_run, claim_spec, is_v4_uuid_text, release_active_run};
use crate::bridge::{
    call_message, call_outcome, check_phase_result, is_final_status, phase_verdict,
    progress_message, progress_outcome, progress_reply_view, reply_view,
};
use crate::scope::{
    has_search, phase_modes, request_has_search, requested_phase_modes, resolved_request,
    search_resolved_request,
};
use crate::snapshot::{
    build_completed_snapshot, build_failed_snapshot, completed_snapshot, failed_snapshot,
    run_outcome, run_result, run_result_view,
};
use crate::types::{
    bridge_name, copy_phases, error_of, opt_str, phases_view, results_view, UnityTestResultView, PipeResponse, PipeResponseView,
    Timestamp, UnityTestDiscovery, UnityTestDiscoveryView, UnityTestError, UnityTestErrorView,
    UnityTestFilter, UnityTestFilterView, UnityTestMode, UnityTestPhaseResult,
    UnityTestPhaseResultView, UnityTestPreparation, UnityTestPreparationView, UnityTestProgress,
    UnityTestProgressView, UnityTestRunRequest, UnityTestRunRequestView, UnityTestSnapshot,
    UnityTestSnapshotView,
};

verus! {

/// Where a run stands: what it waits for.
#[derive(Clone, Copy, Debug, PartialEq, Eq, Structural)]
pub enum RunStage {
    /// The play-mode domain-reload setting is being read.
    DetectingReload,
    /// Domain reload on entering play mode is being switched off.
    DisablingReload,
    /// The cancellation flag is being read before any work.
    CheckingCancel,
    /// The clock is being read as the tests start.
    StampingStart,
    /// The editor's status is being read before preparing it.
    QueryingRunStatus,
    /// A hot reload is being tried; the flag says whether the editor was in play mode.
    HotReloading { in_play_mode: bool },
    /// Play mode is being left before a recompilation.
    ExitingForRecompile,
    /// The editor is recompiling.
    Recompiling,
    /// The editor's status is being read before a phase.
    QueryingPhaseStatus,
    /// Play mode is being left before a phase.
    ExitingForPhase,
    /// The tests that the search names are being looked up.
    FindingTests,
    /// A phase runs; its reply, a tick or a cancellation is awaited.
    PhaseRunning,
    /// The reply of a phase is being parsed.
    ParsingPhase,
    /// Progress is being asked for.
    QueryingProgress,
    /// A progress reply is being parsed.
    ParsingProgress,
    /// The editor is being told to cancel the tests.
    CancellingTests,
    /// The clock is being read as the run ends.
    Concluding,
    /// The snapshot is being written.
    WritingSnapshot,
    /// Play mode is being left after the run.
    ExitingAfterRun,
    /// The domain-reload setting is being put back.
    RestoringReload,
    /// The run has ended.
    Finished,
}

/// What came of the last action.
#[derive(Debug)]
pub enum RunEvent {
    /// The play-mode domain-reload setting, where the editor reports one.
    ReloadSettingDetected(Option<bool>),
    /// The setting that is in effect after a change was asked for, or why the change failed.
    ReloadSettingApplied(Result<bool, String>),
    /// Whether the run has been cancelled.
    CancelFlag(bool),
    /// The time now.
    Clock(Timestamp),
    /// Whether the editor is connected and whether it is in play mode.
    UnityStatus { connected: bool, in_play_mode: bool },
    /// The message of a hot reload that succeeded, or nothing when it failed.
    HotReloaded(Option<String>),
    /// Whether leaving play mode succeeded.
    PlayModeExited(Result<(), String>),
    /// The message of a finished recompilation, or why it failed.
    Recompiled(Result<String, String>),
    /// The tests that discovery found, or its error.
    TestsFound(Result<UnityTestDiscovery, UnityTestError>),
    /// The request of a phase could not be put together, and why.
    PhaseRequestFailed(String),
    /// The bridge's reply to a phase request, or the transport failure.
    PhaseReply(Result<PipeResponse, String>),
    /// The parsed reply of a phase, or why it could not be parsed.
    PhaseParsed(Result<UnityTestPhaseResult, String>),
    /// The progress timer fired; the flag says whether the warm-up time has passed.
    Tick { past_warmup: bool },
    /// The bridge's reply to a progress query (none when the bridge was busy), or the transport failure.
    ProgressReply(Result<Option<PipeResponse>, String>),
    /// The parsed progress, or nothing when it could not be parsed.
    ProgressParsed(Option<UnityTestProgress>),
    /// The cancellation channel changed: whether it closed, and whether it now says cancelled.
    CancelChanged { closed: bool, cancelled: bool },
    /// The action has been carried out; what came of it does not matter.
    Done,
}

/// What the caller is to do next.
#[derive(Debug)]
pub enum RunAction {
    /// Read the play-mode domain-reload setting; answer `ReloadSettingDetected`.
    DetectReloadSettings,
    /// Set play-mode domain reload as given; answer `ReloadSettingApplied`.
    SetPlayModeReload(bool),
    /// Read the cancellation flag; answer `CancelFlag`.
    ReadCancelFlag,
    /// Read the clock; answer `Clock`.
    ReadClock,
    /// Read the editor's status; answer `UnityStatus`.
    QueryStatus,
    /// Try a hot reload; answer `HotReloaded`.
    HotReload,
    /// Leave play mode; answer `PlayModeExited`.
    ExitPlayMode,
    /// Recompile and wait; answer `Recompiled`.
    Recompile,
    /// Look up the tests that the filter selects; answer `TestsFound`.
    FindTests(UnityTestFilter),
    /// Put the phase request together (the request with the run id and the
    /// test mode added); if that fails answer `PhaseRequestFailed`; else report
    /// the progress, send the request, start the progress timer, and await
    /// `PhaseReply`, `Tick` or `CancelChanged`.
    StartPhase {
        request: UnityTestRunRequest,
        run_id: String,
        test_mode: String,
        progress: UnityTestProgress,
    },
    /// Go on awaiting `PhaseReply`, `Tick` or `CancelChanged`.
    AwaitPhaseEvent,
    /// Parse the message as a phase result; answer `PhaseParsed`.
    ParsePhaseResult(String),
    /// Ask for progress if the bridge is free; answer `ProgressReply`.
    QueryProgress,
    /// Parse the message as progress; answer `ProgressParsed`.
    ParseProgress(String),
    /// Report the progress, then go on awaiting as for `AwaitPhaseEvent`.
    EmitProgress(UnityTestProgress),
    /// Tell the editor to cancel its tests; answer `Done`.
    CancelTests,
    /// Write the pending snapshot as the project's latest; answer `Done`.
    WriteSnapshot,
    /// The run has ended: conclude it with [`TestRun::conclude`], which frees
    /// the run slot and gives the run's result.
    Finish,
    /// The event did not fit the stage and was ignored.
    Ignored,
}

/// The view of a [`RunEvent`].
pub enum RunEventView {
    ReloadSettingDetected(Option<bool>),
    ReloadSettingApplied(Result<bool, Seq<char>>),
    CancelFlag(bool),
    Clock(Timestamp),
    UnityStatus { connected: bool, in_play_mode: bool },
    HotReloaded(Option<Seq<char>>),
    PlayModeExited(Result<(), Seq<char>>),
    Recompiled(Result<Seq<char>, Seq<char>>),
    TestsFound(Result<UnityTestDiscoveryView, UnityTestErrorView>),
    PhaseRequestFailed(Seq<char>),
    PhaseReply(Result<PipeResponseView, Seq<char>>),
    PhaseParsed(Result<UnityTestPhaseResultView, Seq<char>>),
    Tick { past_warmup: bool },
    ProgressReply(Result<Option<PipeResponseView>, Seq<char>>),
    ProgressParsed(Option<UnityTestProgressView>),
    CancelChanged { closed: bool, cancelled: bool },
    Done,
}

/// The view of a [`RunAction`].
pub enum RunActionView {
    DetectReloadSettings,
    SetPlayModeReload(bool),
    ReadCancelFlag,
    ReadClock,
    QueryStatus,
    HotReload,
    ExitPlayMode,
    Recompile,
    FindTests(UnityTestFilterView),
    StartPhase {
        request: UnityTestRunRequestView,
        run_id: Seq<char>,
        test_mode: Seq<char>,
        progress: UnityTestProgressView,
    },
    AwaitPhaseEvent,
    ParsePhaseResult(Seq<char>),
    QueryProgress,
    ParseProgress(Seq<char>),
    EmitProgress(UnityTestProgressView),
    CancelTests,
    WriteSnapshot,
    Finish,
    Ignored,
}

impl View for RunEvent {
    type V = RunEventView;

    open spec fn view(&self) -> RunEventView {
        match self {
            RunEvent::ReloadSettingDetected(o) => RunEventView::ReloadSettingDetected(*o),
            RunEvent::ReloadSettingApplied(r) => RunEventView::ReloadSettingApplied(
                match r {
                    Ok(b) => Ok(*b),
                    Err(e) => Err(e@),
                },
            ),
            RunEvent::CancelFlag(b) => RunEventView::CancelFlag(*b),
            RunEvent::Clock(t) => RunEventView::Clock(*t),
            RunEvent::UnityStatus { connected, in_play_mode } => RunEventView::UnityStatus {
                connected: *connected,
                in_play_mode: *in_play_mode,
            },
            RunEvent::HotReloaded(m) => RunEventView::HotReloaded(opt_str(*m)),
            RunEvent::PlayModeExited(r) => RunEventView::PlayModeExited(
                match r {
                    Ok(u) => Ok(()),
                    Err(e) => Err(e@),
                },
            ),
            RunEvent::Recompiled(r) => RunEventView::Recompiled(
                match r {
                    Ok(m) => Ok(m@),
                    Err(e) => Err(e@),
                },
            ),
            RunEvent::TestsFound(r) => RunEventView::TestsFound(
                match r {
                    Ok(d) => Ok(d@),
                    Err(e) => Err(e@),
                },
            ),
            RunEvent::PhaseRequestFailed(e) => RunEventView::PhaseRequestFailed(e@),
            RunEvent::PhaseReply(r) => RunEventView::PhaseReply(reply_view(*r)),
            RunEvent::PhaseParsed(r) => RunEventView::PhaseParsed(
                match r {
                    Ok(p) => Ok(p@),
                    Err(e) => Err(e@),
                },
            ),
            RunEvent::Tick { past_warmup } => RunEventView::Tick { past_warmup: *past_warmup },
            RunEvent::ProgressReply(r) => RunEventView::ProgressReply(progress_reply_view(*r)),
            RunEvent::ProgressParsed(o) => RunEventView::ProgressParsed(
                match o {
                    Some(p) => Some(p@),
                    None => None,
                },
            ),
            RunEvent::CancelChanged { closed, cancelled } => RunEventView::CancelChanged {
                closed: *closed,
                cancelled: *cancelled,
            },
            RunEvent::Done => RunEventView::Done,
        }
    }
}

impl View for RunAction {
    type V = RunActionView;

    open spec fn view(&self) -> RunActionView {
        match self {
            RunAction::DetectReloadSettings => RunActionView::DetectReloadSettings,
            RunAction::SetPlayModeReload(b) => RunActionView::SetPlayModeReload(*b),
            RunAction::ReadCancelFlag => RunActionView::ReadCancelFlag,
            RunAction::ReadClock => RunActionView::ReadClock,
            RunAction::QueryStatus => RunActionView::QueryStatus,
            RunAction::HotReload => RunActionView::HotReload,
            RunAction::ExitPlayMode => RunActionView::ExitPlayMode,
            RunAction::Recompile => RunActionView::Recompile,
            RunAction::FindTests(f) => RunActionView::FindTests(f@),
            RunAction::StartPhase { request, run_id, test_mode, progress } =>
                RunActionView::StartPhase {
                request: request@,
                run_id: run_id@,
                test_mode: test_mode@,
                progress: progress@,
            },
            RunAction::AwaitPhaseEvent => RunActionView::AwaitPhaseEvent,
            RunAction::ParsePhaseResult(m) => RunActionView::ParsePhaseResult(m@),
            RunAction::QueryProgress => RunActionView::QueryProgress,
            RunAction::ParseProgress(m) => RunActionView::ParseProgress(m@),
            RunAction::EmitProgress(p) => RunActionView::EmitProgress(p@),
            RunAction::CancelTests => RunActionView::CancelTests,
            RunAction::WriteSnapshot => RunActionView::WriteSnapshot,
            RunAction::Finish => RunActionView::Finish,
            RunAction::Ignored => RunActionView::Ignored,
        }
    }
}

/// A test run in progress.
pub struct TestRun {
    run_id: String,
    requested_scope: UnityTestRunRequest,
    request: UnityTestRunRequest,
    modes: Vec<UnityTestMode>,
    next_mode: usize,
    restore_domain_reload: Option<bool>,
    started_at: Timestamp,
    tests_started_at: Timestamp,
    preparation: Option<UnityTestPreparation>,
    phases: Vec<UnityTestPhaseResult>,
    failure: Option<UnityTestError>,
    snapshot: Option<UnityTestSnapshot>,
    stage: RunStage,
}

/// The view of a [`TestRun`].
pub struct TestRunView {
    pub run_id: Seq<char>,
    pub requested_scope: UnityTestRunRequestView,
    pub request: UnityTestRunRequestView,
    pub modes: Seq<UnityTestMode>,
    pub next_mode: nat,
    pub restore_domain_reload: Option<bool>,
    pub started_at: Timestamp,
    pub tests_started_at: Timestamp,
    pub preparation: Option<UnityTestPreparationView>,
    pub phases: Seq<UnityTestPhaseResultView>,
    pub failure: Option<UnityTestErrorView>,
    pub snapshot: Option<UnityTestSnapshotView>,
    pub stage: RunStage,
}

impl View for TestRun {
    type V = TestRunView;

    closed spec fn view(&self) -> TestRunView {
        TestRunView {
            run_id: self.run_id@,
            requested_scope: self.requested_scope@,
            request: self.request@,
            modes: self.modes@,
            next_mode: self.next_mode as nat,
            restore_domain_reload: self.restore_domain_reload,
            started_at: self.started_at,
            tests_started_at: self.tests_started_at,
            preparation: match self.preparation {
                Some(p) => Some(p@),
                None => None,
            },
            phases: phases_view(self.phases@),
            failure: match self.failure {
                Some(e) => Some(e@),
                None => None,
            },
            snapshot: match self.snapshot {
                Some(s) => Some(s@),
                None => None,
            },
            stage: self.stage,
        }
    }
}

/// The stages in which a phase is under way.
pub open spec fn in_phase(stage: RunStage) -> bool {
    match stage {
        RunStage::QueryingPhaseStatus | RunStage::ExitingForPhase | RunStage::FindingTests
        | RunStage::PhaseRunning | RunStage::ParsingPhase | RunStage::QueryingProgress
        | RunStage::ParsingProgress | RunStage::CancellingTests => true,
        _ => false,
    }
}

/// The stages after the snapshot has been made.
pub open spec fn after_snapshot(stage: RunStage) -> bool {
    match stage {
        RunStage::WritingSnapshot | RunStage::ExitingAfterRun | RunStage::RestoringReload
        | RunStage::Finished => true,
        _ => false,
    }
}

/// What holds of every run: the modes are those the request asks for, one
/// phase result per mode done and each of them passed or failed, a
/// preparation with status `ok` once phases run, the domain reload put back
/// only to `true`, a snapshot from the moment it is made, the request at work
/// being the requested one with at most its mode changed, and, for a run that
/// ends without error, one phase per mode and an `ok` preparation in it.
pub open spec fn run_inv(s: TestRunView) -> bool {
    &&& s.modes == phase_modes(s.requested_scope.filter.test_mode)
    &&& s.next_mode <= s.modes.len()
    &&& s.phases.len() == s.next_mode
    &&& (s.restore_domain_reload is None || s.restore_domain_reload == Some(true))
    &&& in_phase(s.stage) ==> s.next_mode < s.modes.len() && s.preparation is Some
    &&& (s.stage == RunStage::Concluding && s.failure is None) ==> s.preparation is Some
    &&& after_snapshot(s.stage) ==> s.snapshot is Some
    &&& s.stage == RunStage::FindingTests ==> s.request.filter.test_mode == s.modes[s.next_mode as int]
    &&& (s.stage == RunStage::Concluding && s.failure is None) ==> s.next_mode == s.modes.len()
    &&& s.preparation matches Some(p) ==> p.status == "ok"@
    &&& s.request == UnityTestRunRequestView {
        filter: UnityTestFilterView { test_mode: s.request.filter.test_mode, ..s.requested_scope.filter },
        ..s.requested_scope
    }
    &&& (after_snapshot(s.stage) && s.snapshot.unwrap().error is None) ==> {
        &&& s.snapshot.unwrap().phase_summaries.len() == s.modes.len()
        &&& s.snapshot.unwrap().preparation.status == "ok"@
    }
    &&& forall|i: int| 0 <= i < s.phases.len() ==> is_final_status(#[trigger] s.phases[i].status)
}

impl TestRun {
    #[verifier::type_invariant]
    spec fn well_formed(self) -> bool {
        run_inv(self@)
    }
}

/// The progress reported as a phase starts.
pub open spec fn starting_progress(run_id: Seq<char>, phase: Seq<char>) -> UnityTestProgressView {
    UnityTestProgressView {
        active: true,
        run_id,
        phase,
        current_test: Seq::empty(),
        completed: 0,
        total: 0,
        failed: 0,
        revision: 0,
    }
}

/// The phase result recorded when a search finds no tests: passed, with
/// nothing run.
pub open spec fn empty_search_phase(run_id: Seq<char>, test_mode: Seq<char>) -> UnityTestPhaseResultView {
    UnityTestPhaseResultView {
        run_id,
        test_mode,
        status: "passed"@,
        total: 0,
        passed: 0,
        failed: 0,
        skipped: 0,
        duration_bits: 0,
        results: Seq::empty(),
        error_code: None,
        error_message: None,
    }
}

/// The run ends with an error: the clock is read next.
pub open spec fn fail(s: TestRunView, e: UnityTestErrorView) -> (TestRunView, RunActionView) {
    (TestRunView { failure: Some(e), stage: RunStage::Concluding, ..s }, RunActionView::ReadClock)
}

/// The run ends with all phases done: the clock is read next.
pub open spec fn conclude(s: TestRunView) -> (TestRunView, RunActionView) {
    (TestRunView { stage: RunStage::Concluding, ..s }, RunActionView::ReadClock)
}

/// The next phase begins with a status query, or the run ends when none is left.
pub open spec fn next_phase(s: TestRunView) -> (TestRunView, RunActionView) {
    if s.next_mode >= s.modes.len() {
        conclude(s)
    } else {
        (TestRunView { stage: RunStage::QueryingPhaseStatus, ..s }, RunActionView::QueryStatus)
    }
}

/// A phase result is recorded and the run moves on.
pub open spec fn record(s: TestRunView, p: UnityTestPhaseResultView) -> (TestRunView, RunActionView) {
    next_phase(TestRunView { phases: s.phases.push(p), next_mode: s.next_mode + 1, ..s })
}

/// The request with its mode set to that of the current phase.
pub open spec fn phase_request(s: TestRunView) -> UnityTestRunRequestView {
    UnityTestRunRequestView {
        filter: UnityTestFilterView { test_mode: s.modes[s.next_mode as int], ..s.request.filter },
        ..s.request
    }
}

/// The phase runs with the given request: at once passed when a search found
/// no tests, else sent to the editor.
pub open spec fn launch(s: TestRunView, effective: UnityTestRunRequestView) -> (TestRunView, RunActionView) {
    let mode = bridge_name(s.modes[s.next_mode as int]);
    if has_search(s.request) && effective.tests.len() == 0 {
        record(s, empty_search_phase(s.run_id, mode))
    } else {
        (
            TestRunView { stage: RunStage::PhaseRunning, ..s },
            RunActionView::StartPhase {
                request: effective,
                run_id: s.run_id,
                test_mode: mode,
                progress: starting_progress(s.run_id, mode),
            },
        )
    }
}

/// The editor is ready for the current phase: a search without explicit tests
/// is resolved first, else the phase runs with the request as it is.
pub open spec fn enter_phase(s: TestRunView) -> (TestRunView, RunActionView) {
    let req = phase_request(s);
    let s2 = TestRunView { request: req, ..s };
    if has_search(req) && req.tests.len() == 0 {
        (TestRunView { stage: RunStage::FindingTests, ..s2 }, RunActionView::FindTests(req.filter))
    } else {
        launch(s2, req)
    }
}

/// The error of a cancelled run.
pub open spec fn cancelled_error() -> UnityTestErrorView {
    error_of("cancelled"@, "Unity test run cancelled"@)
}

/// The run after the domain-reload question is settled: the cancellation flag
/// is read next.
pub open spec fn check_cancel(s: TestRunView) -> (TestRunView, RunActionView) {
    (TestRunView { stage: RunStage::CheckingCancel, ..s }, RunActionView::ReadCancelFlag)
}

/// The run has ended; its snapshot stays until the run is concluded.
pub open spec fn finish(s: TestRunView) -> (TestRunView, RunActionView) {
    (TestRunView { stage: RunStage::Finished, ..s }, RunActionView::Finish)
}

/// What concluding a run gives: the snapshot's error if it has one, else the
/// snapshot, once the run has ended; nothing for a run that has not ended.
pub open spec fn conclusion(s: TestRunView) -> Option<Result<UnityTestSnapshotView, UnityTestErrorView>> {
    if s.stage == RunStage::Finished {
        Some(run_outcome(s.snapshot.unwrap()))
    } else {
        None
    }
}

/// The view of a conclusion.
pub open spec fn conclusion_view(r: Option<Result<UnityTestSnapshot, UnityTestError>>) -> Option<
    Result<UnityTestSnapshotView, UnityTestErrorView>,
> {
    match r {
        Some(x) => Some(run_result_view(x)),
        None => None,
    }
}

/// A run as it starts, and its first action: the domain-reload setting is
/// read first when play mode is among the modes, else the cancellation flag.
pub open spec fn run_start(run_id: Seq<char>, request: UnityTestRunRequestView, started_at: Timestamp) -> (
    TestRunView,
    RunActionView,
) {
    let modes = phase_modes(request.filter.test_mode);
    let s = TestRunView {
        run_id,
        requested_scope: request,
        request,
        modes,
        next_mode: 0,
        restore_domain_reload: None,
        started_at,
        tests_started_at: started_at,
        preparation: None,
        phases: Seq::empty(),
        failure: None,
        snapshot: None,
        stage: RunStage::CheckingCancel,
    };
    if modes.contains(UnityTestMode::Playmode) {
        (TestRunView { stage: RunStage::DetectingReload, ..s }, RunActionView::DetectReloadSettings)
    } else {
        (s, RunActionView::ReadCancelFlag)
    }
}

/// The next state and action of a run, given what came of its last action.
pub open spec fn run_step(s: TestRunView, e: RunEventView) -> (TestRunView, RunActionView) {
    match (s.stage, e) {
        (RunStage::DetectingReload, RunEventView::ReloadSettingDetected(setting)) => {
            if setting == Some(true) {
                (
                    TestRunView { stage: RunStage::DisablingReload, ..s },
                    RunActionView::SetPlayModeReload(false),
                )
            } else {
                check_cancel(s)
            }
        },
        (RunStage::DisablingReload, RunEventView::ReloadSettingApplied(r)) => match r {
            Err(msg) => fail(
                s,
                error_of(
                    "unknown"@,
                    "Failed to disable Play Mode domain reload for Unity tests: "@ + msg,
                ),
            ),
            Ok(true) => fail(
                s,
                error_of(
                    "unknown"@,
                    "Unity kept Play Mode domain reload enabled; PlayMode tests cannot run over the native bridge"@,
                ),
            ),
            Ok(false) => check_cancel(TestRunView { restore_domain_reload: Some(true), ..s }),
        },
        (RunStage::CheckingCancel, RunEventView::CancelFlag(cancelled)) => {
            if cancelled {
                fail(s, cancelled_error())
            } else {
                (TestRunView { stage: RunStage::StampingStart, ..s }, RunActionView::ReadClock)
            }
        },
        (RunStage::StampingStart, RunEventView::Clock(now)) => (
            TestRunView { tests_started_at: now, stage: RunStage::QueryingRunStatus, ..s },
            RunActionView::QueryStatus,
        ),
        (RunStage::QueryingRunStatus, RunEventView::UnityStatus { connected, in_play_mode }) => {
            if !connected {
                fail(s, error_of("unity_disconnected"@, "Unity Editor not connected"@))
            } else {
                (
                    TestRunView { stage: RunStage::HotReloading { in_play_mode }, ..s },
                    RunActionView::HotReload,
                )
            }
        },
        (RunStage::HotReloading { in_play_mode }, RunEventView::HotReloaded(message)) => {
            match message {
                Some(m) => next_phase(
                    TestRunView {
                        preparation: Some(
                            UnityTestPreparationView {
                                method: "hot_reload"@,
                                status: "ok"@,
                                message: Some(m),
                            },
                        ),
                        ..s
                    },
                ),
                None => if in_play_mode {
                    (
                        TestRunView { stage: RunStage::ExitingForRecompile, ..s },
                        RunActionView::ExitPlayMode,
                    )
                } else {
                    (TestRunView { stage: RunStage::Recompiling, ..s }, RunActionView::Recompile)
                },
            }
        },
        (RunStage::ExitingForRecompile, RunEventView::PlayModeExited(r)) => match r {
            Err(msg) => fail(s, error_of("compile_failed"@, msg)),
            Ok(_) => (TestRunView { stage: RunStage::Recompiling, ..s }, RunActionView::Recompile),
        },
        (RunStage::Recompiling, RunEventView::Recompiled(r)) => match r {
            Err(msg) => fail(s, error_of("compile_failed"@, msg)),
            Ok(m) => next_phase(
                TestRunView {
                    preparation: Some(
                        UnityTestPreparationView {
                            method: "recompile"@,
                            status: "ok"@,
                            message: Some(m),
                        },
                    ),
                    ..s
                },
            ),
        },
        (RunStage::QueryingPhaseStatus, RunEventView::UnityStatus { connected, in_play_mode }) => {
            if in_play_mode {
                (TestRunView { stage: RunStage::ExitingForPhase, ..s }, RunActionView::ExitPlayMode)
            } else {
                enter_phase(s)
            }
        },
        (RunStage::ExitingForPhase, RunEventView::PlayModeExited(r)) => match r {
            Err(msg) => fail(s, error_of("unknown"@, msg)),
            Ok(_) => enter_phase(s),
        },
        (RunStage::FindingTests, RunEventView::TestsFound(r)) => match r {
            Err(err) => fail(s, err),
            Ok(d) => launch(s, resolved_request(s.request, d)),
        },
        (RunStage::PhaseRunning, RunEventView::PhaseRequestFailed(msg)) => fail(
            s,
            error_of("unknown"@, msg),
        ),
        (RunStage::PhaseRunning, RunEventView::PhaseReply(r)) => match call_outcome(r) {
            Err(err) => fail(s, err),
            Ok(m) => (
                TestRunView { stage: RunStage::ParsingPhase, ..s },
                RunActionView::ParsePhaseResult(m),
            ),
        },
        (RunStage::PhaseRunning, RunEventView::Tick { past_warmup }) => {
            if past_warmup {
                (
                    TestRunView { stage: RunStage::QueryingProgress, ..s },
                    RunActionView::QueryProgress,
                )
            } else {
                (s, RunActionView::AwaitPhaseEvent)
            }
        },
        (RunStage::PhaseRunning, RunEventView::CancelChanged { closed, cancelled }) => {
            if closed || cancelled {
                (
                    TestRunView { stage: RunStage::CancellingTests, ..s },
                    RunActionView::CancelTests,
                )
            } else {
                (s, RunActionView::AwaitPhaseEvent)
            }
        },
        (RunStage::ParsingPhase, RunEventView::PhaseParsed(r)) => match r {
            Err(msg) => fail(s, error_of("unknown"@, "Invalid Unity test phase response: "@ + msg)),
            Ok(p) => match phase_verdict(p) {
                Err(err) => fail(s, err),
                Ok(accepted) => record(s, accepted),
            },
        },
        (RunStage::QueryingProgress, RunEventView::ProgressReply(r)) => {
            match progress_outcome(r) {
                Ok(Some(m)) => (
                    TestRunView { stage: RunStage::ParsingProgress, ..s },
                    RunActionView::ParseProgress(m),
                ),
                _ => (
                    TestRunView { stage: RunStage::PhaseRunning, ..s },
                    RunActionView::AwaitPhaseEvent,
                ),
            }
        },
        (RunStage::ParsingProgress, RunEventView::ProgressParsed(o)) => {
            let s2 = TestRunView { stage: RunStage::PhaseRunning, ..s };
            match o {
                Some(p) => if p.active {
                    (s2, RunActionView::EmitProgress(p))
                } else {
                    (s2, RunActionView::AwaitPhaseEvent)
                },
                None => (s2, RunActionView::AwaitPhaseEvent),
            }
        },
        (RunStage::CancellingTests, RunEventView::Done) => fail(s, cancelled_error()),
        (RunStage::Concluding, RunEventView::Clock(now)) => {
            let snapshot = match s.failure {
                Some(err) => failed_snapshot(
                    s.run_id,
                    s.started_at,
                    now,
                    s.requested_scope,
                    err,
                ),
                None => completed_snapshot(
                    s.run_id,
                    s.tests_started_at,
                    now,
                    s.preparation.unwrap(),
                    s.requested_scope,
                    s.phases,
                ),
            };
            (
                TestRunView { snapshot: Some(snapshot), stage: RunStage::WritingSnapshot, ..s },
                RunActionView::WriteSnapshot,
            )
        },
        (RunStage::WritingSnapshot, RunEventView::Done) => (
            TestRunView { stage: RunStage::ExitingAfterRun, ..s },
            RunActionView::ExitPlayMode,
        ),
        (RunStage::ExitingAfterRun, RunEventView::PlayModeExited(_)) => {
            match s.restore_domain_reload {
                Some(setting) => (
                    TestRunView { stage: RunStage::RestoringReload, ..s },
                    RunActionView::SetPlayModeReload(setting),
                ),
                None => finish(s),
            }
        },
        (RunStage::RestoringReload, RunEventView::ReloadSettingApplied(_)) => finish(s),
        _ => (s, RunActionView::Ignored),
    }
}

fn text(s: &str) -> (r: String)
    ensures
        r@ == s@,
{
    String::from_str(s)
}

fn prefixed(prefix: &str, rest: &String) -> (r: String)
    ensures
        r@ == prefix@ + rest@,
{
    String::from_str(prefix).concat(rest.as_str())
}

fn mode_name(mode: UnityTestMode) -> (r: String)
    ensures
        r@ == bridge_name(mode),
{
    String::from_str(mode.as_bridge_str())
}

impl TestRun {
    /// Starts a run of the request under the given id at the given time.
    pub fn start(run_id: String, request: UnityTestRunRequest, started_at: Timestamp) -> (r: (
        TestRun,
        RunAction,
    ))
        ensures
            (r.0@, r.1@) == run_start(run_id@, request@, started_at),
    {
        let modes = requested_phase_modes(&request);
        let has_play = modes[modes.len() - 1] == UnityTestMode::Playmode;
        proof {
            let m = phase_modes(request.filter.test_mode);
            assert(m.contains(UnityTestMode::Playmode) == has_play) by {
                if has_play {
                    assert(m[m.len() - 1] == UnityTestMode::Playmode);
                }
            }
        }
        let requested_scope = request.duplicate();
        let stage = if has_play {
            RunStage::DetectingReload
        } else {
            RunStage::CheckingCancel
        };
        let run = TestRun {
            run_id,
            requested_scope,
            request,
            modes,
            next_mode: 0,
            restore_domain_reload: None,
            started_at,
            tests_started_at: started_at,
            preparation: None,
            phases: Vec::new(),
            failure: None,
            snapshot: None,
            stage,
        };
        assert(run@.phases =~= Seq::<UnityTestPhaseResultView>::empty());
        if has_play {
            (run, RunAction::DetectReloadSettings)
        } else {
            (run, RunAction::ReadCancelFlag)
        }
    }

    /// Claims the run slot and starts a run of the request at the given time
    /// under a fresh random id. A slot that holds a run refuses with `busy`
    /// and stays as it is.
    pub fn begin(slot: &mut Option<String>, request: UnityTestRunRequest, started_at: Timestamp) -> (r:
        Result<(TestRun, RunAction), UnityTestError>)
        ensures
            exists|id: Seq<char>|
                {
                    &&& is_v4_uuid_text(id)
                    &&& active_view(*final(slot)) == claim_spec(active_view(*old(slot)), id).1
                    &&& match r {
                        Err(e) => claim_spec(active_view(*old(slot)), id).0 == Err::<
                            Seq<char>,
                            UnityTestErrorView,
                        >(e@),
                        Ok(started) => claim_spec(active_view(*old(slot)), id).0 == Ok::<
                            Seq<char>,
                            UnityTestErrorView,
                        >(id) && (started.0@, started.1@) == run_start(id, request@, started_at),
                    }
                },
    {
        match claim_active_run(slot) {
            Err(e) => Err(e),
            Ok(id) => Ok(TestRun::start(id, request, started_at)),
        }
    }

    /// Frees the run slot and gives what the run ends with: its snapshot, or
    /// the snapshot's error, once the run has ended; nothing for a run that
    /// has not ended. The slot is empty afterwards in every case.
    pub fn conclude(self, slot: &mut Option<String>) -> (r: Option<
        Result<UnityTestSnapshot, UnityTestError>,
    >)
        ensures
            active_view(*final(slot)) is None,
            conclusion_view(r) == conclusion(self@),
    {
        proof {
            use_type_invariant(&self);
        }
        release_active_run(slot);
        if self.stage != RunStage::Finished {
            return None;
        }
        match self.snapshot {
            Some(snapshot) => Some(run_result(snapshot)),
            None => None,
        }
    }

    /// Where the run stands.
    pub fn stage(&self) -> (stage: RunStage)
        ensures
            stage == self@.stage,
    {
        self.stage
    }

    /// The id of the run.
    pub fn run_id(&self) -> (id: &String)
        ensures
            id@ == self@.run_id,
    {
        &self.run_id
    }

    /// The snapshot that `WriteSnapshot` asks to write.
    pub fn pending_snapshot(&self) -> (snapshot: Option<&UnityTestSnapshot>)
        ensures
            match snapshot {
                Some(x) => self@.snapshot == Some(x@),
                None => self@.snapshot is None,
            },
    {
        match &self.snapshot {
            Some(x) => Some(x),
            None => None,
        }
    }

    fn fail_with(self, e: UnityTestError) -> (r: (TestRun, RunAction))
        ensures
            (r.0@, r.1@) == fail(self@, e@),
    {
        proof {
            use_type_invariant(&self);
        }
        (TestRun { failure: Some(e), stage: RunStage::Concluding, ..self }, RunAction::ReadClock)
    }

    fn next_phase_or_conclude(self) -> (r: (TestRun, RunAction))
        requires
            self@.preparation is Some,
        ensures
            (r.0@, r.1@) == next_phase(self@),
    {
        proof {
            use_type_invariant(&self);
        }
        if self.next_mode >= self.modes.len() {
            (TestRun { stage: RunStage::Concluding, ..self }, RunAction::ReadClock)
        } else {
            (TestRun { stage: RunStage::QueryingPhaseStatus, ..self }, RunAction::QueryStatus)
        }
    }

    fn record_phase(self, p: UnityTestPhaseResult) -> (r: (TestRun, RunAction))
        requires
            in_phase(self@.stage),
            is_final_status(p@.status),
        ensures
            (r.0@, r.1@) == record(self@, p@),
    {
        proof {
            use_type_invariant(&self);
        }
        let ghost old_view = self@;
        let TestRun {
            run_id,
            requested_scope,
            request,
            modes,
            next_mode,
            restore_domain_reload,
            started_at,
            tests_started_at,
            preparation,
            mut phases,
            failure,
            snapshot,
            stage,
        } = self;
        let ghost pv = p@;
        phases.push(p);
        assert(phases_view(phases@) =~= old_view.phases.push(pv));
        let next_mode = next_mode + 1;
        let stage = if next_mode >= modes.len() {
            RunStage::Concluding
        } else {
            RunStage::QueryingPhaseStatus
        };
        let run = TestRun {
            run_id,
            requested_scope,
            request,
            modes,
            next_mode,
            restore_domain_reload,
            started_at,
            tests_started_at,
            preparation,
            phases,
            failure,
            snapshot,
            stage,
        };
        if next_mode >= run.modes.len() {
            (run, RunAction::ReadClock)
        } else {
            (run, RunAction::QueryStatus)
        }
    }

    fn launch_phase(self, effective: UnityTestRunRequest) -> (r: (TestRun, RunAction))
        requires
            in_phase(self@.stage),
        ensures
            (r.0@, r.1@) == launch(self@, effective@),
    {
        proof {
            use_type_invariant(&self);
        }
        let mode = self.modes[self.next_mode];
        if request_has_search(&self.request) && effective.tests.len() == 0 {
            let p = UnityTestPhaseResult {
                run_id: self.run_id.clone(),
                test_mode: mode_name(mode),
                status: text("passed"),
                total: 0,
                passed: 0,
                failed: 0,
                skipped: 0,
                duration_bits: 0,
                results: Vec::new(),
                error_code: None,
                error_message: None,
            };
            assert(results_view(p.results@) =~= Seq::<UnityTestResultView>::empty());
            assert(p@ == empty_search_phase(self@.run_id, bridge_name(mode)));
            self.record_phase(p)
        } else {
            let progress = UnityTestProgress {
                active: true,
                run_id: self.run_id.clone(),
                phase: mode_name(mode),
                current_test: String::new(),
                completed: 0,
                total: 0,
                failed: 0,
                revision: 0,
            };
            let action = RunAction::StartPhase {
                request: effective,
                run_id: self.run_id.clone(),
                test_mode: mode_name(mode),
                progress,
            };
            (TestRun { stage: RunStage::PhaseRunning, ..self }, action)
        }
    }

    fn enter_phase_run(self) -> (r: (TestRun, RunAction))
        requires
            in_phase(self@.stage),
        ensures
            (r.0@, r.1@) == enter_phase(self@),
    {
        proof {
            use_type_invariant(&self);
        }
        let mode = self.modes[self.next_mode];
        let TestRun {
            run_id,
            requested_scope,
            mut request,
            modes,
            next_mode,
            restore_domain_reload,
            started_at,
            tests_started_at,
            preparation,
            phases,
            failure,
            snapshot,
            stage,
        } = self;
        request.filter.test_mode = mode;
        let resolve = request_has_search(&request) && request.tests.len() == 0;
        if resolve {
            let filter = request.filter.duplicate();
            let run = TestRun {
                run_id,
                requested_scope,
                request,
                modes,
                next_mode,
                restore_domain_reload,
                started_at,
                tests_started_at,
                preparation,
                phases,
                failure,
                snapshot,
                stage: RunStage::FindingTests,
            };
            (run, RunAction::FindTests(filter))
        } else {
            let effective = request.duplicate();
            let run = TestRun {
                run_id,
                requested_scope,
                request,
                modes,
                next_mode,
                restore_domain_reload,
                started_at,
                tests_started_at,
                preparation,
                phases,
                failure,
                snapshot,
                stage,
            };
            run.launch_phase(effective)
        }
    }

    fn finish_run(self) -> (r: (TestRun, RunAction))
        requires
            after_snapshot(self@.stage),
        ensures
            (r.0@, r.1@) == finish(self@),
    {
        proof {
            use_type_invariant(&self);
        }
        (TestRun { stage: RunStage::Finished, ..self }, RunAction::Finish)
    }

    fn conclude_with_snapshot(self, now: Timestamp) -> (r: (TestRun, RunAction))
        requires
            self@.stage == RunStage::Concluding,
        ensures
            (r.0@, r.1@) == run_step(self@, RunEventView::Clock(now)),
    {
        proof {
            use_type_invariant(&self);
        }
        let snapshot = match &self.failure {
            Some(err) => build_failed_snapshot(
                self.run_id.clone(),
                self.started_at,
                now,
                self.requested_scope.duplicate(),
                err.duplicate(),
            ),
            None => {
                let preparation = match &self.preparation {
                    Some(p) => p.duplicate(),
                    None => {
                        proof {
                            assert(false);
                        }
                        UnityTestPreparation {
                            method: String::new(),
                            status: String::new(),
                            message: None,
                        }
                    },
                };
                build_completed_snapshot(
                    self.run_id.clone(),
                    self.tests_started_at,
                    now,
                    preparation,
                    self.requested_scope.duplicate(),
                    copy_phases(&self.phases),
                )
            },
        };
        (
            TestRun { snapshot: Some(snapshot), stage: RunStage::WritingSnapshot, ..self },
            RunAction::WriteSnapshot,
        )
    }

    fn on_reload_setting_detected(self, setting: Option<bool>) -> (r: (TestRun, RunAction))
        ensures
            (r.0@, r.1@) == run_step(self@, RunEventView::ReloadSettingDetected(setting)),
    {
        proof {
            use_type_invariant(&self);
        }
        if self.stage != RunStage::DetectingReload {
            return (self, RunAction::Ignored);
        }
        let on = match setting {
            Some(b) => b,
            None => false,
        };
        if on {
            (
                TestRun { stage: RunStage::DisablingReload, ..self },
                RunAction::SetPlayModeReload(false),
            )
        } else {
            (TestRun { stage: RunStage::CheckingCancel, ..self }, RunAction::ReadCancelFlag)
        }
    }

    fn on_reload_setting_applied(self, applied: Result<bool, String>) -> (r: (TestRun, RunAction))
        ensures
            (r.0@, r.1@) == run_step(self@, RunEventView::ReloadSettingApplied(match applied { Ok(b) => Ok(b), Err(e) => Err(e@) })),
    {
        proof {
            use_type_invariant(&self);
        }
        if self.stage == RunStage::RestoringReload {
            return self.finish_run();
        }
        if self.stage != RunStage::DisablingReload {
            return (self, RunAction::Ignored);
        }
        match applied {
            Err(msg) => {
                let e = UnityTestError {
                    code: text("unknown"),
                    message: prefixed(
                        "Failed to disable Play Mode domain reload for Unity tests: ",
                        &msg,
                    ),
                };
                self.fail_with(e)
            },
            Ok(still_on) => {
                if still_on {
                    let e = UnityTestError::new(
                        "unknown",
                        "Unity kept Play Mode domain reload enabled; PlayMode tests cannot run over the native bridge",
                    );
                    self.fail_with(e)
                } else {
                    (
                        TestRun {
                            restore_domain_reload: Some(true),
                            stage: RunStage::CheckingCancel,
                            ..self
                        },
                        RunAction::ReadCancelFlag,
                    )
                }
            },
        }
    }

    fn on_cancel_flag(self, cancelled: bool) -> (r: (TestRun, RunAction))
        ensures
            (r.0@, r.1@) == run_step(self@, RunEventView::CancelFlag(cancelled)),
    {
        proof {
            use_type_invariant(&self);
        }
        if self.stage != RunStage::CheckingCancel {
            return (self, RunAction::Ignored);
        }
        if cancelled {
            self.fail_with(UnityTestError::new("cancelled", "Unity test run cancelled"))
        } else {
            (TestRun { stage: RunStage::StampingStart, ..self }, RunAction::ReadClock)
        }
    }

    fn on_clock(self, now: Timestamp) -> (r: (TestRun, RunAction))
        ensures
            (r.0@, r.1@) == run_step(self@, RunEventView::Clock(now)),
    {
        proof {
            use_type_invariant(&self);
        }
        if self.stage == RunStage::StampingStart {
            (
                TestRun {
                    tests_started_at: now,
                    stage: RunStage::QueryingRunStatus,
                    ..self
                },
                RunAction::QueryStatus,
            )
        } else if self.stage == RunStage::Concluding {
            self.conclude_with_snapshot(now)
        } else {
            (self, RunAction::Ignored)
        }
    }

    fn on_unity_status(self, connected: bool, in_play_mode: bool) -> (r: (TestRun, RunAction))
        ensures
            (r.0@, r.1@) == run_step(self@, RunEventView::UnityStatus { connected, in_play_mode }),
    {
        proof {
            use_type_invariant(&self);
        }
        if self.stage == RunStage::QueryingRunStatus {
            if !connected {
                self.fail_with(
                    UnityTestError::new("unity_disconnected", "Unity Editor not connected"),
                )
            } else {
                (
                    TestRun { stage: RunStage::HotReloading { in_play_mode }, ..self },
                    RunAction::HotReload,
                )
            }
        } else if self.stage == RunStage::QueryingPhaseStatus {
            if in_play_mode {
                (
                    TestRun { stage: RunStage::ExitingForPhase, ..self },
                    RunAction::ExitPlayMode,
                )
            } else {
                self.enter_phase_run()
            }
        } else {
            (self, RunAction::Ignored)
        }
    }

    fn on_hot_reloaded(self, message: Option<String>) -> (r: (TestRun, RunAction))
        ensures
            (r.0@, r.1@) == run_step(self@, RunEventView::HotReloaded(opt_str(message))),
    {
        proof {
            use_type_invariant(&self);
        }
        let was_playing = match self.stage {
            RunStage::HotReloading { in_play_mode } => in_play_mode,
            _ => {
                return (self, RunAction::Ignored);
            },
        };
        match message {
            Some(m) => {
                let prep = UnityTestPreparation {
                    method: text("hot_reload"),
                    status: text("ok"),
                    message: Some(m),
                };
                TestRun { preparation: Some(prep), ..self }.next_phase_or_conclude()
            },
            None => {
                if was_playing {
                    (
                        TestRun { stage: RunStage::ExitingForRecompile, ..self },
                        RunAction::ExitPlayMode,
                    )
                } else {
                    (TestRun { stage: RunStage::Recompiling, ..self }, RunAction::Recompile)
                }
            },
        }
    }

    fn on_play_mode_exited(self, exited: Result<(), String>) -> (r: (TestRun, RunAction))
        ensures
            (r.0@, r.1@) == run_step(self@, RunEventView::PlayModeExited(match exited { Ok(u) => Ok(()), Err(e) => Err(e@) })),
    {
        proof {
            use_type_invariant(&self);
        }
        if self.stage == RunStage::ExitingForRecompile {
            match exited {
                Err(msg) => self.fail_with(
                    UnityTestError { code: text("compile_failed"), message: msg },
                ),
                Ok(_) => (
                    TestRun { stage: RunStage::Recompiling, ..self },
                    RunAction::Recompile,
                ),
            }
        } else if self.stage == RunStage::ExitingForPhase {
            match exited {
                Err(msg) => self.fail_with(
                    UnityTestError { code: text("unknown"), message: msg },
                ),
                Ok(_) => self.enter_phase_run(),
            }
        } else if self.stage == RunStage::ExitingAfterRun {
            match self.restore_domain_reload {
                Some(setting) => (
                    TestRun { stage: RunStage::RestoringReload, ..self },
                    RunAction::SetPlayModeReload(setting),
                ),
                None => self.finish_run(),
            }
        } else {
            (self, RunAction::Ignored)
        }
    }

    fn on_recompiled(self, compiled: Result<String, String>) -> (r: (TestRun, RunAction))
        ensures
            (r.0@, r.1@) == run_step(self@, RunEventView::Recompiled(match compiled { Ok(m) => Ok(m@), Err(e) => Err(e@) })),
    {
        proof {
            use_type_invariant(&self);
        }
        if self.stage != RunStage::Recompiling {
            return (self, RunAction::Ignored);
        }
        match compiled {
            Err(msg) => self.fail_with(
                UnityTestError { code: text("compile_failed"), message: msg },
            ),
            Ok(m) => {
                let prep = UnityTestPreparation {
                    method: text("recompile"),
                    status: text("ok"),
                    message: Some(m),
                };
                TestRun { preparation: Some(prep), ..self }.next_phase_or_conclude()
            },
        }
    }

    fn on_tests_found(self, found: Result<UnityTestDiscovery, UnityTestError>) -> (r: (TestRun, RunAction))
        ensures
            (r.0@, r.1@) == run_step(self@, RunEventView::TestsFound(match found { Ok(d) => Ok(d@), Err(e) => Err(e@) })),
    {
        proof {
            use_type_invariant(&self);
        }
        if self.stage != RunStage::FindingTests {
            return (self, RunAction::Ignored);
        }
        match found {
            Err(err) => self.fail_with(err),
            Ok(discovery) => {
                let effective = search_resolved_request(&self.request, &discovery);
                self.launch_phase(effective)
            },
        }
    }

    fn on_phase_request_failed(self, msg: String) -> (r: (TestRun, RunAction))
        ensures
            (r.0@, r.1@) == run_step(self@, RunEventView::PhaseRequestFailed(msg@)),
    {
        proof {
            use_type_invariant(&self);
        }
        if self.stage != RunStage::PhaseRunning {
            return (self, RunAction::Ignored);
        }
        self.fail_with(UnityTestError { code: text("unknown"), message: msg })
    }

    fn on_phase_reply(self, reply: Result<PipeResponse, String>) -> (r: (TestRun, RunAction))
        ensures
            (r.0@, r.1@) == run_step(self@, RunEventView::PhaseReply(reply_view(reply))),
    {
        proof {
            use_type_invariant(&self);
        }
        if self.stage != RunStage::PhaseRunning {
            return (self, RunAction::Ignored);
        }
        match call_message(reply) {
            Err(err) => self.fail_with(err),
            Ok(m) => (
                TestRun { stage: RunStage::ParsingPhase, ..self },
                RunAction::ParsePhaseResult(m),
            ),
        }
    }

    fn on_phase_parsed(self, parsed: Result<UnityTestPhaseResult, String>) -> (r: (TestRun, RunAction))
        ensures
            (r.0@, r.1@) == run_step(self@, RunEventView::PhaseParsed(match parsed { Ok(p) => Ok(p@), Err(e) => Err(e@) })),
    {
        proof {
            use_type_invariant(&self);
        }
        if self.stage != RunStage::ParsingPhase {
            return (self, RunAction::Ignored);
        }
        match parsed {
            Err(msg) => {
                let e = UnityTestError {
                    code: text("unknown"),
                    message: prefixed("Invalid Unity test phase response: ", &msg),
                };
                self.fail_with(e)
            },
            Ok(phase) => match check_phase_result(phase) {
                Err(err) => self.fail_with(err),
                Ok(accepted) => self.record_phase(accepted),
            },
        }
    }

    fn on_tick(self, past_warmup: bool) -> (r: (TestRun, RunAction))
        ensures
            (r.0@, r.1@) == run_step(self@, RunEventView::Tick { past_warmup }),
    {
        proof {
            use_type_invariant(&self);
        }
        if self.stage != RunStage::PhaseRunning {
            return (self, RunAction::Ignored);
        }
        if past_warmup {
            (TestRun { stage: RunStage::QueryingProgress, ..self }, RunAction::QueryProgress)
        } else {
            (self, RunAction::AwaitPhaseEvent)
        }
    }

    fn on_progress_reply(self, reply: Result<Option<PipeResponse>, String>) -> (r: (TestRun, RunAction))
        ensures
            (r.0@, r.1@) == run_step(self@, RunEventView::ProgressReply(progress_reply_view(reply))),
    {
        proof {
            use_type_invariant(&self);
        }
        if self.stage != RunStage::QueryingProgress {
            return (self, RunAction::Ignored);
        }
        match progress_message(reply) {
            Ok(Some(m)) => (
                TestRun { stage: RunStage::ParsingProgress, ..self },
                RunAction::ParseProgress(m),
            ),
            _ => (
                TestRun { stage: RunStage::PhaseRunning, ..self },
                RunAction::AwaitPhaseEvent,
            ),
        }
    }

    fn on_progress_parsed(self, parsed: Option<UnityTestProgress>) -> (r: (TestRun, RunAction))
        ensures
            (r.0@, r.1@) == run_step(self@, RunEventView::ProgressParsed(match parsed { Some(p) => Some(p@), None => None })),
    {
        proof {
            use_type_invariant(&self);
        }
        if self.stage != RunStage::ParsingProgress {
            return (self, RunAction::Ignored);
        }
        let run = TestRun { stage: RunStage::PhaseRunning, ..self };
        match parsed {
            Some(p) => if p.active {
                (run, RunAction::EmitProgress(p))
            } else {
                (run, RunAction::AwaitPhaseEvent)
            },
            None => (run, RunAction::AwaitPhaseEvent),
        }
    }

    fn on_cancel_changed(self, closed: bool, cancelled: bool) -> (r: (TestRun, RunAction))
        ensures
            (r.0@, r.1@) == run_step(self@, RunEventView::CancelChanged { closed, cancelled }),
    {
        proof {
            use_type_invariant(&self);
        }
        if self.stage != RunStage::PhaseRunning {
            return (self, RunAction::Ignored);
        }
        if closed || cancelled {
            (TestRun { stage: RunStage::CancellingTests, ..self }, RunAction::CancelTests)
        } else {
            (self, RunAction::AwaitPhaseEvent)
        }
    }

    fn on_done(self) -> (r: (TestRun, RunAction))
        ensures
            (r.0@, r.1@) == run_step(self@, RunEventView::Done),
    {
        proof {
            use_type_invariant(&self);
        }
        if self.stage == RunStage::CancellingTests {
            self.fail_with(UnityTestError::new("cancelled", "Unity test run cancelled"))
        } else if self.stage == RunStage::WritingSnapshot {
            (TestRun { stage: RunStage::ExitingAfterRun, ..self }, RunAction::ExitPlayMode)
        } else {
            (self, RunAction::Ignored)
        }
    }

    /// The next state of the run and what to do next, given what came of the
    /// last action. An event that does not fit the stage changes nothing.
    pub fn step(self, event: RunEvent) -> (r: (TestRun, RunAction))
        ensures
            (r.0@, r.1@) == run_step(self@, event@),
    {
        match event {
            RunEvent::ReloadSettingDetected(setting) => self.on_reload_setting_detected(setting),
            RunEvent::ReloadSettingApplied(applied) => self.on_reload_setting_applied(applied),
            RunEvent::CancelFlag(cancelled) => self.on_cancel_flag(cancelled),
            RunEvent::Clock(now) => self.on_clock(now),
            RunEvent::UnityStatus { connected, in_play_mode } => self.on_unity_status(connected, in_play_mode),
            RunEvent::HotReloaded(message) => self.on_hot_reloaded(message),
            RunEvent::PlayModeExited(exited) => self.on_play_mode_exited(exited),
            RunEvent::Recompiled(compiled) => self.on_recompiled(compiled),
            RunEvent::TestsFound(found) => self.on_tests_found(found),
            RunEvent::PhaseRequestFailed(msg) => self.on_phase_request_failed(msg),
            RunEvent::PhaseReply(reply) => self.on_phase_reply(reply),
            RunEvent::PhaseParsed(parsed) => self.on_phase_parsed(parsed),
            RunEvent::Tick { past_warmup } => self.on_tick(past_warmup),
            RunEvent::ProgressReply(reply) => self.on_progress_reply(reply),
            RunEvent::ProgressParsed(parsed) => self.on_progress_parsed(parsed),
            RunEvent::CancelChanged { closed, cancelled } => self.on_cancel_changed(closed, cancelled),
            RunEvent::Done => self.on_done(),
        }
    }
}

} // verus!
