//! What holds of every run and across calls, stated over the models of the
//! functions and the state machine, and proved.

use vstd::prelude::*;
use vstd::string::*;

use crate::active::{busy_error, claim_spec};
use crate::bridge::is_final_status;
use crate::run::{
    cancelled_error, conclusion, run_inv, run_start, run_step, RunActionView, RunEventView, RunStage,
    TestRunView,
};
use crate::scope::{
    adjoins, assembly_targets, fixture_targets, has_search, is_path_separator, is_snapshot_path,
    method_targets, phase_modes, separator_fits, test_target,
};
use crate::snapshot::{completed_snapshot, failed_snapshot, run_outcome, summary_of};
use crate::storage::cancel_outcome;
use crate::types::{
    bridge_name, PipeResponseView, UnityTestAssemblyView, UnityTestDiscoveryView, UnityTestFilterView,
    UnityTestFixtureView, Timestamp, UnityTestErrorView, UnityTestPhaseResultView, UnityTestPreparationView,
    UnityTestRunRequestView,
};

verus! {

/// Every run starts in a state that satisfies the run invariant.
pub proof fn law_start_is_well_formed(
    run_id: Seq<char>,
    request: UnityTestRunRequestView,
    started_at: Timestamp,
)
    ensures
        run_inv(run_start(run_id, request, started_at).0),
{
}

/// Every step keeps the run invariant: whatever the caller hands back, the
/// modes stay those the request asks for, only phases that passed or failed
/// are recorded, one per mode done, and the domain reload is only ever put
/// back to `true`.
#[verifier::rlimit(60)]
pub proof fn law_step_keeps_invariant(s: TestRunView, e: RunEventView)
    requires
        run_inv(s),
    ensures
        run_inv(run_step(s, e).0),
{
    let r = run_step(s, e).0;
    assert forall|i: int| 0 <= i < r.phases.len() implies is_final_status(
        #[trigger] r.phases[i].status,
    ) by {
        if i < s.phases.len() && r.phases.len() > s.phases.len() {
            assert(r.phases[i] == s.phases[i]);
        }
    }
}

/// A step never changes the run's id, the scope it was asked for, its start
/// time or its modes; and it changes whether the domain reload is to be put
/// back only when switching it off has just succeeded.
pub proof fn law_step_keeps_identity(s: TestRunView, e: RunEventView)
    ensures
        run_step(s, e).0.run_id == s.run_id,
        run_step(s, e).0.requested_scope == s.requested_scope,
        run_step(s, e).0.started_at == s.started_at,
        run_step(s, e).0.modes == s.modes,
        run_step(s, e).0.restore_domain_reload != s.restore_domain_reload ==> (s.stage
            == RunStage::DisablingReload && e == RunEventView::ReloadSettingApplied(Ok(false))
            && run_step(s, e).0.restore_domain_reload == Some(true)),
{
}

/// Phases run in the order of the request's modes (edit mode before play
/// mode when it asks for all): a phase that starts runs the mode that follows
/// the phases already recorded.
pub proof fn law_phases_follow_mode_order(s: TestRunView, e: RunEventView)
    requires
        run_inv(s),
    ensures
        ({
            let (r, a) = run_step(s, e);
            a matches RunActionView::StartPhase { test_mode, .. } ==> (r.phases.len()
                < r.modes.len() && test_mode == bridge_name(r.modes[r.phases.len() as int])
                && a->request.filter.test_mode == r.modes[r.phases.len() as int])
        }),
{
}

/// A run that has ended stays ended: every further event is ignored.
pub proof fn law_finished_is_final(s: TestRunView, e: RunEventView)
    requires
        s.stage == RunStage::Finished,
    ensures
        run_step(s, e) == (s, RunActionView::Ignored),
{
}

/// The snapshot a concluding run makes: from its error, or from its phases.
pub open spec fn final_snapshot(s: TestRunView, now: Timestamp) -> crate::types::UnityTestSnapshotView {
    match s.failure {
        Some(err) => failed_snapshot(s.run_id, s.started_at, now, s.requested_scope, err),
        None => completed_snapshot(
            s.run_id,
            s.tests_started_at,
            now,
            s.preparation.unwrap(),
            s.requested_scope,
            s.phases,
        ),
    }
}

/// However a run ends, it then writes its snapshot, leaves play mode whatever
/// came of that, puts the domain-reload setting back if (and only if) it
/// switched it off, and is concluded with the snapshot's error if it has one,
/// else the snapshot.
pub proof fn law_run_always_cleans_up(
    s: TestRunView,
    now: Timestamp,
    exited: Result<(), Seq<char>>,
    applied: Result<bool, Seq<char>>,
)
    requires
        run_inv(s),
        s.stage == RunStage::Concluding,
    ensures
        ({
            let snapshot = final_snapshot(s, now);
            let (s1, a1) = run_step(s, RunEventView::Clock(now));
            let (s2, a2) = run_step(s1, RunEventView::Done);
            let (s3, a3) = run_step(s2, RunEventView::PlayModeExited(exited));
            let (s4, a4) = run_step(s3, RunEventView::ReloadSettingApplied(applied));
            &&& s1.snapshot == Some(snapshot)
            &&& a1 == RunActionView::WriteSnapshot
            &&& a2 == RunActionView::ExitPlayMode
            &&& match s.restore_domain_reload {
                Some(setting) => {
                    &&& a3 == RunActionView::SetPlayModeReload(setting)
                    &&& a4 == RunActionView::Finish
                    &&& conclusion(s4) == Some(run_outcome(snapshot))
                },
                None => {
                    &&& a3 == RunActionView::Finish
                    &&& conclusion(s3) == Some(run_outcome(snapshot))
                },
            }
        }),
{
}

/// A run that fails hands back exactly its error, and one that completes
/// hands back its snapshot, which carries no error.
pub proof fn law_outcome_follows_snapshot(
    run_id: Seq<char>,
    started_at: Timestamp,
    finished_at: Timestamp,
    preparation: UnityTestPreparationView,
    scope: UnityTestRunRequestView,
    phases: Seq<UnityTestPhaseResultView>,
    error: UnityTestErrorView,
)
    ensures
        run_outcome(failed_snapshot(run_id, started_at, finished_at, scope, error)) == Err::<
            crate::types::UnityTestSnapshotView,
            UnityTestErrorView,
        >(error),
        run_outcome(completed_snapshot(run_id, started_at, finished_at, preparation, scope, phases))
            == Ok::<crate::types::UnityTestSnapshotView, UnityTestErrorView>(
            completed_snapshot(run_id, started_at, finished_at, preparation, scope, phases),
        ),
{
}

/// A run that concludes with a snapshot, not an error, ran one phase for each
/// mode that its requested test mode names, and its preparation was `ok`.
pub proof fn law_completed_run_has_phase_per_mode(s: TestRunView, snapshot: crate::types::UnityTestSnapshotView)
    requires
        run_inv(s),
        conclusion(s) == Some(Ok::<crate::types::UnityTestSnapshotView, UnityTestErrorView>(snapshot)),
    ensures
        snapshot.error is None,
        snapshot.phase_summaries.len() == phase_modes(s.requested_scope.filter.test_mode).len(),
        snapshot.phase_summaries.len() == s.modes.len(),
        snapshot.preparation.status == "ok"@,
{
}

/// Cancelling while a phase runs tells the editor to cancel its tests, and the
/// run then ends as cancelled: its snapshot has the status `cancelled` and it
/// hands back the cancellation error.
pub proof fn law_cancel_ends_run_as_cancelled(s: TestRunView, closed: bool, now: Timestamp)
    requires
        run_inv(s),
        s.stage == RunStage::PhaseRunning,
    ensures
        ({
            let (s1, a1) = run_step(s, RunEventView::CancelChanged { closed, cancelled: true });
            let (s2, a2) = run_step(s1, RunEventView::Done);
            let (s3, a3) = run_step(s2, RunEventView::Clock(now));
            &&& a1 == RunActionView::CancelTests
            &&& a2 == RunActionView::ReadClock
            &&& s2.failure == Some(cancelled_error())
            &&& s3.snapshot.unwrap().terminal_status == "cancelled"@
            &&& run_outcome(s3.snapshot.unwrap()) == Err::<
                crate::types::UnityTestSnapshotView,
                UnityTestErrorView,
            >(cancelled_error())
        }),
{
    reveal_strlit("cancelled");
}

/// The sum of one count over phases, without wrapping.
pub open spec fn count_sum(phases: Seq<UnityTestPhaseResultView>, which: int) -> int
    decreases phases.len(),
{
    if phases.len() == 0 {
        0
    } else {
        count_sum(phases.drop_last(), which) + (if which == 0 {
            phases.last().total as int
        } else if which == 1 {
            phases.last().passed as int
        } else if which == 2 {
            phases.last().failed as int
        } else {
            phases.last().skipped as int
        })
    }
}

/// The summary holds the plain sums of the counts of all phases whenever those
/// sums fit in 32 bits.
pub proof fn law_summary_sums_counts(phases: Seq<UnityTestPhaseResultView>)
    requires
        count_sum(phases, 0) <= u32::MAX,
        count_sum(phases, 1) <= u32::MAX,
        count_sum(phases, 2) <= u32::MAX,
        count_sum(phases, 3) <= u32::MAX,
    ensures
        summary_of(phases).total == count_sum(phases, 0),
        summary_of(phases).passed == count_sum(phases, 1),
        summary_of(phases).failed == count_sum(phases, 2),
        summary_of(phases).skipped == count_sum(phases, 3),
    decreases phases.len(),
{
    if phases.len() > 0 {
        law_summary_sums_counts(phases.drop_last());
    }
}

/// Where one call of a test run stands with respect to the run slot.
pub enum CallPhase {
    /// Not yet at the busy check.
    Waiting,
    /// Past the busy check, holding the slot under the id.
    Running(Seq<char>),
    /// Refused as busy.
    Rejected,
    /// Concluded: the slot was freed.
    Returned,
}

/// Calls of test runs in one process and the slot they share. Each begin and
/// each conclusion is one step, as the slot's lock makes it.
pub struct Calls {
    pub slot: Option<Seq<char>>,
    pub phases: Seq<CallPhase>,
}

/// At most one call holds the slot at any time, the slot names the call that
/// holds it, and a slot that is taken is held by a running call.
pub open spec fn slot_consistent(c: Calls) -> bool {
    &&& forall|i: int, j: int|
        0 <= i < c.phases.len() && 0 <= j < c.phases.len() && c.phases[i] is Running
            && c.phases[j] is Running ==> i == j
    &&& forall|i: int|
        0 <= i < c.phases.len() && (#[trigger] c.phases[i]) is Running ==> c.slot == Some(
            c.phases[i]->Running_0,
        )
    &&& c.slot is Some ==> exists|i: int|
        0 <= i < c.phases.len() && c.phases[i] == CallPhase::Running(c.slot.unwrap())
}

/// Call `i` begins a run with the fresh id `id` ([`crate::run::TestRun::begin`]).
pub open spec fn call_begins(c: Calls, i: int, id: Seq<char>) -> Calls {
    let (outcome, slot) = claim_spec(c.slot, id);
    Calls {
        slot,
        phases: c.phases.update(
            i,
            match outcome {
                Ok(_) => CallPhase::Running(id),
                Err(_) => CallPhase::Rejected,
            },
        ),
    }
}

/// Call `i` concludes its run, which empties the slot
/// ([`crate::run::TestRun::conclude`]).
pub open spec fn call_concludes(c: Calls, i: int) -> Calls {
    Calls { slot: None, phases: c.phases.update(i, CallPhase::Returned) }
}

/// Before any call has begun, the slot is consistent.
pub proof fn law_slot_starts_consistent(n: nat)
    ensures
        slot_consistent(Calls { slot: None, phases: Seq::new(n, |i: int| CallPhase::Waiting) }),
{
}

/// However calls interleave, at no time do two of them hold the slot: a call
/// that begins while another holds it is refused as busy, and one that begins
/// while the slot is free holds it alone.
pub proof fn law_begin_keeps_slot_consistent(c: Calls, i: int, id: Seq<char>)
    requires
        slot_consistent(c),
        0 <= i < c.phases.len(),
        c.phases[i] == CallPhase::Waiting,
    ensures
        slot_consistent(call_begins(c, i, id)),
        c.slot is Some ==> call_begins(c, i, id).phases[i] == CallPhase::Rejected,
        c.slot is None ==> call_begins(c, i, id).phases[i] == CallPhase::Running(id),
{
    let d = call_begins(c, i, id);
    if c.slot is None {
        assert forall|j: int| 0 <= j < c.phases.len() && j != i implies !(d.phases[j] is Running) by {
            if c.phases[j] is Running {
                assert(c.slot == Some(c.phases[j]->Running_0));
            }
        }
        assert(d.phases[i] == CallPhase::Running(id));
    } else {
        let k = choose|k: int|
            0 <= k < c.phases.len() && c.phases[k] == CallPhase::Running(c.slot.unwrap());
        assert(k != i);
        assert(d.phases[k] == c.phases[k]);
    }
}

/// A call that concludes leaves the slot free, so no later call is refused
/// because of it, and the slot stays consistent.
pub proof fn law_conclude_frees_slot(c: Calls, i: int, later: int, id: Seq<char>)
    requires
        slot_consistent(c),
        0 <= i < c.phases.len(),
        c.phases[i] is Running,
        0 <= later < c.phases.len(),
        call_concludes(c, i).phases[later] == CallPhase::Waiting,
    ensures
        slot_consistent(call_concludes(c, i)),
        call_concludes(c, i).slot is None,
        call_begins(call_concludes(c, i), later, id).phases[later] == CallPhase::Running(id),
{
    let d = call_concludes(c, i);
    assert forall|j: int| 0 <= j < d.phases.len() implies !(d.phases[j] is Running) by {
        if j != i && c.phases[j] is Running {
            assert(j == i);
        }
    }
}

/// Once a run releases the slot, the next claim succeeds and holds its id;
/// while a run holds the slot, every claim is refused as busy and the slot
/// keeps its run.
pub proof fn law_slot_admits_one_run(held: Seq<char>, id: Seq<char>)
    ensures
        claim_spec(None, id) == (Ok::<Seq<char>, UnityTestErrorView>(id), Some(id)),
        claim_spec(Some(held), id) == (Err::<Seq<char>, UnityTestErrorView>(busy_error()), Some(
            held,
        )),
{
}

/// The latest snapshot of a project lies below the project's own path and
/// is named `latest.json`; for a project path that is not empty, does not end
/// in a separator and holds no drive colon, it is exactly
/// `<project>/Locus/test-results/latest.json`, with the platform's separators.
pub proof fn law_snapshot_path_layout(path: Seq<char>, project: Seq<char>)
    requires
        is_snapshot_path(path, project),
    ensures
        path.len() >= project.len() + 28,
        path.subrange(0, project.len() as int) == project,
        path.subrange(path.len() - 11, path.len() as int) == "latest.json"@,
        (project.len() > 0 && !is_path_separator(project.last()) && !project.contains(':'))
            ==> exists|c1: char, c2: char, c3: char|
            is_path_separator(c1) && is_path_separator(c2) && is_path_separator(c3) && path
                == project + seq![c1] + "Locus"@ + seq![c2] + "test-results"@ + seq![c3]
                + "latest.json"@,
{
    reveal_strlit("Locus");
    reveal_strlit("test-results");
    reveal_strlit("latest.json");
    let (locus, results) = choose|locus: Seq<char>, results: Seq<char>|
        adjoins(locus, project, "Locus"@) && adjoins(results, locus, "test-results"@) && adjoins(
            path,
            results,
            "latest.json"@,
        );
    let s1 = choose|sep: Seq<char>| separator_fits(project, sep) && locus == project + sep + "Locus"@;
    let s2 = choose|sep: Seq<char>| separator_fits(locus, sep) && results == locus + sep + "test-results"@;
    let s3 = choose|sep: Seq<char>| separator_fits(results, sep) && path == results + sep + "latest.json"@;
    assert(path.subrange(0, project.len() as int) =~= project) by {
        assert forall|i: int| 0 <= i < project.len() implies path[i] == project[i] by {
            assert(path[i] == results[i]);
            assert(results[i] == locus[i]);
            assert(locus[i] == project[i]);
        }
    }
    assert(path.subrange(path.len() - 11, path.len() as int) =~= "latest.json"@);
    if project.len() > 0 && !is_path_separator(project.last()) && !project.contains(':') {
        assert(s1.len() == 1);
        assert(locus.last() == 's');
        assert(!locus.contains(':')) by {
            assert forall|i: int| 0 <= i < locus.len() implies locus[i] != ':' by {
                if i < project.len() {
                    assert(locus[i] == project[i]);
                } else if i < project.len() + 1 {
                    assert(locus[i] == s1[0]);
                } else {
                    assert(locus[i] == "Locus"@[i - project.len() - 1]);
                }
            }
        }
        assert(s2.len() == 1);
        assert(results.last() == 's');
        assert(!results.contains(':')) by {
            assert forall|i: int| 0 <= i < results.len() implies results[i] != ':' by {
                if i < locus.len() {
                    assert(results[i] == locus[i]);
                } else if i < locus.len() + 1 {
                    assert(results[i] == s2[0]);
                } else {
                    assert(results[i] == "test-results"@[i - locus.len() - 1]);
                }
            }
        }
        assert(s3.len() == 1);
        assert(s1 =~= seq![s1[0]]);
        assert(s2 =~= seq![s2[0]]);
        assert(s3 =~= seq![s3[0]]);
        assert(path == project + seq![s1[0]] + "Locus"@ + seq![s2[0]] + "test-results"@ + seq![
            s3[0],
        ] + "latest.json"@);
    }
}

/// The summed failed count is the plain sum of the phases' failed counts
/// whenever that sum fits in 32 bits.
proof fn lemma_failed_sum(phases: Seq<UnityTestPhaseResultView>)
    requires
        count_sum(phases, 2) <= u32::MAX,
    ensures
        summary_of(phases).failed == count_sum(phases, 2),
    decreases phases.len(),
{
    if phases.len() > 0 {
        assert(count_sum(phases.drop_last(), 2) >= 0) by {
            lemma_count_sum_nonneg(phases.drop_last(), 2);
        }
        lemma_failed_sum(phases.drop_last());
    }
}

proof fn lemma_count_sum_nonneg(phases: Seq<UnityTestPhaseResultView>, which: int)
    ensures
        count_sum(phases, which) >= 0,
    decreases phases.len(),
{
    if phases.len() > 0 {
        lemma_count_sum_nonneg(phases.drop_last(), which);
    }
}

/// A completed run is `completed_failed` exactly when the failed count of its
/// summary is above zero, and `completed` otherwise, whatever the skipped
/// count. Where the phases' failed counts sum to a number that fits in 32
/// bits, it is `completed_failed` exactly when some phase failed a test; so a
/// run in which no phase failed a test is `completed`, skipped tests or not.
pub proof fn law_completed_status_follows_failures(
    run_id: Seq<char>,
    started_at: Timestamp,
    finished_at: Timestamp,
    preparation: UnityTestPreparationView,
    scope: UnityTestRunRequestView,
    phases: Seq<UnityTestPhaseResultView>,
)
    ensures
        ({
            let snap = completed_snapshot(run_id, started_at, finished_at, preparation, scope, phases);
            &&& snap.terminal_status == "completed_failed"@ <==> snap.total_summary.failed > 0
            &&& snap.terminal_status == "completed"@ <==> snap.total_summary.failed == 0
            &&& count_sum(phases, 2) <= u32::MAX ==> (snap.terminal_status == "completed_failed"@
                <==> exists|i: int| 0 <= i < phases.len() && #[trigger] phases[i].failed > 0)
        }),
{
    reveal_strlit("completed_failed");
    reveal_strlit("completed");
    let snap = completed_snapshot(run_id, started_at, finished_at, preparation, scope, phases);
    assert("completed_failed"@.len() != "completed"@.len());
    if count_sum(phases, 2) <= u32::MAX {
        lemma_failed_sum(phases);
        lemma_failed_sum_positive(phases);
    }
}

/// The plain sum of the failed counts is above zero exactly when some phase
/// failed a test.
proof fn lemma_failed_sum_positive(phases: Seq<UnityTestPhaseResultView>)
    ensures
        count_sum(phases, 2) > 0 <==> exists|i: int| 0 <= i < phases.len() && #[trigger] phases[i].failed > 0,
    decreases phases.len(),
{
    if phases.len() > 0 {
        let init = phases.drop_last();
        lemma_failed_sum_positive(init);
        lemma_count_sum_nonneg(init, 2);
        if exists|i: int| 0 <= i < init.len() && #[trigger] init[i].failed > 0 {
            let i = choose|i: int| 0 <= i < init.len() && #[trigger] init[i].failed > 0;
            assert(phases[i] == init[i]);
        }
        if exists|i: int| 0 <= i < phases.len() && #[trigger] phases[i].failed > 0 {
            let i = choose|i: int| 0 <= i < phases.len() && #[trigger] phases[i].failed > 0;
            if i < phases.len() - 1 {
                assert(init[i] == phases[i]);
            }
        }
        if phases.last().failed > 0 {
            assert(phases[phases.len() - 1].failed > 0);
        }
    }
}

/// Cancelling the tests succeeds exactly when the bridge took the request: a
/// transport failure gives an error that carries the transport's text, and a
/// refusal gives an error that carries the refusal's text (or the default
/// text where the reply gives none).
pub proof fn law_cancel_succeeds_only_when_accepted(reply: Result<PipeResponseView, Seq<char>>)
    ensures
        cancel_outcome(reply) is Ok <==> (reply matches Ok(r) && r.ok),
        reply is Err ==> cancel_outcome(reply) is Err && cancel_outcome(reply)->Err_0.message
            == reply->Err_0,
        (reply is Ok && !reply->Ok_0.ok) ==> cancel_outcome(reply) is Err && cancel_outcome(
            reply,
        )->Err_0.message == match reply->Ok_0.error {
            Some(m) => m,
            None => "Unity test request failed"@,
        },
{
}

/// A progress query never ends a run: whatever the reply, failed transport
/// included, the run goes back to awaiting its phase, or first reads the
/// progress message, and then goes back to awaiting its phase; nothing else
/// of the run changes.
pub proof fn law_progress_never_ends_run(
    s: TestRunView,
    reply: Result<Option<PipeResponseView>, Seq<char>>,
    parsed: Option<crate::types::UnityTestProgressView>,
)
    requires
        s.stage == RunStage::QueryingProgress,
    ensures
        ({
            let (s1, a1) = run_step(s, RunEventView::ProgressReply(reply));
            let (s2, a2) = run_step(s1, RunEventView::ProgressParsed(parsed));
            &&& s1 == TestRunView { stage: s1.stage, ..s }
            &&& (s1.stage == RunStage::PhaseRunning && a1 == RunActionView::AwaitPhaseEvent)
                || (s1.stage == RunStage::ParsingProgress && a1 is ParseProgress)
            &&& reply is Err ==> s1.stage == RunStage::PhaseRunning && a1 == RunActionView::AwaitPhaseEvent
            &&& s1.stage == RunStage::ParsingProgress ==> s2 == TestRunView {
                stage: RunStage::PhaseRunning,
                ..s
            }
        }),
{
}

/// The request that a phase is started with keeps the explicit tests that the
/// run was asked for, and its filter, with the phase's mode in place of the
/// requested one: where the request does not search or already names tests,
/// the editor, once ready (not in play mode, or out of it), is sent the
/// requested tests as they are.
pub proof fn law_phase_keeps_requested_tests(s: TestRunView, connected: bool)
    requires
        run_inv(s),
        !has_search(s.requested_scope) || s.requested_scope.tests.len() > 0,
    ensures
        s.stage == RunStage::QueryingPhaseStatus ==> (run_step(
            s,
            RunEventView::UnityStatus { connected, in_play_mode: false },
        ).1 matches RunActionView::StartPhase { request, .. } && request.tests
            == s.requested_scope.tests && request.filter == UnityTestFilterView {
            test_mode: s.modes[s.next_mode as int],
            ..s.requested_scope.filter
        }),
        s.stage == RunStage::ExitingForPhase ==> (run_step(s, RunEventView::PlayModeExited(Ok(()))).1 matches RunActionView::StartPhase {
            request,
            ..
        } && request.tests == s.requested_scope.tests && request.filter == UnityTestFilterView {
            test_mode: s.modes[s.next_mode as int],
            ..s.requested_scope.filter
        }),
{
}

/// How many tests the first `j` fixtures hold together.
pub open spec fn tests_before(fixtures: Seq<UnityTestFixtureView>, j: int) -> int
    decreases j,
{
    if j <= 0 {
        0
    } else {
        tests_before(fixtures, j - 1) + fixtures[j - 1].tests.len()
    }
}

/// How many tests the first `i` assemblies hold together.
pub open spec fn assembly_tests_before(assemblies: Seq<UnityTestAssemblyView>, i: int) -> int
    decreases i,
{
    if i <= 0 {
        0
    } else {
        assembly_tests_before(assemblies, i - 1) + tests_before(
            assemblies[i - 1].fixtures,
            assemblies[i - 1].fixtures.len() as int,
        )
    }
}

proof fn lemma_tests_before_grows(fixtures: Seq<UnityTestFixtureView>, j1: int, j2: int)
    requires
        0 <= j1 <= j2,
    ensures
        tests_before(fixtures, j1) <= tests_before(fixtures, j2),
    decreases j2,
{
    if j1 < j2 {
        lemma_tests_before_grows(fixtures, j1, j2 - 1);
    }
}

proof fn lemma_tests_before_prefix(fixtures: Seq<UnityTestFixtureView>, n: int, j: int)
    requires
        0 <= j <= n <= fixtures.len(),
    ensures
        tests_before(fixtures.take(n), j) == tests_before(fixtures, j),
    decreases j,
{
    if j > 0 {
        lemma_tests_before_prefix(fixtures, n, j - 1);
        assert(fixtures.take(n)[j - 1] == fixtures[j - 1]);
    }
}

proof fn lemma_assembly_tests_before_grows(assemblies: Seq<UnityTestAssemblyView>, i1: int, i2: int)
    requires
        0 <= i1 <= i2,
    ensures
        assembly_tests_before(assemblies, i1) <= assembly_tests_before(assemblies, i2),
    decreases i2,
{
    if i1 < i2 {
        lemma_assembly_tests_before_grows(assemblies, i1, i2 - 1);
        let fs = assemblies[i2 - 1].fixtures;
        lemma_tests_before_grows(fs, 0, fs.len() as int);
    }
}

proof fn lemma_assembly_tests_before_prefix(assemblies: Seq<UnityTestAssemblyView>, n: int, i: int)
    requires
        0 <= i <= n <= assemblies.len(),
    ensures
        assembly_tests_before(assemblies.take(n), i) == assembly_tests_before(assemblies, i),
    decreases i,
{
    if i > 0 {
        lemma_assembly_tests_before_prefix(assemblies, n, i - 1);
        assert(assemblies.take(n)[i - 1] == assemblies[i - 1]);
    }
}

/// The targets of an assembly's fixtures are one per test, fixture after
/// fixture and test after test as discovered: the `k`-th test of the `j`-th
/// fixture is named, with that fixture's own name and the assembly's, right
/// after the tests of the fixtures before it.
pub proof fn law_fixture_targets_name_their_fixture(
    assembly: Seq<char>,
    fixtures: Seq<UnityTestFixtureView>,
)
    ensures
        fixture_targets(assembly, fixtures).len() == tests_before(fixtures, fixtures.len() as int),
        forall|j: int, k: int|
            #![trigger fixtures[j].tests[k]]
            0 <= j < fixtures.len() && 0 <= k < fixtures[j].tests.len() ==> fixture_targets(
                assembly,
                fixtures,
            )[tests_before(fixtures, j) + k] == test_target(
                assembly,
                fixtures[j].name,
                fixtures[j].tests[k].name,
            ),
    decreases fixtures.len(),
{
    if fixtures.len() > 0 {
        let n = fixtures.len() - 1;
        let init = fixtures.drop_last();
        assert(init =~= fixtures.take(n));
        law_fixture_targets_name_their_fixture(assembly, init);
        lemma_tests_before_prefix(fixtures, n, n);
        let all = fixture_targets(assembly, fixtures);
        let head = fixture_targets(assembly, init);
        let tail = method_targets(assembly, fixtures.last().name, fixtures.last().tests);
        assert(all == head + tail);
        assert forall|j: int, k: int|
            #![trigger fixtures[j].tests[k]]
            0 <= j < fixtures.len() && 0 <= k < fixtures[j].tests.len() implies all[tests_before(
                fixtures,
                j,
            ) + k] == test_target(assembly, fixtures[j].name, fixtures[j].tests[k].name) by {
            if j < n {
                lemma_tests_before_prefix(fixtures, n, j);
                lemma_tests_before_prefix(fixtures, n, j + 1);
                lemma_tests_before_grows(init, j + 1, n);
                lemma_tests_before_grows(init, 0, j);
                assert(init[j] == fixtures[j]);
                assert(init[j].tests[k] == fixtures[j].tests[k]);
                assert(tests_before(init, j + 1) == tests_before(init, j) + init[j].tests.len());
                assert(head.len() == tests_before(init, n));
                assert(tests_before(init, j) + k < head.len());
                assert(tests_before(fixtures, j) == tests_before(init, j));
                assert(all[tests_before(fixtures, j) + k] == head[tests_before(init, j) + k]);
            } else {
                lemma_tests_before_grows(fixtures, 0, j);
                assert(fixtures[j] == fixtures.last());
                assert(all[tests_before(fixtures, j) + k] == tail[k]);
            }
        }
    }
}

/// The targets that discovery resolves to are one per discovered test, in the
/// order of discovery: the `k`-th test of the `j`-th fixture of the `i`-th
/// assembly is named, with its own fixture's and assembly's names, right after
/// the tests before it.
pub proof fn law_discovered_targets_name_their_fixture(assemblies: Seq<UnityTestAssemblyView>)
    ensures
        assembly_targets(assemblies).len() == assembly_tests_before(assemblies, assemblies.len() as int),
        forall|i: int, j: int, k: int|
            #![trigger assemblies[i].fixtures[j].tests[k]]
            0 <= i < assemblies.len() && 0 <= j < assemblies[i].fixtures.len() && 0 <= k
                < assemblies[i].fixtures[j].tests.len() ==> assembly_targets(assemblies)[assembly_tests_before(
                assemblies,
                i,
            ) + tests_before(assemblies[i].fixtures, j) + k] == test_target(
                assemblies[i].name,
                assemblies[i].fixtures[j].name,
                assemblies[i].fixtures[j].tests[k].name,
            ),
    decreases assemblies.len(),
{
    if assemblies.len() > 0 {
        let n = assemblies.len() - 1;
        let init = assemblies.drop_last();
        assert(init =~= assemblies.take(n));
        law_discovered_targets_name_their_fixture(init);
        lemma_assembly_tests_before_prefix(assemblies, n, n);
        let last = assemblies.last();
        law_fixture_targets_name_their_fixture(last.name, last.fixtures);
        let all = assembly_targets(assemblies);
        let head = assembly_targets(init);
        let tail = fixture_targets(last.name, last.fixtures);
        assert(all == head + tail);
        assert forall|i: int, j: int, k: int|
            #![trigger assemblies[i].fixtures[j].tests[k]]
            0 <= i < assemblies.len() && 0 <= j < assemblies[i].fixtures.len() && 0 <= k
                < assemblies[i].fixtures[j].tests.len() implies all[assembly_tests_before(
                assemblies,
                i,
            ) + tests_before(assemblies[i].fixtures, j) + k] == test_target(
                assemblies[i].name,
                assemblies[i].fixtures[j].name,
                assemblies[i].fixtures[j].tests[k].name,
            ) by {
            let fs = assemblies[i].fixtures;
            lemma_tests_before_grows(fs, j + 1, fs.len() as int);
            lemma_tests_before_grows(fs, 0, j);
            lemma_assembly_tests_before_grows(assemblies, 0, i);
            if i < n {
                lemma_assembly_tests_before_prefix(assemblies, n, i);
                lemma_assembly_tests_before_prefix(assemblies, n, i + 1);
                lemma_assembly_tests_before_grows(init, i + 1, n);
                lemma_assembly_tests_before_grows(init, 0, i);
                assert(init[i] == assemblies[i]);
                assert(init[i].fixtures[j].tests[k] == assemblies[i].fixtures[j].tests[k]);
                assert(all[assembly_tests_before(assemblies, i) + tests_before(fs, j) + k]
                    == head[assembly_tests_before(init, i) + tests_before(init[i].fixtures, j) + k]);
            } else {
                assert(assemblies[i] == last);
                assert(last.fixtures[j].tests[k] == fs[j].tests[k]);
                assert(all[assembly_tests_before(assemblies, i) + tests_before(fs, j) + k]
                    == tail[tests_before(fs, j) + k]);
            }
        }
    }
}

/// A search that discovery resolves runs exactly the discovered tests: when
/// it found some, the phase is started with one target per discovered test,
/// in the order of discovery, under the phase's mode and the requested
/// assembly, with no other filter; when it found none, the phase is recorded
/// as passed with nothing run, and the run moves on.
pub proof fn law_search_runs_discovered_tests(s: TestRunView, discovery: UnityTestDiscoveryView)
    requires
        run_inv(s),
        s.stage == RunStage::FindingTests,
        has_search(s.requested_scope),
    ensures
        ({
            let (s1, a1) = run_step(s, RunEventView::TestsFound(Ok(discovery)));
            let found = assembly_targets(discovery.assemblies);
            &&& found.len() > 0 ==> (a1 matches RunActionView::StartPhase { request, .. }
                && request.tests == found && request.filter == UnityTestFilterView {
                test_mode: s.modes[s.next_mode as int],
                assembly_name: s.requested_scope.filter.assembly_name,
                fixture_name: None,
                test_name: None,
                search: None,
            })
            &&& found.len() == 0 ==> {
                &&& s1.phases.len() == s.phases.len() + 1
                &&& s1.phases.last().status == "passed"@
                &&& s1.phases.last().total == 0
                &&& s1.phases.last().results.len() == 0
            }
        }),
{
}

} // verus!
