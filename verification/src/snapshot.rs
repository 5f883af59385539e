//! The record of a finished run: counts summed over phases, the results of
//! all phases, the terminal status, and what a run returns.

use vstd::prelude::*;
use vstd::string::*;
use vstd::wrapping::u32_specs::wrapping_add;

use crate::text::same_text;
use crate::types::{
    phases_view, results_view, Timestamp, UnityTestError, UnityTestErrorView,
    UnityTestPhaseResult, UnityTestPhaseResultView, UnityTestPreparation,
    UnityTestPreparationView, UnityTestResult, UnityTestResultView, UnityTestRunRequest,
    UnityTestRunRequestView, UnityTestSnapshot, UnityTestSnapshotView, UnityTestSummary,
};

verus! {

/// The counts of a summary with those of one more phase added, each count
/// wrapping around at 2^32 as `u32` addition does in a release build.
pub open spec fn add_phase(acc: UnityTestSummary, phase: UnityTestPhaseResultView) -> UnityTestSummary {
    UnityTestSummary {
        total: wrapping_add(acc.total, phase.total),
        passed: wrapping_add(acc.passed, phase.passed),
        failed: wrapping_add(acc.failed, phase.failed),
        skipped: wrapping_add(acc.skipped, phase.skipped),
    }
}

/// The counts of all phases summed, starting from zero, phase by phase.
pub open spec fn summary_of(phases: Seq<UnityTestPhaseResultView>) -> UnityTestSummary
    decreases phases.len(),
{
    if phases.len() == 0 {
        UnityTestSummary { total: 0, passed: 0, failed: 0, skipped: 0 }
    } else {
        add_phase(summary_of(phases.drop_last()), phases.last())
    }
}

/// The counts of the phases summed.
pub fn summarize(phases: &Vec<UnityTestPhaseResult>) -> (summary: UnityTestSummary)
    ensures
        summary == summary_of(phases_view(phases@)),
{
    let ghost ps = phases_view(phases@);
    let mut acc = UnityTestSummary { total: 0, passed: 0, failed: 0, skipped: 0 };
    let mut i: usize = 0;
    assert(ps.take(0) =~= Seq::<UnityTestPhaseResultView>::empty());
    while i < phases.len()
        invariant
            i <= phases.len(),
            ps == phases_view(phases@),
            acc == summary_of(ps.take(i as int)),
        decreases phases.len() - i,
    {
        let p = &phases[i];
        acc = UnityTestSummary {
            total: acc.total.wrapping_add(p.total),
            passed: acc.passed.wrapping_add(p.passed),
            failed: acc.failed.wrapping_add(p.failed),
            skipped: acc.skipped.wrapping_add(p.skipped),
        };
        proof {
            assert(ps.take(i + 1).drop_last() =~= ps.take(i as int));
            assert(ps.take(i + 1).last() == ps[i as int]);
        }
        i = i + 1;
    }
    assert(ps.take(i as int) =~= ps);
    acc
}

/// The results of all phases, phase after phase.
pub open spec fn all_results(phases: Seq<UnityTestPhaseResultView>) -> Seq<UnityTestResultView>
    decreases phases.len(),
{
    if phases.len() == 0 {
        Seq::empty()
    } else {
        all_results(phases.drop_last()) + phases.last().results
    }
}

/// The results of all phases, phase after phase.
pub fn collect_results(phases: &Vec<UnityTestPhaseResult>) -> (results: Vec<UnityTestResult>)
    ensures
        results_view(results@) == all_results(phases_view(phases@)),
{
    let ghost ps = phases_view(phases@);
    let mut out: Vec<UnityTestResult> = Vec::new();
    let mut i: usize = 0;
    assert(ps.take(0) =~= Seq::<UnityTestPhaseResultView>::empty());
    assert(results_view(out@) =~= Seq::<UnityTestResultView>::empty());
    while i < phases.len()
        invariant
            i <= phases.len(),
            ps == phases_view(phases@),
            results_view(out@) == all_results(ps.take(i as int)),
        decreases phases.len() - i,
    {
        let rs = &phases[i].results;
        let ghost before = results_view(out@);
        let mut k: usize = 0;
        while k < rs.len()
            invariant
                k <= rs.len(),
                results_view(out@) == before + results_view(rs@).take(k as int),
            decreases rs.len() - k,
        {
            let ghost prev = out@;
            out.push(rs[k].duplicate());
            proof {
                assert(results_view(rs@).take(k + 1) =~= results_view(rs@).take(k as int).push(
                    rs@[k as int]@,
                ));
                assert(results_view(out@) =~= results_view(prev).push(rs@[k as int]@));
            }
            k = k + 1;
        }
        proof {
            assert(results_view(rs@).take(k as int) =~= results_view(rs@));
            assert(ps.take(i + 1).drop_last() =~= ps.take(i as int));
            assert(ps.take(i + 1).last() == ps[i as int]);
        }
        i = i + 1;
    }
    assert(ps.take(i as int) =~= ps);
    out
}

/// The terminal status of a run whose phases all ran: `completed_failed` when
/// a test failed, else `completed`.
pub open spec fn completed_status(summary: UnityTestSummary) -> Seq<char> {
    if summary.failed > 0 {
        "completed_failed"@
    } else {
        "completed"@
    }
}

/// The terminal status of a run that ended with an error of the given code.
pub open spec fn failed_status(code: Seq<char>) -> Seq<char> {
    if code == "cancelled"@ {
        "cancelled"@
    } else if code == "compile_failed"@ {
        "prepare_error"@
    } else {
        "runtime_error"@
    }
}

/// The snapshot of a run whose phases all ran.
pub open spec fn completed_snapshot(
    run_id: Seq<char>,
    started_at: Timestamp,
    finished_at: Timestamp,
    preparation: UnityTestPreparationView,
    requested_scope: UnityTestRunRequestView,
    phases: Seq<UnityTestPhaseResultView>,
) -> UnityTestSnapshotView {
    UnityTestSnapshotView {
        run_id,
        started_at,
        finished_at,
        terminal_status: completed_status(summary_of(phases)),
        preparation,
        requested_scope,
        phase_summaries: phases,
        total_summary: summary_of(phases),
        results: all_results(phases),
        error: None,
    }
}

/// The preparation recorded for a run that ended with an error.
pub open spec fn failed_preparation(error: UnityTestErrorView) -> UnityTestPreparationView {
    UnityTestPreparationView { method: "unknown"@, status: "error"@, message: Some(error.message) }
}

/// The snapshot of a run that ended with an error: no phases, no results,
/// zero counts.
pub open spec fn failed_snapshot(
    run_id: Seq<char>,
    started_at: Timestamp,
    finished_at: Timestamp,
    requested_scope: UnityTestRunRequestView,
    error: UnityTestErrorView,
) -> UnityTestSnapshotView {
    UnityTestSnapshotView {
        run_id,
        started_at,
        finished_at,
        terminal_status: failed_status(error.code),
        preparation: failed_preparation(error),
        requested_scope,
        phase_summaries: Seq::empty(),
        total_summary: UnityTestSummary { total: 0, passed: 0, failed: 0, skipped: 0 },
        results: Seq::empty(),
        error: Some(error),
    }
}

/// The snapshot of a run whose phases all ran.
pub fn build_completed_snapshot(
    run_id: String,
    started_at: Timestamp,
    finished_at: Timestamp,
    preparation: UnityTestPreparation,
    requested_scope: UnityTestRunRequest,
    phases: Vec<UnityTestPhaseResult>,
) -> (snapshot: UnityTestSnapshot)
    ensures
        snapshot@ == completed_snapshot(
            run_id@,
            started_at,
            finished_at,
            preparation@,
            requested_scope@,
            phases_view(phases@),
        ),
{
    let results = collect_results(&phases);
    let total_summary = summarize(&phases);
    let terminal_status = if total_summary.failed > 0 {
        String::from_str("completed_failed")
    } else {
        String::from_str("completed")
    };
    UnityTestSnapshot {
        run_id,
        started_at,
        finished_at,
        terminal_status,
        preparation,
        requested_scope,
        phase_summaries: phases,
        total_summary,
        results,
        error: None,
    }
}

/// The snapshot of a run that ended with the given error.
pub fn build_failed_snapshot(
    run_id: String,
    started_at: Timestamp,
    finished_at: Timestamp,
    requested_scope: UnityTestRunRequest,
    error: UnityTestError,
) -> (snapshot: UnityTestSnapshot)
    ensures
        snapshot@ == failed_snapshot(run_id@, started_at, finished_at, requested_scope@, error@),
{
    let terminal_status = if same_text(error.code.as_str(), "cancelled") {
        String::from_str("cancelled")
    } else if same_text(error.code.as_str(), "compile_failed") {
        String::from_str("prepare_error")
    } else {
        String::from_str("runtime_error")
    };
    let preparation = UnityTestPreparation {
        method: String::from_str("unknown"),
        status: String::from_str("error"),
        message: Some(error.message.clone()),
    };
    let snapshot = UnityTestSnapshot {
        run_id,
        started_at,
        finished_at,
        terminal_status,
        preparation,
        requested_scope,
        phase_summaries: Vec::new(),
        total_summary: UnityTestSummary { total: 0, passed: 0, failed: 0, skipped: 0 },
        results: Vec::new(),
        error: Some(error),
    };
    assert(snapshot@.phase_summaries =~= Seq::<UnityTestPhaseResultView>::empty());
    assert(snapshot@.results =~= Seq::<UnityTestResultView>::empty());
    snapshot
}

/// What a run returns with its snapshot: the snapshot's error if it has one,
/// else the snapshot.
pub open spec fn run_outcome(snapshot: UnityTestSnapshotView) -> Result<
    UnityTestSnapshotView,
    UnityTestErrorView,
> {
    match snapshot.error {
        Some(e) => Err(e),
        None => Ok(snapshot),
    }
}

/// The view of what a run returns.
pub open spec fn run_result_view(r: Result<UnityTestSnapshot, UnityTestError>) -> Result<
    UnityTestSnapshotView,
    UnityTestErrorView,
> {
    match r {
        Ok(s) => Ok(s@),
        Err(e) => Err(e@),
    }
}

/// What a run returns with its snapshot.
pub fn run_result(snapshot: UnityTestSnapshot) -> (r: Result<UnityTestSnapshot, UnityTestError>)
    ensures
        run_result_view(r) == run_outcome(snapshot@),
{
    match snapshot.error {
        Some(e) => Err(e),
        None => Ok(snapshot),
    }
}

} // verus!
