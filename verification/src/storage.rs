//! The errors of the calls around a run that the caller carries out: looking
//! up tests, cancelling them, and storing and loading the latest snapshot.

use vstd::prelude::*;
use vstd::string::*;

use crate::bridge::{call_message, call_outcome, reply_view};
use crate::types::{error_of, PipeResponse, UnityTestError, UnityTestErrorView};

verus! {

/// A step of storing or loading the latest snapshot, or of asking for tests,
/// that can fail.
#[derive(Clone, Copy, Debug, PartialEq, Eq, Structural)]
pub enum FailedStep {
    /// Turning a test lookup request into JSON.
    EncodeFindRequest,
    /// Reading the JSON of a test lookup reply.
    DecodeDiscovery,
    /// Creating the directory of the snapshot.
    CreateResultsDir,
    /// Turning the snapshot into JSON.
    EncodeSnapshot,
    /// Writing the snapshot file.
    WriteSnapshot,
    /// Reading the snapshot file.
    ReadSnapshot,
    /// Reading the JSON of the snapshot file.
    DecodeSnapshot,
}

/// The text put before the cause of a failure of the given step.
pub open spec fn step_prefix(step: FailedStep) -> Seq<char> {
    match step {
        FailedStep::EncodeFindRequest => "Failed to serialize test find request: "@,
        FailedStep::DecodeDiscovery => "Invalid Unity test discovery response: "@,
        FailedStep::CreateResultsDir => "Failed to create test-results directory: "@,
        FailedStep::EncodeSnapshot => Seq::empty(),
        FailedStep::WriteSnapshot => "Failed to write latest Unity test snapshot: "@,
        FailedStep::ReadSnapshot => "Failed to read latest Unity test snapshot: "@,
        FailedStep::DecodeSnapshot => "Invalid latest Unity test snapshot: "@,
    }
}

/// The error of a failed step: code `unknown`, and the step's text followed by
/// the cause.
pub open spec fn step_error(step: FailedStep, cause: Seq<char>) -> UnityTestErrorView {
    error_of("unknown"@, step_prefix(step) + cause)
}

/// The error of a failed step with the given cause.
pub fn failed_step_error(step: FailedStep, cause: &str) -> (e: UnityTestError)
    ensures
        e@ == step_error(step, cause@),
{
    let prefix = match step {
        FailedStep::EncodeFindRequest => "Failed to serialize test find request: ",
        FailedStep::DecodeDiscovery => "Invalid Unity test discovery response: ",
        FailedStep::CreateResultsDir => "Failed to create test-results directory: ",
        FailedStep::EncodeSnapshot => "",
        FailedStep::WriteSnapshot => "Failed to write latest Unity test snapshot: ",
        FailedStep::ReadSnapshot => "Failed to read latest Unity test snapshot: ",
        FailedStep::DecodeSnapshot => "Invalid latest Unity test snapshot: ",
    };
    proof {
        if step == FailedStep::EncodeSnapshot {
            reveal_strlit("");
            assert(prefix@ =~= Seq::<char>::empty());
        }
    }
    UnityTestError { code: String::from_str("unknown"), message: String::from_str(prefix).concat(cause) }
}

/// What a call to cancel the tests amounts to: nothing when the bridge took it,
/// else the transport error or the refusal.
pub open spec fn cancel_outcome(reply: Result<crate::types::PipeResponseView, Seq<char>>) -> Result<
    (),
    UnityTestErrorView,
> {
    match call_outcome(reply) {
        Ok(_) => Ok(()),
        Err(e) => Err(e),
    }
}

/// The view of a cancellation's result.
pub open spec fn unit_result_view(r: Result<(), UnityTestError>) -> Result<(), UnityTestErrorView> {
    match r {
        Ok(_) => Ok(()),
        Err(e) => Err(e@),
    }
}

/// What the bridge's reply to a cancellation amounts to.
pub fn cancel_result(reply: Result<PipeResponse, String>) -> (r: Result<(), UnityTestError>)
    ensures
        unit_result_view(r) == cancel_outcome(reply_view(reply)),
{
    match call_message(reply) {
        Ok(_) => Ok(()),
        Err(e) => Err(e),
    }
}

/// The error code under which the latest snapshot's failure is reported to
/// the user interface: the run error's code with `unity_test.` before it.
pub fn latest_snapshot_error_code(error: &UnityTestError) -> (code: String)
    ensures
        code@ == "unity_test."@ + error.code@,
{
    String::from_str("unity_test.").concat(error.code.as_str())
}

} // verus!
