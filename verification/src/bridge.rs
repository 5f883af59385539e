//! How replies of the editor bridge are read: which reply carries a message,
//! and which error code a failure gets.

use vstd::prelude::*;
use vstd::string::*;

use crate::text::{contains, contains_text, same_text, trim, trim_text};
use crate::types::{error_of, opt_str, PipeResponse, PipeResponseView, UnityTestError, UnityTestErrorView, UnityTestPhaseResult, UnityTestPhaseResultView};

verus! {

/// A result carrying a string or an error, by its view.
pub open spec fn text_result(r: Result<String, UnityTestError>) -> Result<Seq<char>, UnityTestErrorView> {
    match r {
        Ok(s) => Ok(s@),
        Err(e) => Err(e@),
    }
}

/// The error code of a transport failure with the given text.
pub open spec fn transport_code(error: Seq<char>) -> Seq<char> {
    if contains(error, "disconnected"@) || contains(error, "connect"@) || contains(error, "pipe"@) {
        "unity_disconnected"@
    } else {
        "unknown"@
    }
}

/// The error of a transport failure with the given text: the text is the message.
pub open spec fn transport_error(error: Seq<char>) -> UnityTestErrorView {
    error_of(transport_code(error), error)
}

/// The error code of a refused request with the given text.
pub open spec fn refusal_code(message: Seq<char>) -> Seq<char> {
    if message == "busy"@ {
        "busy"@
    } else if message == "test_framework_missing"@ {
        "test_framework_missing"@
    } else if contains(message, "pipe"@) || contains(message, "disconnected"@) {
        "unity_disconnected"@
    } else {
        "unknown"@
    }
}

/// What a bridge reply amounts to: its message (empty when it carries none)
/// if the bridge accepted the request, else the error that the refusal
/// text (or a default text) describes.
pub open spec fn reply_outcome(r: PipeResponseView) -> Result<Seq<char>, UnityTestErrorView> {
    if r.ok {
        Ok(
            match r.message {
                Some(m) => m,
                None => Seq::<char>::empty(),
            },
        )
    } else {
        let message = match r.error {
            Some(e) => e,
            None => "Unity test request failed"@,
        };
        Err(error_of(refusal_code(message), message))
    }
}

/// The error for a transport failure: `unity_disconnected` where the text
/// speaks of a disconnection, a connection or a pipe, else `unknown`.
pub fn map_transport_error(error: String) -> (e: UnityTestError)
    ensures
        e@ == transport_error(error@),
{
    let lost = contains_text(error.as_str(), "disconnected") || contains_text(
        error.as_str(),
        "connect",
    ) || contains_text(error.as_str(), "pipe");
    if lost {
        UnityTestError { code: String::from_str("unity_disconnected"), message: error }
    } else {
        UnityTestError { code: String::from_str("unknown"), message: error }
    }
}

/// The message of an accepted reply, or the error of a refused one.
pub fn ok_message(response: PipeResponse) -> (r: Result<String, UnityTestError>)
    ensures
        text_result(r) == reply_outcome(response@),
{
    if response.ok {
        return match response.message {
            Some(m) => Ok(m),
            None => Ok(String::new()),
        };
    }
    let message = match response.error {
        Some(e) => e,
        None => String::from_str("Unity test request failed"),
    };
    let code = if same_text(message.as_str(), "busy") {
        "busy"
    } else if same_text(message.as_str(), "test_framework_missing") {
        "test_framework_missing"
    } else if contains_text(message.as_str(), "pipe") || contains_text(
        message.as_str(),
        "disconnected",
    ) {
        "unity_disconnected"
    } else {
        "unknown"
    };
    Err(UnityTestError { code: String::from_str(code), message })
}

/// What a transport call that returns a bridge reply amounts to: the mapped
/// transport error, or what the reply amounts to.
pub open spec fn call_outcome(reply: Result<PipeResponseView, Seq<char>>) -> Result<
    Seq<char>,
    UnityTestErrorView,
> {
    match reply {
        Ok(r) => reply_outcome(r),
        Err(e) => Err(transport_error(e)),
    }
}

/// The view of a transport result.
pub open spec fn reply_view(reply: Result<PipeResponse, String>) -> Result<PipeResponseView, Seq<char>> {
    match reply {
        Ok(r) => Ok(r@),
        Err(e) => Err(e@),
    }
}

/// The message that a transport call yields, or its error.
pub fn call_message(reply: Result<PipeResponse, String>) -> (r: Result<String, UnityTestError>)
    ensures
        text_result(r) == call_outcome(reply_view(reply)),
{
    match reply {
        Ok(response) => ok_message(response),
        Err(error) => Err(map_transport_error(error)),
    }
}

/// What a progress query amounts to: the mapped transport error when the
/// call failed; nothing when the bridge was busy, refused the query or sent
/// no message; else the message, to be read as progress.
pub open spec fn progress_outcome(reply: Result<Option<PipeResponseView>, Seq<char>>) -> Result<
    Option<Seq<char>>,
    UnityTestErrorView,
> {
    match reply {
        Err(e) => Err(transport_error(e)),
        Ok(None) => Ok(None),
        Ok(Some(r)) => if r.ok {
            Ok(r.message)
        } else {
            Ok(None)
        },
    }
}

/// The view of a progress query's transport result.
pub open spec fn progress_reply_view(reply: Result<Option<PipeResponse>, String>) -> Result<
    Option<PipeResponseView>,
    Seq<char>,
> {
    match reply {
        Ok(Some(r)) => Ok(Some(r@)),
        Ok(None) => Ok(None),
        Err(e) => Err(e@),
    }
}

/// The view of a progress query's outcome.
pub open spec fn progress_result_view(r: Result<Option<String>, UnityTestError>) -> Result<
    Option<Seq<char>>,
    UnityTestErrorView,
> {
    match r {
        Ok(m) => Ok(opt_str(m)),
        Err(e) => Err(e@),
    }
}

/// What a progress query's reply amounts to: the transport error, nothing to
/// read, or the message to read as progress.
pub fn progress_message(reply: Result<Option<PipeResponse>, String>) -> (r: Result<
    Option<String>,
    UnityTestError,
>)
    ensures
        progress_result_view(r) == progress_outcome(progress_reply_view(reply)),
{
    match reply {
        Err(error) => Err(map_transport_error(error)),
        Ok(None) => Ok(None),
        Ok(Some(response)) => if response.ok {
            Ok(response.message)
        } else {
            Ok(None)
        },
    }
}

/// A status with which a phase ends normally.
pub open spec fn is_final_status(status: Seq<char>) -> bool {
    status == "passed"@ || status == "failed"@
}

/// The trimmed text of an optional string, empty where there is none.
pub open spec fn trimmed_or_empty(o: Option<Seq<char>>) -> Seq<char> {
    match o {
        Some(s) => trim(s),
        None => trim(Seq::<char>::empty()),
    }
}

/// The error that a phase result reports when its status is not final: its
/// trimmed error code (or `unknown`), and its trimmed error message or, if that
/// is blank, a message naming the phase and its status.
pub open spec fn phase_failure(p: UnityTestPhaseResultView) -> UnityTestErrorView {
    let code = trimmed_or_empty(p.error_code);
    let message = trimmed_or_empty(p.error_message);
    error_of(
        if code.len() == 0 {
            "unknown"@
        } else {
            code
        },
        if message.len() == 0 {
            "Unity test phase '"@ + p.test_mode + "' ended with status '"@ + p.status + "'"@
        } else {
            message
        },
    )
}

/// What a phase result amounts to: itself if its status is `passed` or
/// `failed`, else the error it reports.
pub open spec fn phase_verdict(p: UnityTestPhaseResultView) -> Result<
    UnityTestPhaseResultView,
    UnityTestErrorView,
> {
    if is_final_status(p.status) {
        Ok(p)
    } else {
        Err(phase_failure(p))
    }
}

/// The view of a phase result or an error.
pub open spec fn phase_result_view(r: Result<UnityTestPhaseResult, UnityTestError>) -> Result<
    UnityTestPhaseResultView,
    UnityTestErrorView,
> {
    match r {
        Ok(p) => Ok(p@),
        Err(e) => Err(e@),
    }
}

fn trimmed_option(o: &Option<String>) -> (t: String)
    ensures
        t@ == trimmed_or_empty(opt_str(*o)),
{
    match o {
        Some(s) => {
            assert(opt_str(*o) == Some(s@));
            trim_text(s.as_str())
        },
        None => {
            let t = trim_text("");
            assert(""@ =~= Seq::<char>::empty()) by {
                reveal_strlit("");
            }
            t
        },
    }
}

/// Accepts a phase result whose status is final, or gives the error it reports.
pub fn check_phase_result(phase: UnityTestPhaseResult) -> (r: Result<
    UnityTestPhaseResult,
    UnityTestError,
>)
    ensures
        phase_result_view(r) == phase_verdict(phase@),
{
    if same_text(phase.status.as_str(), "passed") || same_text(phase.status.as_str(), "failed") {
        return Ok(phase);
    }
    let code = trimmed_option(&phase.error_code);
    let message = trimmed_option(&phase.error_message);
    let code = if code.as_str().unicode_len() == 0 {
        String::from_str("unknown")
    } else {
        code
    };
    let message = if message.as_str().unicode_len() == 0 {
        let m = String::from_str("Unity test phase '");
        let m = m.concat(phase.test_mode.as_str());
        let m = m.concat("' ended with status '");
        let m = m.concat(phase.status.as_str());
        m.concat("'")
    } else {
        message
    };
    Err(UnityTestError { code, message })
}

} // verus!
