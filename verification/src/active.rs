//! At most one test run at a time: the slot that holds the id of the active
//! run, and the ids that runs get.

use vstd::prelude::*;
use vstd::string::*;

use crate::types::{error_of, UnityTestError, UnityTestErrorView};

verus! {

/// Whether `c` is a lower-case hexadecimal digit.
pub open spec fn is_lower_hex(c: char) -> bool {
    ('0' <= c && c <= '9') || ('a' <= c && c <= 'f')
}

/// `s` is a random (version 4) UUID in hyphenated lower-case form, such as
/// `67e55044-10b1-426f-9247-bb680e5fe0c8`.
pub open spec fn is_v4_uuid_text(s: Seq<char>) -> bool {
    &&& s.len() == 36
    &&& forall|i: int|
        0 <= i < 36 ==> if i == 8 || i == 13 || i == 18 || i == 23 {
            s[i] == '-'
        } else {
            is_lower_hex(#[trigger] s[i])
        }
    &&& s[14] == '4'
    &&& (s[19] == '8' || s[19] == '9' || s[19] == 'a' || s[19] == 'b')
}

/// A fresh random run id: `uuid::Uuid::new_v4()` in its `Display` form, which
/// the `uuid` crate writes hyphenated and in lower case, with the version
/// digit 4 and the variant bits 10. Which id comes out is chance.
#[verifier::external_body]
fn new_run_id() -> (id: String)
    ensures
        is_v4_uuid_text(id@),
{
    uuid::Uuid::new_v4().to_string()
}

/// The error of a run that is refused because another one is active.
pub open spec fn busy_error() -> UnityTestErrorView {
    error_of("busy"@, "A Unity test run is already active"@)
}

/// The view of an optional run id.
pub open spec fn active_view(slot: Option<String>) -> Option<Seq<char>> {
    match slot {
        Some(s) => Some(s@),
        None => None,
    }
}

/// The view of a claim's result.
pub open spec fn claim_view(r: Result<String, UnityTestError>) -> Result<Seq<char>, UnityTestErrorView> {
    match r {
        Ok(s) => Ok(s@),
        Err(e) => Err(e@),
    }
}

/// What claiming the slot for a run with the given id gives, and the slot
/// after: a slot that holds a run refuses with `busy` and stays as it is; an
/// empty one takes the id.
pub open spec fn claim_spec(slot: Option<Seq<char>>, id: Seq<char>) -> (
    Result<Seq<char>, UnityTestErrorView>,
    Option<Seq<char>>,
) {
    match slot {
        Some(held) => (Err(busy_error()), Some(held)),
        None => (Ok(id), Some(id)),
    }
}

/// Claims the slot for a new run under an id given by the caller.
pub fn claim_run_with_id(active: &mut Option<String>, run_id: String) -> (r: Result<
    String,
    UnityTestError,
>)
    ensures
        (claim_view(r), active_view(*final(active))) == claim_spec(
            active_view(*old(active)),
            run_id@,
        ),
{
    if active.is_some() {
        return Err(UnityTestError::new("busy", "A Unity test run is already active"));
    }
    let id = run_id.clone();
    *active = Some(run_id);
    Ok(id)
}

/// Claims the slot for a new run with a fresh random id, as
/// [`claim_run_with_id`] does.
pub fn claim_active_run(active: &mut Option<String>) -> (r: Result<String, UnityTestError>)
    ensures
        exists|id: Seq<char>|
            is_v4_uuid_text(id) && (claim_view(r), active_view(*final(active))) == claim_spec(
                active_view(*old(active)),
                id,
            ),
{
    let id = new_run_id();
    let ghost idv = id@;
    let r = claim_run_with_id(active, id);
    assert(is_v4_uuid_text(idv));
    r
}

/// Empties the slot when a run ends.
pub fn release_active_run(active: &mut Option<String>)
    ensures
        active_view(*final(active)) is None,
{
    *active = None;
}

} // verus!
