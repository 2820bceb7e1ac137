//! Wire names of session states.

use vstd::prelude::*;
use crate::domain::SessionStatus;
use crate::text::str_eq;

verus! {

/// Lower-case wire name of a session state.
pub open spec fn status_name(s: SessionStatus) -> Seq<char> {
    match s {
        SessionStatus::Active => "active"@,
        SessionStatus::Idle => "idle"@,
        SessionStatus::Completed => "completed"@,
        SessionStatus::Error => "error"@,
    }
}

/// Lower-case wire name of a session state.
pub fn session_status_str(status: SessionStatus) -> (r: &'static str)
    ensures
        r@ == status_name(status),
{
    match status {
        SessionStatus::Active => "active",
        SessionStatus::Idle => "idle",
        SessionStatus::Completed => "completed",
        SessionStatus::Error => "error",
    }
}

/// The session state with the given wire name, if any.
pub open spec fn status_named(name: Seq<char>) -> Option<SessionStatus> {
    if name == "active"@ {
        Some(SessionStatus::Active)
    } else if name == "idle"@ {
        Some(SessionStatus::Idle)
    } else if name == "completed"@ {
        Some(SessionStatus::Completed)
    } else if name == "error"@ {
        Some(SessionStatus::Error)
    } else {
        None
    }
}

/// Reads a stored or received wire name back into a session state.
pub fn parse_session_status(name: &str) -> (r: Option<SessionStatus>)
    ensures
        r == status_named(name@),
{
    if str_eq(name, "active") {
        Some(SessionStatus::Active)
    } else if str_eq(name, "idle") {
        Some(SessionStatus::Idle)
    } else if str_eq(name, "completed") {
        Some(SessionStatus::Completed)
    } else if str_eq(name, "error") {
        Some(SessionStatus::Error)
    } else {
        None
    }
}

/// Every session state reads back from its wire name, and distinct states have
/// distinct names.
pub proof fn law_status_name_round_trip(s: SessionStatus)
    ensures
        status_named(status_name(s)) == Some(s),
{
    reveal_strlit("active");
    reveal_strlit("idle");
    reveal_strlit("completed");
    reveal_strlit("error");
    assert("active"@.len() == 6 && "idle"@.len() == 4 && "completed"@.len() == 9 && "error"@.len() == 5);
}

} // verus!
