//! Version-agnostic request and response types handled by the core handlers.

use vstd::prelude::*;
use crate::domain::{Message, Session, SessionId, SessionStatus, is_uuid_v4_text};

verus! {

/// Request to create a session.
pub struct CreateSessionRequest {
    pub provider_id: Option<String>,
    pub model: Option<String>,
}

/// A created session.
pub struct CreateSessionResponse {
    pub session: Session,
}

/// A fetched session.
pub struct GetSessionResponse {
    pub session: Session,
}

/// Outcome of sending a message: the updated session and the assistant's reply.
pub struct SendMessageResponse {
    pub session: Session,
    pub assistant_message: Message,
}

/// One provider in a provider listing.
pub struct ProviderSummary {
    pub id: String,
    pub display_name: String,
}

/// The registered providers, in registration order.
pub struct ListProvidersResponse {
    pub providers: Vec<ProviderSummary>,
}

/// A new active session bound to `provider_id`, with no messages, under a fresh
/// random version-4 UUID; `None` when no random bytes can be had.
pub fn new_session(provider_id: Option<String>) -> (r: Option<Session>)
    ensures
        r matches Some(s) ==> s.status == SessionStatus::Active && s.messages@.len() == 0 && s.provider_id
            == provider_id && is_uuid_v4_text(s.id.0@),
{
    match Session::new() {
        Some(base) => Some(
            Session { id: base.id, status: SessionStatus::Active, messages: Vec::new(), provider_id },
        ),
        None => None,
    }
}

} // verus!
