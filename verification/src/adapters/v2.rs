//! v2 wire format and its conversion to and from the normalized types.

use vstd::prelude::*;
use crate::adapters::normalized::{CreateSessionRequest, CreateSessionResponse, SendMessageResponse};
use crate::domain::Session;
use crate::handlers::HandlerError;
use crate::text::{owned, concat2};

verus! {

/// v2 create-session request.
pub struct V2CreateSessionRequest {
    pub provider_id: Option<String>,
    pub model: Option<String>,
}

/// v2 create-session response: the whole session.
pub struct V2CreateSessionResponse {
    pub session: Session,
}

/// v2 send-message request.
pub struct V2SendMessageRequest {
    pub content: String,
}

/// v2 send-message response: the reply text and the updated session.
pub struct V2SendMessageResponse {
    pub content: String,
    pub session: Session,
}

/// v2 error body.
pub struct V2ErrorResponse {
    pub code: String,
    pub message: String,
}

/// v2 create-session request → normalized form.
pub fn normalize_create_session(req: V2CreateSessionRequest) -> (r: CreateSessionRequest)
    ensures
        r.provider_id == req.provider_id,
        r.model == req.model,
{
    CreateSessionRequest { provider_id: req.provider_id, model: req.model }
}

/// Normalized create-session response → v2 wire format (the session unchanged).
pub fn denormalize_create_session(resp: CreateSessionResponse) -> (r: V2CreateSessionResponse)
    ensures
        r.session == resp.session,
{
    V2CreateSessionResponse { session: resp.session }
}

/// Normalized send-message response → v2 wire format.
pub fn denormalize_send_message(resp: SendMessageResponse) -> (r: V2SendMessageResponse)
    ensures
        r.content == resp.assistant_message.content,
        r.session == resp.session,
{
    V2SendMessageResponse { content: resp.assistant_message.content, session: resp.session }
}

/// HTTP status and v2 body for a handler error: `not_found` 404 (the id),
/// `invalid_provider` 400 (`unknown provider: <id>`), `provider_error` 502,
/// `tool_error` 400.
pub fn v2_error(err: HandlerError) -> (r: (u16, V2ErrorResponse))
    ensures
        err matches HandlerError::SessionNotFound(id) ==> r.0 == 404 && r.1.code@ == "not_found"@
            && r.1.message == id,
        err matches HandlerError::ProviderNotFound(id) ==> r.0 == 400 && r.1.code@
            == "invalid_provider"@ && r.1.message@ == "unknown provider: "@ + id@,
        err matches HandlerError::Provider(m) ==> r.0 == 502 && r.1.code@ == "provider_error"@
            && r.1.message == m,
        err matches HandlerError::Tool(m) ==> r.0 == 400 && r.1.code@ == "tool_error"@ && r.1.message
            == m,
        err matches HandlerError::Internal(m) ==> r.0 == 500 && r.1.code@ == "internal_error"@
            && r.1.message == m,
{
    match err {
        HandlerError::SessionNotFound(id) => (
            404,
            V2ErrorResponse { code: owned("not_found"), message: id },
        ),
        HandlerError::ProviderNotFound(id) => (
            400,
            V2ErrorResponse {
                code: owned("invalid_provider"),
                message: concat2("unknown provider: ", id.as_str()),
            },
        ),
        HandlerError::Provider(m) => (
            502,
            V2ErrorResponse { code: owned("provider_error"), message: m },
        ),
        HandlerError::Tool(m) => (400, V2ErrorResponse { code: owned("tool_error"), message: m }),
        HandlerError::Internal(m) => (500, V2ErrorResponse { code: owned("internal_error"), message: m }),
    }
}

} // verus!
