//! v1 wire format and its conversion to and from the normalized types.

use vstd::prelude::*;
use crate::adapters::normalized::{
    CreateSessionRequest, CreateSessionResponse, ListProvidersResponse, SendMessageResponse,
};
use crate::adapters::status::{session_status_str, status_name};
use crate::handlers::HandlerError;
use crate::text::{owned, concat2};

verus! {

/// v1 create-session request.
pub struct V1CreateSessionRequest {
    pub provider: Option<String>,
    pub model: Option<String>,
}

/// v1 create-session (and get-session) response.
pub struct V1CreateSessionResponse {
    pub id: String,
    pub status: String,
    pub provider: Option<String>,
}

/// v1 send-message request.
pub struct V1SendMessageRequest {
    pub content: String,
}

/// v1 send-message response.
pub struct V1SendMessageResponse {
    pub content: String,
    pub session_id: String,
}

/// v1 provider listing.
pub struct V1ListProvidersResponse {
    pub providers: Vec<V1ProviderSummary>,
}

/// One provider in a v1 listing.
pub struct V1ProviderSummary {
    pub id: String,
    pub name: String,
}

/// v1 error body.
pub struct V1ErrorResponse {
    pub error: String,
}

/// v1 create-session request → normalized form.
pub fn normalize_create_session(req: V1CreateSessionRequest) -> (r: CreateSessionRequest)
    ensures
        r.provider_id == req.provider,
        r.model == req.model,
{
    CreateSessionRequest { provider_id: req.provider, model: req.model }
}

/// Normalized create-session response → v1 wire format.
pub fn denormalize_create_session(resp: CreateSessionResponse) -> (r: V1CreateSessionResponse)
    ensures
        r.id == resp.session.id.0,
        r.status@ == status_name(resp.session.status),
        r.provider == resp.session.provider_id,
{
    V1CreateSessionResponse {
        id: resp.session.id.0,
        status: owned(session_status_str(resp.session.status)),
        provider: resp.session.provider_id,
    }
}

/// v1 send-message request → the message content.
pub fn normalize_send_message(req: V1SendMessageRequest) -> (r: String)
    ensures
        r == req.content,
{
    req.content
}

/// Normalized send-message response → v1 wire format: the reply text and the session id.
pub fn denormalize_send_message(resp: SendMessageResponse) -> (r: V1SendMessageResponse)
    ensures
        r.content == resp.assistant_message.content,
        r.session_id == resp.session.id.0,
{
    V1SendMessageResponse { content: resp.assistant_message.content, session_id: resp.session.id.0 }
}

/// Normalized provider listing → v1 wire format (`display_name` becomes `name`).
pub fn denormalize_list_providers(resp: ListProvidersResponse) -> (r: V1ListProvidersResponse)
    ensures
        r.providers@.len() == resp.providers@.len(),
        forall|i: int|
            0 <= i < r.providers@.len() ==> r.providers@[i].id == resp.providers@[i].id
                && r.providers@[i].name == resp.providers@[i].display_name,
{
    let mut out: Vec<V1ProviderSummary> = Vec::new();
    let mut i: usize = 0;
    while i < resp.providers.len()
        invariant
            i <= resp.providers@.len(),
            out@.len() == i,
            forall|j: int|
                0 <= j < i ==> out@[j].id == resp.providers@[j].id && out@[j].name
                    == resp.providers@[j].display_name,
        decreases resp.providers@.len() - i,
    {
        let p = &resp.providers[i];
        out.push(V1ProviderSummary { id: p.id.clone(), name: p.display_name.clone() });
        i = i + 1;
    }
    V1ListProvidersResponse { providers: out }
}

/// HTTP status and v1 body for a handler error: unknown session 404 (the id),
/// unknown provider 400 (`unknown provider: <id>`), provider failure 502, tool
/// failure 400.
pub fn v1_error(err: HandlerError) -> (r: (u16, V1ErrorResponse))
    ensures
        err matches HandlerError::SessionNotFound(id) ==> r.0 == 404 && r.1.error == id,
        err matches HandlerError::ProviderNotFound(id) ==> r.0 == 400 && r.1.error@ == "unknown provider: "@
            + id@,
        err matches HandlerError::Provider(m) ==> r.0 == 502 && r.1.error == m,
        err matches HandlerError::Tool(m) ==> r.0 == 400 && r.1.error == m,
        err matches HandlerError::Internal(m) ==> r.0 == 500 && r.1.error == m,
{
    match err {
        HandlerError::SessionNotFound(id) => (404, V1ErrorResponse { error: id }),
        HandlerError::ProviderNotFound(id) => (
            400,
            V1ErrorResponse { error: concat2("unknown provider: ", id.as_str()) },
        ),
        HandlerError::Provider(m) => (502, V1ErrorResponse { error: m }),
        HandlerError::Tool(m) => (400, V1ErrorResponse { error: m }),
        HandlerError::Internal(m) => (500, V1ErrorResponse { error: m }),
    }
}

} // verus!
