//! Core request handlers, written against the normalized adapter types.
//!
//! Sending a message is split in two around the provider call: `begin_message`
//! records the user message and builds the completion request; `finish_message`
//! assembles the streamed reply and stores it.

use vstd::prelude::*;
use crate::adapters::normalized::{
    CreateSessionRequest, CreateSessionResponse, GetSessionResponse, ListProvidersResponse,
    ProviderSummary, SendMessageResponse, new_session,
};
use crate::domain::{
    Message, MessageRole, MessageView, Session, SessionId, SessionStatus, SessionView, clone_messages,
    messages_view, opt_view, is_uuid_v4_text,
};
use crate::providers::{CompletionChunk, CompletionRequest, Provider, stub_reply};
use crate::registry::{ProviderEntry, ProviderRegistry, has_provider, ids_unique, resolve};
use crate::session_store::SessionStorePort;
use crate::text::{owned, concat2};
use crate::tools::ToolExecutor;

verus! {

/// Errors reported by the handlers.
#[derive(Debug)]
pub enum HandlerError {
    SessionNotFound(String),
    ProviderNotFound(String),
    Provider(String),
    Tool(String),
    /// The runtime could not do its own part (no random bytes for a session id).
    Internal(String),
}

impl HandlerError {
    /// The error's message: `session not found: <id>`, `provider not found: <id>`,
    /// `provider error: <m>`, `tool error: <m>`, `internal error: <m>`.
    pub fn message(&self) -> (r: String)
        ensures
            self matches HandlerError::SessionNotFound(id) ==> r@ == "session not found: "@ + id@,
            self matches HandlerError::ProviderNotFound(id) ==> r@ == "provider not found: "@ + id@,
            self matches HandlerError::Provider(m) ==> r@ == "provider error: "@ + m@,
            self matches HandlerError::Tool(m) ==> r@ == "tool error: "@ + m@,
            self matches HandlerError::Internal(m) ==> r@ == "internal error: "@ + m@,
    {
        match self {
            HandlerError::SessionNotFound(id) => concat2("session not found: ", id.as_str()),
            HandlerError::ProviderNotFound(id) => concat2("provider not found: ", id.as_str()),
            HandlerError::Provider(m) => concat2("provider error: ", m.as_str()),
            HandlerError::Tool(m) => concat2("tool error: ", m.as_str()),
            HandlerError::Internal(m) => concat2("internal error: ", m.as_str()),
        }
    }
}

/// Shared state of the handlers.
pub struct HandlerContext<S: SessionStorePort> {
    pub sessions: S,
    pub providers: ProviderRegistry,
    pub default_provider: Option<String>,
    pub default_model: Option<String>,
    pub tools: ToolExecutor,
}

/// A message send in progress: the session with the user message appended, the
/// provider that answers, and the completion request to send it.
pub struct PendingMessage {
    pub session: Session,
    pub provider_id: String,
    pub request: CompletionRequest,
}

/// Outcome of a streamed send: the chunks, the stored session and the reply.
pub struct StreamMessageResult {
    pub chunks: Vec<CompletionChunk>,
    pub session: Session,
    pub assistant_message: Message,
}

/// The provider a session talks to: the requested one, else the configured
/// default, else `openai`.
pub open spec fn chosen_provider(requested: Option<String>, default: Option<String>) -> Seq<char> {
    match requested {
        Some(p) => p@,
        None => match default {
            Some(d) => d@,
            None => "openai"@,
        },
    }
}

/// The model a completion asks for: the configured default, else `stub-model`.
pub open spec fn chosen_model(default: Option<String>) -> Seq<char> {
    match default {
        Some(m) => m@,
        None => "stub-model"@,
    }
}

/// Concatenation of the chunks' text.
pub open spec fn concat_deltas(chunks: Seq<CompletionChunk>) -> Seq<char>
    decreases chunks.len(),
{
    if chunks.len() == 0 {
        seq![]
    } else {
        concat_deltas(chunks.drop_last()) + chunks.last().delta@
    }
}

fn choose_provider(requested: &Option<String>, default: &Option<String>) -> (r: String)
    ensures
        r@ == chosen_provider(*requested, *default),
{
    match requested {
        Some(p) => p.clone(),
        None => match default {
            Some(d) => d.clone(),
            None => owned("openai"),
        },
    }
}

/// The provider a client names is the one its session gets, whatever default
/// is configured; without a name the configured default is taken, and
/// without either `openai`.
pub proof fn law_requested_provider_wins(requested: String, default: Option<String>, configured: String)
    ensures
        chosen_provider(Some(requested), default) == requested@,
        chosen_provider(None, Some(configured)) == configured@,
        chosen_provider(None, None) == "openai"@,
{
}

/// The assistant's text is the chunks' deltas joined in stream order: no
/// chunks give the empty text, one more chunk appends its delta at the end,
/// and the text of two runs of chunks one after the other is the first run's
/// text followed by the second's.
pub proof fn law_deltas_in_stream_order(chunks: Seq<CompletionChunk>, more: Seq<CompletionChunk>, c: CompletionChunk)
    ensures
        concat_deltas(seq![]) == Seq::<char>::empty(),
        concat_deltas(chunks.push(c)) == concat_deltas(chunks) + c.delta@,
        concat_deltas(chunks + more) == concat_deltas(chunks) + concat_deltas(more),
    decreases more.len(),
{
    assert(chunks.push(c).drop_last() =~= chunks);
    if more.len() == 0 {
        assert(chunks + more =~= chunks);
        assert(concat_deltas(chunks) + concat_deltas(more) =~= concat_deltas(chunks));
    } else {
        law_deltas_in_stream_order(chunks, more.drop_last(), c);
        assert((chunks + more).drop_last() =~= chunks + more.drop_last());
        assert((chunks + more).last() == more.last());
        assert(concat_deltas(chunks + more) =~= concat_deltas(chunks) + concat_deltas(more));
    }
}

impl<S: SessionStorePort> HandlerContext<S> {
    /// Creates a session bound to the chosen provider (see `chosen_provider`)
    /// under a fresh random version-4 UUID; fails with `ProviderNotFound` when
    /// that provider is not registered, and with `Internal("no random bytes for
    /// a session id")` when the operating system's random source fails.
    pub fn create_session(&mut self, req: CreateSessionRequest) -> (r: Result<
        CreateSessionResponse,
        HandlerError,
    >)
        ensures
            final(self).providers@ == old(self).providers@,
            final(self).default_provider == old(self).default_provider,
            final(self).default_model == old(self).default_model,
            has_provider(old(self).providers@, chosen_provider(req.provider_id, old(self).default_provider))
                ==> (r matches Ok(resp) && resp.session.status == SessionStatus::Active
                && resp.session.messages@.len() == 0 && opt_view(resp.session.provider_id) == Some(
                chosen_provider(req.provider_id, old(self).default_provider),
            ) && is_uuid_v4_text(resp.session.id.0@) && final(self).sessions.sessions()
                == old(self).sessions.sessions().insert(resp.session.id.0@, resp.session@)) || (r matches Err(
                HandlerError::Internal(m),
            ) && m@ == "no random bytes for a session id"@ && final(self).sessions.sessions() == old(
                self,
            ).sessions.sessions()),
            !has_provider(old(self).providers@, chosen_provider(req.provider_id, old(self).default_provider))
                ==> (r matches Err(HandlerError::ProviderNotFound(id)) && id@ == chosen_provider(
                req.provider_id,
                old(self).default_provider,
            ) && final(self).sessions.sessions() == old(self).sessions.sessions()),
            req.provider_id matches Some(p) ==> ((r matches Ok(resp) && opt_view(
                resp.session.provider_id,
            ) == Some(p@)) || (r matches Err(HandlerError::ProviderNotFound(id)) && id@ == p@) || (
            r matches Err(HandlerError::Internal(_)))),
    {
        let provider_id = choose_provider(&req.provider_id, &self.default_provider);
        if self.providers.get(provider_id.as_str()).is_none() {
            return Err(HandlerError::ProviderNotFound(provider_id));
        }
        let mut session = match new_session(Some(provider_id)) {
            Some(s) => s,
            None => {
                return Err(HandlerError::Internal(owned("no random bytes for a session id")));
            },
        };
        let id = self.sessions.insert(session.clone());
        session.id = id;
        Ok(CreateSessionResponse { session })
    }

    /// The session stored under `session_id`.
    pub fn get_session(&self, session_id: &str) -> (r: Result<GetSessionResponse, HandlerError>)
        ensures
            self.sessions.sessions().contains_key(session_id@) ==> (r matches Ok(resp)
                && resp.session@ == self.sessions.sessions()[session_id@]),
            !self.sessions.sessions().contains_key(session_id@) ==> (r matches Err(
                HandlerError::SessionNotFound(id),
            ) && id@ == session_id@),
    {
        let id = SessionId(owned(session_id));
        match self.sessions.get(&id) {
            Some(session) => Ok(GetSessionResponse { session }),
            None => Err(HandlerError::SessionNotFound(owned(session_id))),
        }
    }

    /// The messages of the session stored under `session_id`.
    pub fn list_messages(&self, session_id: &str) -> (r: Result<Vec<Message>, HandlerError>)
        ensures
            self.sessions.sessions().contains_key(session_id@) ==> (r matches Ok(ms) && messages_view(
                ms@,
            ) == self.sessions.sessions()[session_id@].messages),
            !self.sessions.sessions().contains_key(session_id@) ==> (r matches Err(
                HandlerError::SessionNotFound(id),
            ) && id@ == session_id@),
    {
        match self.get_session(session_id) {
            Ok(resp) => Ok(resp.session.messages),
            Err(e) => Err(e),
        }
    }

    /// Deletes the session stored under `session_id`.
    pub fn delete_session(&mut self, session_id: &str) -> (r: Result<(), HandlerError>)
        ensures
            final(self).sessions.sessions() == old(self).sessions.sessions().remove(session_id@),
            final(self).providers@ == old(self).providers@,
            old(self).sessions.sessions().contains_key(session_id@) ==> r is Ok,
            !old(self).sessions.sessions().contains_key(session_id@) ==> (r matches Err(
                HandlerError::SessionNotFound(id),
            ) && id@ == session_id@),
    {
        let id = SessionId(owned(session_id));
        if !self.sessions.delete(&id) {
            return Err(HandlerError::SessionNotFound(owned(session_id)));
        }
        Ok(())
    }

    /// Ids of all stored sessions, each once.
    pub fn list_sessions(&self) -> (r: Vec<String>)
        ensures
            forall|i: int, j: int| 0 <= i < j < r@.len() ==> r@[i]@ != r@[j]@,
            forall|i: int| 0 <= i < r@.len() ==> self.sessions.sessions().contains_key(#[trigger] r@[i]@),
            forall|k: Seq<char>|
                self.sessions.sessions().contains_key(k) ==> exists|i: int| 0 <= i < r@.len() && r@[i]@ == k,
    {
        let ids = self.sessions.list_ids();
        let mut r: Vec<String> = Vec::new();
        let mut i: usize = 0;
        while i < ids.len()
            invariant
                i <= ids@.len(),
                r@.len() == i,
                forall|j: int| 0 <= j < i ==> r@[j]@ == ids@[j].0@,
            decreases ids@.len() - i,
        {
            r.push(ids[i].0.clone());
            i = i + 1;
        }
        proof {
            assert forall|k: Seq<char>| self.sessions.sessions().contains_key(k) implies exists|i: int|
                0 <= i < r@.len() && r@[i]@ == k by {
                let i = choose|i: int| 0 <= i < ids@.len() && ids@[i].0@ == k;
                assert(r@[i]@ == k);
            }
            assert forall|i: int| 0 <= i < r@.len() implies self.sessions.sessions().contains_key(
                #[trigger] r@[i]@,
            ) by {
                assert(ids@[i].0@ == r@[i]@);
            }
        }
        r
    }

    /// The registered providers with their display names, in registration order.
    pub fn list_providers(&self) -> (r: ListProvidersResponse)
        ensures
            r.providers@.len() == self.providers@.len(),
            forall|i: int|
                0 <= i < r.providers@.len() ==> r.providers@[i].id@ == self.providers@[i].spec_id()
                    && r.providers@[i].display_name@ == self.providers@[i].spec_display_name(),
    {
        let mut out: Vec<ProviderSummary> = Vec::new();
        let n = self.providers.len();
        let mut i: usize = 0;
        while i < n
            invariant
                n == self.providers@.len(),
                i <= n,
                out@.len() == i,
                forall|j: int|
                    0 <= j < i ==> out@[j].id@ == self.providers@[j].spec_id()
                        && out@[j].display_name@ == self.providers@[j].spec_display_name(),
            decreases n - i,
        {
            let e = self.providers.entry(i);
            out.push(
                ProviderSummary { id: e.id().0.clone(), display_name: owned(e.display_name()) },
            );
            i = i + 1;
        }
        ListProvidersResponse { providers: out }
    }

    /// First half of sending a message: appends the user message to the stored
    /// session and builds the completion request for the session's provider
    /// (its own, else the default, else `openai`).
    pub fn begin_message(&self, session_id: &str, content: String) -> (r: Result<
        PendingMessage,
        HandlerError,
    >)
        ensures
            !self.sessions.sessions().contains_key(session_id@) ==> (r matches Err(
                HandlerError::SessionNotFound(id),
            ) && id@ == session_id@),
            self.sessions.sessions().contains_key(session_id@) ==> {
                let s = self.sessions.sessions()[session_id@];
                let pid = match s.provider_id {
                    Some(p) => p,
                    None => match self.default_provider {
                        Some(d) => d@,
                        None => "openai"@,
                    },
                };
                &&& !has_provider(self.providers@, pid) ==> (r matches Err(
                    HandlerError::ProviderNotFound(id),
                ) && id@ == pid)
                &&& has_provider(self.providers@, pid) ==> (r matches Ok(p) && p.provider_id@ == pid
                    && p.session@ == SessionView {
                    messages: s.messages.push(
                        MessageView { role: MessageRole::User, content: content@, provider: None },
                    ),
                    ..s
                } && messages_view(p.request.messages@) == p.session@.messages && p.request.model@
                    == chosen_model(self.default_model) && p.request.max_tokens is None)
            },
    {
        let id = SessionId(owned(session_id));
        let mut session = match self.sessions.get(&id) {
            Some(s) => s,
            None => {
                return Err(HandlerError::SessionNotFound(owned(session_id)));
            },
        };
        let provider_id = match &session.provider_id {
            Some(p) => p.clone(),
            None => match &self.default_provider {
                Some(d) => d.clone(),
                None => owned("openai"),
            },
        };
        match resolve(&self.providers, provider_id.as_str()) {
            Ok(_) => {},
            Err(_) => {
                return Err(HandlerError::ProviderNotFound(provider_id));
            },
        }
        let ghost before = session.messages@;
        session.messages.push(Message { role: MessageRole::User, content, provider: None });
        assert(messages_view(session.messages@) =~= messages_view(before).push(
            MessageView { role: MessageRole::User, content: content@, provider: None },
        ));
        let model = match &self.default_model {
            Some(m) => m.clone(),
            None => owned("stub-model"),
        };
        let request = CompletionRequest {
            model,
            messages: clone_messages(&session.messages),
            max_tokens: None,
        };
        Ok(PendingMessage { session, provider_id, request })
    }

    /// The reply of a provider that answers without a network call (a stub),
    /// `None` for the others.
    pub fn complete_locally(&self, pending: &PendingMessage) -> (r: Option<Vec<CompletionChunk>>)
        ensures
            r is Some <==> exists|i: int|
                0 <= i < self.providers@.len() && self.providers@[i].spec_id() == pending.provider_id@
                    && self.providers@[i] is Stub,
            r matches Some(chunks) ==> chunks@.len() == 1 && chunks@[0].delta@ == stub_reply(
                pending.provider_id@,
                pending.request.messages@.len(),
            ) && (chunks@[0].finish_reason matches Some(f) && f@ == "stop"@),
    {
        let found = self.providers.get(pending.provider_id.as_str());
        proof {
            assert(ids_unique(self.providers@));
        }
        match found {
            Some(ProviderEntry::Stub(stub)) => {
                let req = CompletionRequest {
                    model: pending.request.model.clone(),
                    messages: clone_messages(&pending.request.messages),
                    max_tokens: pending.request.max_tokens,
                };
                Some(stub.complete_stream(req))
            },
            _ => None,
        }
    }

    /// Second half of sending a message: the assistant reply is the
    /// concatenation of the chunks, attributed to the provider; it is appended
    /// to the session, which is stored.
    pub fn finish_message(&mut self, pending: PendingMessage, chunks: Vec<CompletionChunk>) -> (r:
        StreamMessageResult)
        ensures
            r.assistant_message@ == (MessageView {
                role: MessageRole::Assistant,
                content: concat_deltas(chunks@),
                provider: Some(pending.provider_id@),
            }),
            r.session@ == (SessionView {
                messages: pending.session@.messages.push(r.assistant_message@),
                ..pending.session@
            }),
            r.chunks@ == chunks@,
            final(self).sessions.sessions() == old(self).sessions.sessions().insert(
                pending.session.id.0@,
                r.session@,
            ),
            final(self).providers@ == old(self).providers@,
    {
        let mut content = String::new();
        let mut i: usize = 0;
        while i < chunks.len()
            invariant
                i <= chunks@.len(),
                content@ == concat_deltas(chunks@.take(i as int)),
            decreases chunks@.len() - i,
        {
            content.append(chunks[i].delta.as_str());
            i = i + 1;
            assert(chunks@.take(i as int).drop_last() =~= chunks@.take((i - 1) as int));
        }
        assert(chunks@.take(chunks@.len() as int) =~= chunks@);
        let assistant_message = Message {
            role: MessageRole::Assistant,
            content,
            provider: Some(pending.provider_id),
        };
        let mut session = pending.session;
        let ghost before = session.messages@;
        session.messages.push(assistant_message.clone());
        assert(messages_view(session.messages@) =~= messages_view(before).push(assistant_message@));
        self.sessions.update(session.clone());
        StreamMessageResult { chunks, session, assistant_message }
    }
}

impl StreamMessageResult {
    /// The non-streaming response: the stored session and the reply.
    pub fn into_response(self) -> (r: SendMessageResponse)
        ensures
            r.session == self.session,
            r.assistant_message == self.assistant_message,
    {
        SendMessageResponse { session: self.session, assistant_message: self.assistant_message }
    }
}

/// Sending a message adds exactly two messages to the session — the user's and
/// then the assistant's — and keeps the earlier transcript.
pub proof fn law_send_appends_user_then_assistant(
    stored: SessionView,
    pending: SessionView,
    result: SessionView,
    user: MessageView,
    assistant: MessageView,
)
    requires
        pending == (SessionView { messages: stored.messages.push(user), ..stored }),
        result == (SessionView { messages: pending.messages.push(assistant), ..pending }),
    ensures
        result.messages.len() == stored.messages.len() + 2,
        result.messages.take(stored.messages.len() as int) == stored.messages,
        result.messages[stored.messages.len() as int] == user,
        result.messages[stored.messages.len() + 1int] == assistant,
        result.id == stored.id,
        result.provider_id == stored.provider_id,
{
    assert(result.messages.take(stored.messages.len() as int) =~= stored.messages);
}

} // verus!
