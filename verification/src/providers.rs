//! LLM provider model: identifiers, requests and responses, the stub provider,
//! the OpenAI-compatible request/response shaping, and the provider registry.
//!
//! Network calls happen outside this module; it builds the request bodies and
//! reads the response bodies.

use vstd::prelude::*;
use crate::domain::{Message, MessageRole, clone_messages};
use crate::json::{JsonValue, json_get, json_str, json_str_field, entries_of, lemma_lookup_index, lemma_lookup_absent};
use crate::text::{owned, str_eq, chars_of, string_of, trim_end_char, trim_end_char_vec, decimal,
    usize_to_decimal, u64_to_decimal, concat2};

verus! {

/// Stable provider identifier (e.g. `"anthropic"`, `"openai"`, `"ollama"`).
pub struct ProviderId(pub String);

impl ProviderId {
    /// A provider id.
    pub fn new(id: String) -> (r: Self)
        ensures
            r.0 == id,
    {
        ProviderId(id)
    }
}

impl Clone for ProviderId {
    fn clone(&self) -> (r: Self)
        ensures
            r == *self,
    {
        ProviderId(self.0.clone())
    }
}

/// A model offered by a provider.
pub struct ModelInfo {
    pub id: String,
    pub display_name: Option<String>,
    pub context_window: Option<u32>,
}

/// A chat completion request.
pub struct CompletionRequest {
    pub model: String,
    pub messages: Vec<Message>,
    pub max_tokens: Option<u32>,
}

/// A chat completion response.
pub struct CompletionResponse {
    pub content: String,
    pub model: String,
    pub finish_reason: Option<String>,
}

/// One streamed piece of a completion.
pub struct CompletionChunk {
    pub delta: String,
    pub finish_reason: Option<String>,
}

/// Errors of the provider layer.
#[derive(Debug)]
pub enum ProviderError {
    NotFound(String),
    AlreadyRegistered(String),
    ProviderFailure { provider: String, message: String },
    ModelNotFound { provider: String, model: String },
}

/// Concatenation of string pieces.
fn join3(a: &str, b: &str, c: &str) -> (r: String)
    ensures
        r@ == a@ + b@ + c@,
{
    let ab = crate::text::concat2(a, b);
    crate::text::concat2(ab.as_str(), c)
}

impl ProviderError {
    /// The error's message: `provider not found: <id>`, `provider already
    /// registered: <id>`, `provider error (<provider>): <message>`,
    /// `model not found: <provider>/<model>`.
    pub fn message(&self) -> (r: String)
        ensures
            self matches ProviderError::NotFound(id) ==> r@ == "provider not found: "@ + id@,
            self matches ProviderError::AlreadyRegistered(id) ==> r@ == "provider already registered: "@ + id@,
            self matches ProviderError::ProviderFailure { provider, message } ==> r@ == "provider error ("@
                + provider@ + "): "@ + message@,
            self matches ProviderError::ModelNotFound { provider, model } ==> r@ == "model not found: "@
                + provider@ + "/"@ + model@,
    {
        match self {
            ProviderError::NotFound(id) => crate::text::concat2("provider not found: ", id.as_str()),
            ProviderError::AlreadyRegistered(id) => crate::text::concat2(
                "provider already registered: ",
                id.as_str(),
            ),
            ProviderError::ProviderFailure { provider, message } => {
                let head = join3("provider error (", provider.as_str(), "): ");
                crate::text::concat2(head.as_str(), message.as_str())
            },
            ProviderError::ModelNotFound { provider, model } => join3(
                "model not found: ",
                provider.as_str(),
                crate::text::concat2("/", model.as_str()).as_str(),
            ),
        }
    }
}

/// Common identity of every provider adapter.
pub trait Provider {
    /// The provider's id.
    spec fn spec_id(&self) -> Seq<char>;

    /// The provider's human-readable name.
    spec fn spec_display_name(&self) -> Seq<char>;

    fn id(&self) -> (r: &ProviderId)
        ensures
            r.0@ == self.spec_id(),
    ;

    fn display_name(&self) -> (r: &str)
        ensures
            r@ == self.spec_display_name(),
    ;
}

// ---------------------------------------------------------------------------
// Stub provider
// ---------------------------------------------------------------------------

/// Stub provider for scaffolding and tests: answers without any network call.
pub struct StubProvider {
    pub id: ProviderId,
}

/// The stub's completion text: `[stub:<id>] received <n> messages`.
pub open spec fn stub_reply(id: Seq<char>, n: nat) -> Seq<char> {
    "[stub:"@ + id + "] received "@ + decimal(n) + " messages"@
}

impl StubProvider {
    /// A stub provider with the given id.
    pub fn new(id: String) -> (r: Self)
        ensures
            r.id.0 == id,
    {
        StubProvider { id: ProviderId::new(id) }
    }

    /// The stub's single model.
    pub fn list_models(&self) -> (r: Vec<ModelInfo>)
        ensures
            r@.len() == 1,
            r@[0].id@ == "stub-model"@,
            r@[0].display_name matches Some(n) && n@ == "Stub Model"@,
            r@[0].context_window == Some(8192u32),
    {
        let mut v: Vec<ModelInfo> = Vec::new();
        v.push(
            ModelInfo {
                id: owned("stub-model"),
                display_name: Some(owned("Stub Model")),
                context_window: Some(8192),
            },
        );
        v
    }

    /// Answers with `[stub:<id>] received <n> messages`, finish reason `stop`.
    pub fn complete(&self, request: CompletionRequest) -> (r: CompletionResponse)
        ensures
            r.content@ == stub_reply(self.id.0@, request.messages@.len()),
            r.model == request.model,
            r.finish_reason matches Some(f) && f@ == "stop"@,
    {
        let mut content = owned("[stub:");
        content.append(self.id.0.as_str());
        content.append("] received ");
        let n = usize_to_decimal(request.messages.len());
        content.append(n.as_str());
        content.append(" messages");
        CompletionResponse { content, model: request.model, finish_reason: Some(owned("stop")) }
    }

    /// The completion as a stream: a single chunk carrying the whole reply.
    pub fn complete_stream(&self, request: CompletionRequest) -> (r: Vec<CompletionChunk>)
        ensures
            r@.len() == 1,
            r@[0].delta@ == stub_reply(self.id.0@, request.messages@.len()),
            r@[0].finish_reason matches Some(f) && f@ == "stop"@,
    {
        let resp = self.complete(request);
        let mut v: Vec<CompletionChunk> = Vec::new();
        v.push(CompletionChunk { delta: resp.content, finish_reason: resp.finish_reason });
        v
    }
}

impl Provider for StubProvider {
    open spec fn spec_id(&self) -> Seq<char> {
        self.id.0@
    }

    open spec fn spec_display_name(&self) -> Seq<char> {
        "Stub Provider"@
    }

    fn id(&self) -> (r: &ProviderId) {
        &self.id
    }

    fn display_name(&self) -> (r: &str) {
        "Stub Provider"
    }
}

// ---------------------------------------------------------------------------
// OpenAI-compatible provider
// ---------------------------------------------------------------------------

/// OpenAI-compatible Chat Completions provider settings.
pub struct OpenAiProvider {
    pub id: ProviderId,
    pub base_url: String,
    pub api_key_env: String,
}

/// Wire name of a message role.
pub open spec fn role_name(r: MessageRole) -> Seq<char> {
    match r {
        MessageRole::System => "system"@,
        MessageRole::User => "user"@,
        MessageRole::Assistant => "assistant"@,
        MessageRole::Tool => "tool"@,
    }
}

/// Wire name of a message role.
pub fn role_str(r: MessageRole) -> (s: &'static str)
    ensures
        s@ == role_name(r),
{
    match r {
        MessageRole::System => "system",
        MessageRole::User => "user",
        MessageRole::Assistant => "assistant",
        MessageRole::Tool => "tool",
    }
}

/// `base` without trailing slashes, followed by `suffix`.
pub open spec fn endpoint(base: Seq<char>, suffix: Seq<char>) -> Seq<char> {
    trim_end_char(base, '/') + suffix
}

pub(crate) fn endpoint_str(base: &str, suffix: &str) -> (r: String)
    ensures
        r@ == endpoint(base@, suffix@),
{
    let b = chars_of(base);
    let t = trim_end_char_vec(b.as_slice(), '/');
    let mut r = string_of(t.as_slice());
    r.append(suffix);
    r
}

/// The JSON message object `{"role": .., "content": ..}` for one message.
pub open spec fn message_json_ok(v: JsonValue, m: Message) -> bool {
    json_str_field(v, "role"@) == Some(role_name(m.role)) && json_str_field(v, "content"@) == Some(
        m.content@,
    ) && v is Object && entries_of(v).len() == 2
}

/// The elements of an array value.
pub open spec fn array_elems(v: Option<JsonValue>) -> Option<Seq<JsonValue>> {
    match v {
        Some(JsonValue::Array(a)) => Some(a@),
        _ => None,
    }
}

/// `response.choices[0]`.
pub open spec fn first_choice(resp: JsonValue) -> Option<JsonValue> {
    match array_elems(json_get(resp, "choices"@)) {
        Some(a) => if a.len() > 0 { Some(a[0]) } else { None },
        None => None,
    }
}

/// `response.choices[0].message.content`, when it is a string.
pub open spec fn choice_content(resp: JsonValue) -> Option<Seq<char>> {
    match first_choice(resp) {
        Some(c) => match json_get(c, "message"@) {
            Some(m) => json_str_field(m, "content"@),
            None => None,
        },
        None => None,
    }
}

/// `response.choices[0].finish_reason`, when it is a string.
pub open spec fn choice_finish(resp: JsonValue) -> Option<Seq<char>> {
    match first_choice(resp) {
        Some(c) => json_str_field(c, "finish_reason"@),
        None => None,
    }
}

pub(crate) fn first_elem(v: Option<&JsonValue>) -> (r: Option<&JsonValue>)
    ensures
        r matches Some(e) ==> (match v {
            Some(x) => array_elems(Some(*x)) matches Some(a) && a.len() > 0 && a[0] == *e,
            None => false,
        }),
        r is None ==> (match v {
            Some(x) => !(array_elems(Some(*x)) matches Some(a) && a.len() > 0),
            None => true,
        }),
{
    match v {
        Some(JsonValue::Array(a)) => if a.len() > 0 { Some(&a[0]) } else { None },
        _ => None,
    }
}

/// The ids of a list of models.
pub open spec fn model_ids(s: Seq<ModelInfo>) -> Seq<Seq<char>> {
    s.map_values(|m: ModelInfo| m.id@)
}

/// The messages a request body carries: all of them, or all but the system
/// messages.
pub open spec fn selected_messages(ms: Seq<Message>, skip_system: bool) -> Seq<Message> {
    if skip_system {
        ms.filter(|m: Message| m.role != MessageRole::System)
    } else {
        ms
    }
}

/// `{"role": .., "content": ..}` for one message.
pub fn message_json(m: &Message) -> (r: JsonValue)
    ensures
        message_json_ok(r, *m),
{
    let role = owned("role");
    let content = owned("content");
    let rv = JsonValue::string(role_str(m.role));
    let cv = JsonValue::Str(m.content.clone());
    proof {
        reveal_strlit("role");
        reveal_strlit("content");
        assert("role"@.len() == 4);
        assert("content"@.len() == 7);
    }
    let obj = JsonValue::Object(vec![(role, rv), (content, cv)]);
    proof {
        let e = entries_of(obj);
        lemma_lookup_index(e, "role"@, 0);
        lemma_lookup_index(e, "content"@, 1);
    }
    obj
}

/// The JSON objects of the selected messages, in order.
pub fn messages_json(messages: &Vec<Message>, skip_system: bool) -> (r: Vec<JsonValue>)
    ensures
        r@.len() == selected_messages(messages@, skip_system).len(),
        forall|i: int|
            0 <= i < r@.len() ==> message_json_ok(#[trigger] r@[i], selected_messages(messages@, skip_system)[i]),
{
    let ghost pred = |m: Message| m.role != MessageRole::System;
    let mut msgs: Vec<JsonValue> = Vec::new();
    let mut i: usize = 0;
    while i < messages.len()
        invariant
            i <= messages@.len(),
            pred == (|m: Message| m.role != MessageRole::System),
            msgs@.len() == selected_messages(messages@.take(i as int), skip_system).len(),
            forall|j: int|
                0 <= j < msgs@.len() ==> message_json_ok(
                    #[trigger] msgs@[j],
                    selected_messages(messages@.take(i as int), skip_system)[j],
                ),
        decreases messages@.len() - i,
    {
        proof {
            reveal(Seq::filter);
            assert(messages@.take(i + 1).drop_last() =~= messages@.take(i as int));
            assert(messages@.take(i + 1).last() == messages@[i as int]);
        }
        let m = &messages[i];
        let keep = !skip_system || m.role != MessageRole::System;
        let ghost prev = selected_messages(messages@.take(i as int), skip_system);
        if keep {
            let ghost before = msgs@;
            msgs.push(message_json(m));
            proof {
                if skip_system {
                    assert(pred(messages@[i as int]));
                    assert(messages@.take(i + 1).filter(pred) == messages@.take(i as int).filter(pred).push(
                        messages@[i as int],
                    ));
                } else {
                    assert(messages@.take(i + 1) =~= messages@.take(i as int).push(messages@[i as int]));
                }
                assert(selected_messages(messages@.take(i + 1), skip_system) == prev.push(*m));
                assert forall|j: int| 0 <= j < msgs@.len() implies message_json_ok(
                    #[trigger] msgs@[j],
                    selected_messages(messages@.take(i + 1), skip_system)[j],
                ) by {
                    if j < before.len() {
                        assert(msgs@[j] == before[j]);
                    }
                }
            }
        } else {
            proof {
                assert(!pred(messages@[i as int]));
                assert(messages@.take(i + 1).filter(pred) == messages@.take(i as int).filter(pred));
            }
        }
        i = i + 1;
    }
    assert(messages@.take(messages@.len() as int) =~= messages@);
    msgs
}

/// Every element of the array `body[list]` that has a string `key`, read as a
/// model id.
pub open spec fn named_model_ids(body: JsonValue, list: Seq<char>, key: Seq<char>) -> Seq<Seq<char>> {
    match array_elems(json_get(body, list)) {
        Some(d) => d.filter(|e: JsonValue| json_str_field(e, key) is Some).map_values(
            |e: JsonValue| json_str_field(e, key).unwrap(),
        ),
        None => seq![],
    }
}

/// Reads a model list: the string `key` of every element of the array
/// `body[list]` that has one, as models without name or context window.
pub fn parse_named_models(body: &JsonValue, list: &str, key: &str) -> (r: Vec<ModelInfo>)
    ensures
        forall|i: int| 0 <= i < r@.len() ==> r@[i].display_name is None && r@[i].context_window is None,
        model_ids(r@) == named_model_ids(*body, list@, key@),
{
    let mut out: Vec<ModelInfo> = Vec::new();
    match body.get(list) {
        Some(JsonValue::Array(d)) => {
            let ghost pred = |e: JsonValue| json_str_field(e, key@) is Some;
            let ghost f = |e: JsonValue| json_str_field(e, key@).unwrap();
            let mut i: usize = 0;
            while i < d.len()
                invariant
                    i <= d@.len(),
                    pred == (|e: JsonValue| json_str_field(e, key@) is Some),
                    f == (|e: JsonValue| json_str_field(e, key@).unwrap()),
                    forall|k: int| 0 <= k < out@.len() ==> out@[k].display_name is None && out@[k].context_window is None,
                    model_ids(out@) == d@.take(i as int).filter(pred).map_values(f),
                decreases d@.len() - i,
            {
                proof {
                    reveal(Seq::filter);
                    assert(d@.take(i + 1).drop_last() =~= d@.take(i as int));
                }
                match d[i].get_str(key) {
                    Some(id) => {
                        assert(d@.take(i + 1).last() == d@[i as int]);
                        assert(pred(d@[i as int]));
                        assert(d@.take(i + 1).filter(pred) == d@.take(i as int).filter(pred).push(d@[i as int]));
                        let ghost prev = out@;
                        out.push(ModelInfo { id: id.clone(), display_name: None, context_window: None });
                        assert(out@ == prev.push(out@.last()));
                        assert(model_ids(out@) =~= model_ids(prev).push(id@));
                        assert(f(d@[i as int]) == id@);
                        assert(model_ids(out@) =~= d@.take(i + 1).filter(pred).map_values(f));
                    },
                    None => {
                        assert(d@.take(i + 1).last() == d@[i as int]);
                        assert(!pred(d@[i as int]));
                        assert(d@.take(i + 1).filter(pred) == d@.take(i as int).filter(pred));
                        assert(model_ids(out@) =~= d@.take(i + 1).filter(pred).map_values(f));
                    },
                }
                i = i + 1;
            }
            assert(d@.take(d@.len() as int) =~= d@);
        },
        _ => {
            assert(model_ids(out@) =~= named_model_ids(*body, list@, key@));
        },
    }
    out
}

impl OpenAiProvider {
    /// Provider `openai` at `https://api.openai.com/v1`, key from `OPENAI_API_KEY`.
    pub fn new() -> (r: Self)
        ensures
            r.id.0@ == "openai"@,
            r.base_url@ == "https://api.openai.com/v1"@,
            r.api_key_env@ == "OPENAI_API_KEY"@,
    {
        OpenAiProvider {
            id: ProviderId::new(owned("openai")),
            base_url: owned("https://api.openai.com/v1"),
            api_key_env: owned("OPENAI_API_KEY"),
        }
    }

    /// The same provider with another base URL.
    pub fn with_base_url(self, base_url: String) -> (r: Self)
        ensures
            r.base_url == base_url,
            r.id == self.id,
            r.api_key_env == self.api_key_env,
    {
        OpenAiProvider { base_url, ..self }
    }

    /// The same provider reading its key from another environment variable.
    pub fn with_api_key_env(self, env: String) -> (r: Self)
        ensures
            r.api_key_env == env,
            r.id == self.id,
            r.base_url == self.base_url,
    {
        OpenAiProvider { api_key_env: env, ..self }
    }

    /// `<base>/chat/completions`.
    pub fn chat_completions_url(&self) -> (r: String)
        ensures
            r@ == endpoint(self.base_url@, "/chat/completions"@),
    {
        endpoint_str(self.base_url.as_str(), "/chat/completions")
    }

    /// `<base>/models`.
    pub fn models_url(&self) -> (r: String)
        ensures
            r@ == endpoint(self.base_url@, "/models"@),
    {
        endpoint_str(self.base_url.as_str(), "/models")
    }

    /// The `Authorization` header value for an API key.
    pub fn bearer(key: &str) -> (r: String)
        ensures
            r@ == "Bearer "@ + key@,
    {
        concat2("Bearer ", key)
    }

    /// Request body: `{"model": .., "messages": [{"role", "content"}..]}` plus
    /// `max_tokens` when the request sets it.
    pub fn chat_request_body(request: &CompletionRequest) -> (r: JsonValue)
        ensures
            json_str_field(r, "model"@) == Some(request.model@),
            array_elems(json_get(r, "messages"@)) matches Some(ms) && ms.len()
                == request.messages@.len() && forall|i: int|
                0 <= i < ms.len() ==> message_json_ok(#[trigger] ms[i], request.messages@[i]),
            request.max_tokens matches Some(n) ==> json_get(r, "max_tokens"@) matches Some(
                JsonValue::Number(t),
            ) && t@ == decimal(n as nat),
            request.max_tokens is None ==> json_get(r, "max_tokens"@) is None,
            r is Object,
            entries_of(r).len() == (if request.max_tokens is Some { 3int } else { 2int }),
    {
        let msgs = messages_json(&request.messages, false);
        let model_key = owned("model");
        let messages_key = owned("messages");
        proof {
            reveal_strlit("model");
            reveal_strlit("messages");
            reveal_strlit("max_tokens");
            assert("model"@.len() == 5);
            assert("messages"@.len() == 8);
            assert("max_tokens"@.len() == 10);
        }
        let mut entries: Vec<(String, JsonValue)> = vec![
            (model_key, JsonValue::Str(request.model.clone())),
            (messages_key, JsonValue::Array(msgs)),
        ];
        match request.max_tokens {
            Some(n) => {
                entries.push((owned("max_tokens"), JsonValue::Number(u64_to_decimal(n as u64))));
            },
            None => {},
        }
        let body = JsonValue::Object(entries);
        proof {
            let e = entries_of(body);
            lemma_lookup_index(e, "model"@, 0);
            lemma_lookup_index(e, "messages"@, 1);
            if request.max_tokens is Some {
                lemma_lookup_index(e, "max_tokens"@, 2);
            } else {
                lemma_lookup_absent(e, "max_tokens"@);
            }
        }
        body
    }

    /// Reads a chat completion response: content from
    /// `choices[0].message.content` (empty when absent), finish reason from
    /// `choices[0].finish_reason`.
    pub fn parse_chat_response(response: &JsonValue, model: String) -> (r: CompletionResponse)
        ensures
            r.content@ == (match choice_content(*response) {
                Some(c) => c,
                None => Seq::<char>::empty(),
            }),
            r.model == model,
            match choice_finish(*response) {
                Some(f) => r.finish_reason matches Some(g) && g@ == f,
                None => r.finish_reason is None,
            },
    {
        let choice = first_elem(response.get("choices"));
        let content = match choice {
            Some(c) => match c.get("message") {
                Some(m) => match m.get_str("content") {
                    Some(s) => s.clone(),
                    None => String::new(),
                },
                None => String::new(),
            },
            None => String::new(),
        };
        let finish = match choice {
            Some(c) => match c.get_str("finish_reason") {
                Some(s) => Some(s.clone()),
                None => None,
            },
            None => None,
        };
        CompletionResponse { content, model, finish_reason: finish }
    }

    /// Reads a model list response: every element of `data` that has a string `id`.
    pub fn parse_model_list(body: &JsonValue) -> (r: Vec<ModelInfo>)
        ensures
            forall|i: int| 0 <= i < r@.len() ==> r@[i].display_name is None && r@[i].context_window is None,
            model_ids(r@) == named_model_ids(*body, "data"@, "id"@),
    {
        parse_named_models(body, "data", "id")
    }
}

impl Provider for OpenAiProvider {
    open spec fn spec_id(&self) -> Seq<char> {
        self.id.0@
    }

    open spec fn spec_display_name(&self) -> Seq<char> {
        "OpenAI"@
    }

    fn id(&self) -> (r: &ProviderId) {
        &self.id
    }

    fn display_name(&self) -> (r: &str) {
        "OpenAI"
    }
}

} // verus!
