//! Provider registry: registered providers in registration order, ids unique.

use vstd::prelude::*;
use crate::providers::{Provider, ProviderId, ProviderError, StubProvider, OpenAiProvider, CompletionRequest,
    CompletionResponse, ModelInfo, messages_json, message_json_ok, selected_messages, parse_named_models,
    named_model_ids, model_ids, array_elems, endpoint, endpoint_str, first_elem};
use crate::json::{JsonValue, json_get, json_str_field, entries_of};
use crate::text::{owned, str_eq, decimal, u64_to_decimal};

verus! {

/// Anthropic Messages API provider settings.
pub struct AnthropicProvider {
    pub id: ProviderId,
    pub base_url: String,
    pub api_key_env: String,
}

impl AnthropicProvider {
    /// Provider `anthropic` at `https://api.anthropic.com/v1`, key from `ANTHROPIC_API_KEY`.
    pub fn new() -> (r: Self)
        ensures
            r.id.0@ == "anthropic"@,
            r.base_url@ == "https://api.anthropic.com/v1"@,
            r.api_key_env@ == "ANTHROPIC_API_KEY"@,
    {
        AnthropicProvider {
            id: ProviderId::new(owned("anthropic")),
            base_url: owned("https://api.anthropic.com/v1"),
            api_key_env: owned("ANTHROPIC_API_KEY"),
        }
    }

    /// The same provider with another base URL.
    pub fn with_base_url(self, base_url: String) -> (r: Self)
        ensures
            r.base_url == base_url,
            r.id == self.id,
            r.api_key_env == self.api_key_env,
    {
        AnthropicProvider { base_url, ..self }
    }

    /// `<base>/messages`.
    pub fn messages_url(&self) -> (r: String)
        ensures
            r@ == endpoint(self.base_url@, "/messages"@),
    {
        endpoint_str(self.base_url.as_str(), "/messages")
    }

    /// `<base>/models`.
    pub fn models_url(&self) -> (r: String)
        ensures
            r@ == endpoint(self.base_url@, "/models"@),
    {
        endpoint_str(self.base_url.as_str(), "/models")
    }

    /// Request body: `{"model": .., "max_tokens": <the request's, else 1024>,
    /// "messages": [{"role", "content"}..]}` with the system messages left out.
    pub fn request_body(request: &CompletionRequest) -> (r: JsonValue)
        ensures
            r is Object,
            entries_of(r).len() == 3,
            entries_of(r)[0].0@ == "model"@ && (entries_of(r)[0].1 matches JsonValue::Str(m) && m@
                == request.model@),
            entries_of(r)[1].0@ == "max_tokens"@ && (entries_of(r)[1].1 matches JsonValue::Number(n) && n@
                == decimal(
                match request.max_tokens {
                    Some(t) => t as nat,
                    None => 1024,
                },
            )),
            entries_of(r)[2].0@ == "messages"@,
            array_elems(Some(entries_of(r)[2].1)) matches Some(ms) && ms.len() == selected_messages(
                request.messages@,
                true,
            ).len() && forall|i: int|
                0 <= i < ms.len() ==> message_json_ok(#[trigger] ms[i], selected_messages(request.messages@, true)[i]),
    {
        let max: u64 = match request.max_tokens {
            Some(t) => t as u64,
            None => 1024,
        };
        let msgs = messages_json(&request.messages, true);
        JsonValue::Object(
            vec![
                (owned("model"), JsonValue::Str(request.model.clone())),
                (owned("max_tokens"), JsonValue::Number(u64_to_decimal(max))),
                (owned("messages"), JsonValue::Array(msgs)),
            ],
        )
    }

    /// Reads a Messages API response: content from `content[0].text` (empty
    /// when absent), finish reason from `stop_reason`.
    pub fn parse_response(response: &JsonValue, model: String) -> (r: CompletionResponse)
        ensures
            r.content@ == (match anthropic_text(*response) {
                Some(t) => t,
                None => Seq::<char>::empty(),
            }),
            r.model == model,
            match json_str_field(*response, "stop_reason"@) {
                Some(f) => r.finish_reason matches Some(g) && g@ == f,
                None => r.finish_reason is None,
            },
    {
        let content = match first_elem(response.get("content")) {
            Some(c) => match c.get_str("text") {
                Some(t) => t.clone(),
                None => String::new(),
            },
            None => String::new(),
        };
        let finish = match response.get_str("stop_reason") {
            Some(f) => Some(f.clone()),
            None => None,
        };
        CompletionResponse { content, model, finish_reason: finish }
    }

    /// Reads a model list response: every element of `data` that has a string `id`.
    pub fn parse_model_list(body: &JsonValue) -> (r: Vec<ModelInfo>)
        ensures
            forall|i: int| 0 <= i < r@.len() ==> r@[i].display_name is None && r@[i].context_window is None,
            model_ids(r@) == named_model_ids(*body, "data"@, "id"@),
    {
        parse_named_models(body, "data", "id")
    }
}

/// `response.content[0].text`, when it is a string.
pub open spec fn anthropic_text(resp: JsonValue) -> Option<Seq<char>> {
    match array_elems(json_get(resp, "content"@)) {
        Some(a) => if a.len() > 0 {
            json_str_field(a[0], "text"@)
        } else {
            None
        },
        None => None,
    }
}

impl Provider for AnthropicProvider {
    open spec fn spec_id(&self) -> Seq<char> {
        self.id.0@
    }

    open spec fn spec_display_name(&self) -> Seq<char> {
        "Anthropic"@
    }

    fn id(&self) -> (r: &ProviderId) {
        &self.id
    }

    fn display_name(&self) -> (r: &str) {
        "Anthropic"
    }
}

/// Ollama local-server provider settings.
pub struct OllamaProvider {
    pub id: ProviderId,
    pub base_url: String,
}

impl OllamaProvider {
    /// Provider `ollama` at `http://localhost:11434`.
    pub fn new() -> (r: Self)
        ensures
            r.id.0@ == "ollama"@,
            r.base_url@ == "http://localhost:11434"@,
    {
        OllamaProvider { id: ProviderId::new(owned("ollama")), base_url: owned("http://localhost:11434") }
    }

    /// The same provider with another base URL.
    pub fn with_base_url(self, base_url: String) -> (r: Self)
        ensures
            r.base_url == base_url,
            r.id == self.id,
    {
        OllamaProvider { base_url, ..self }
    }

    /// `<base>/api/chat`.
    pub fn chat_url(&self) -> (r: String)
        ensures
            r@ == endpoint(self.base_url@, "/api/chat"@),
    {
        endpoint_str(self.base_url.as_str(), "/api/chat")
    }

    /// `<base>/api/tags`.
    pub fn tags_url(&self) -> (r: String)
        ensures
            r@ == endpoint(self.base_url@, "/api/tags"@),
    {
        endpoint_str(self.base_url.as_str(), "/api/tags")
    }

    /// Request body: `{"model": .., "messages": [{"role", "content"}..],
    /// "stream": false}`.
    pub fn request_body(request: &CompletionRequest) -> (r: JsonValue)
        ensures
            r is Object,
            entries_of(r).len() == 3,
            entries_of(r)[0].0@ == "model"@ && (entries_of(r)[0].1 matches JsonValue::Str(m) && m@
                == request.model@),
            entries_of(r)[1].0@ == "messages"@,
            array_elems(Some(entries_of(r)[1].1)) matches Some(ms) && ms.len() == request.messages@.len()
                && forall|i: int| 0 <= i < ms.len() ==> message_json_ok(#[trigger] ms[i], request.messages@[i]),
            entries_of(r)[2].0@ == "stream"@ && entries_of(r)[2].1 == JsonValue::Bool(false),
    {
        let msgs = messages_json(&request.messages, false);
        JsonValue::Object(
            vec![
                (owned("model"), JsonValue::Str(request.model.clone())),
                (owned("messages"), JsonValue::Array(msgs)),
                (owned("stream"), JsonValue::Bool(false)),
            ],
        )
    }

    /// Reads a chat response: content from `message.content` (empty when
    /// absent), finish reason from `done_reason`.
    pub fn parse_response(response: &JsonValue, model: String) -> (r: CompletionResponse)
        ensures
            r.content@ == (match json_get(*response, "message"@) {
                Some(m) => match json_str_field(m, "content"@) {
                    Some(c) => c,
                    None => Seq::<char>::empty(),
                },
                None => Seq::<char>::empty(),
            }),
            r.model == model,
            match json_str_field(*response, "done_reason"@) {
                Some(f) => r.finish_reason matches Some(g) && g@ == f,
                None => r.finish_reason is None,
            },
    {
        let content = match response.get("message") {
            Some(m) => match m.get_str("content") {
                Some(c) => c.clone(),
                None => String::new(),
            },
            None => String::new(),
        };
        let finish = match response.get_str("done_reason") {
            Some(f) => Some(f.clone()),
            None => None,
        };
        CompletionResponse { content, model, finish_reason: finish }
    }

    /// Reads a tags response: every element of `models` that has a string `name`.
    pub fn parse_model_list(body: &JsonValue) -> (r: Vec<ModelInfo>)
        ensures
            forall|i: int| 0 <= i < r@.len() ==> r@[i].display_name is None && r@[i].context_window is None,
            model_ids(r@) == named_model_ids(*body, "models"@, "name"@),
    {
        parse_named_models(body, "models", "name")
    }
}

impl Provider for OllamaProvider {
    open spec fn spec_id(&self) -> Seq<char> {
        self.id.0@
    }

    open spec fn spec_display_name(&self) -> Seq<char> {
        "Ollama"@
    }

    fn id(&self) -> (r: &ProviderId) {
        &self.id
    }

    fn display_name(&self) -> (r: &str) {
        "Ollama"
    }
}

/// A registered provider.
pub enum ProviderEntry {
    Stub(StubProvider),
    OpenAi(OpenAiProvider),
    Anthropic(AnthropicProvider),
    Ollama(OllamaProvider),
}

impl Provider for ProviderEntry {
    open spec fn spec_id(&self) -> Seq<char> {
        match self {
            ProviderEntry::Stub(p) => p.spec_id(),
            ProviderEntry::OpenAi(p) => p.spec_id(),
            ProviderEntry::Anthropic(p) => p.spec_id(),
            ProviderEntry::Ollama(p) => p.spec_id(),
        }
    }

    open spec fn spec_display_name(&self) -> Seq<char> {
        match self {
            ProviderEntry::Stub(p) => p.spec_display_name(),
            ProviderEntry::OpenAi(p) => p.spec_display_name(),
            ProviderEntry::Anthropic(p) => p.spec_display_name(),
            ProviderEntry::Ollama(p) => p.spec_display_name(),
        }
    }

    fn id(&self) -> (r: &ProviderId) {
        match self {
            ProviderEntry::Stub(p) => p.id(),
            ProviderEntry::OpenAi(p) => p.id(),
            ProviderEntry::Anthropic(p) => p.id(),
            ProviderEntry::Ollama(p) => p.id(),
        }
    }

    fn display_name(&self) -> (r: &str) {
        match self {
            ProviderEntry::Stub(p) => p.display_name(),
            ProviderEntry::OpenAi(p) => p.display_name(),
            ProviderEntry::Anthropic(p) => p.display_name(),
            ProviderEntry::Ollama(p) => p.display_name(),
        }
    }
}

/// Some registered provider has this id.
pub open spec fn has_provider(s: Seq<ProviderEntry>, id: Seq<char>) -> bool {
    exists|i: int| 0 <= i < s.len() && s[i].spec_id() == id
}

/// No two registered providers share an id.
pub open spec fn ids_unique(s: Seq<ProviderEntry>) -> bool {
    forall|i: int, j: int| 0 <= i < j < s.len() ==> s[i].spec_id() != s[j].spec_id()
}

/// The stub registry: stubs `openai`, `anthropic`, `ollama`, in that order.
pub open spec fn is_stub_registry(s: Seq<ProviderEntry>) -> bool {
    &&& s.len() == 3
    &&& s[0] is Stub && s[0].spec_id() == "openai"@
    &&& s[1] is Stub && s[1].spec_id() == "anthropic"@
    &&& s[2] is Stub && s[2].spec_id() == "ollama"@
}

/// The default registry: the OpenAI, Anthropic and Ollama adapters, in that order.
pub open spec fn is_default_registry(s: Seq<ProviderEntry>) -> bool {
    &&& s.len() == 3
    &&& s[0] is OpenAi && s[0].spec_id() == "openai"@
    &&& s[1] is Anthropic && s[1].spec_id() == "anthropic"@
    &&& s[2] is Ollama && s[2].spec_id() == "ollama"@
}

/// One registration: the provider is added at the end when its id is new;
/// otherwise nothing changes.
pub open spec fn register_step(s: Seq<ProviderEntry>, p: ProviderEntry) -> Seq<ProviderEntry> {
    if has_provider(s, p.spec_id()) {
        s
    } else {
        s.push(p)
    }
}

/// The providers of a registry that started empty after `attempts` were
/// registered in order.
pub open spec fn registered(attempts: Seq<ProviderEntry>) -> Seq<ProviderEntry>
    decreases attempts.len(),
{
    if attempts.len() == 0 {
        seq![]
    } else {
        register_step(registered(attempts.drop_last()), attempts.last())
    }
}

/// The positions in `attempts` of the registrations that succeeded, in order.
pub open spec fn registered_positions(attempts: Seq<ProviderEntry>) -> Seq<int>
    decreases attempts.len(),
{
    if attempts.len() == 0 {
        seq![]
    } else if has_provider(registered(attempts.drop_last()), attempts.last().spec_id()) {
        registered_positions(attempts.drop_last())
    } else {
        registered_positions(attempts.drop_last()).push(attempts.len() - 1)
    }
}

/// Attempt `k` is the first one with its id.
pub open spec fn first_attempt(attempts: Seq<ProviderEntry>, k: int) -> bool {
    0 <= k < attempts.len() && forall|j: int| 0 <= j < k ==> attempts[j].spec_id() != attempts[k].spec_id()
}

/// Registry of providers, kept in registration order with unique ids.
pub struct ProviderRegistry {
    providers: Vec<ProviderEntry>,
}

impl View for ProviderRegistry {
    type V = Seq<ProviderEntry>;

    closed spec fn view(&self) -> Seq<ProviderEntry> {
        self.providers@
    }
}

impl ProviderRegistry {
    #[verifier::type_invariant]
    spec fn inv(&self) -> bool {
        ids_unique(self.providers@)
    }

    /// An empty registry.
    pub fn new() -> (r: Self)
        ensures
            r@ == Seq::<ProviderEntry>::empty(),
    {
        ProviderRegistry { providers: Vec::new() }
    }

    /// Adds a provider; fails with `AlreadyRegistered(id)`, leaving the registry
    /// unchanged, when its id is taken.
    pub fn register(&mut self, provider: ProviderEntry) -> (r: Result<(), ProviderError>)
        ensures
            has_provider(old(self)@, provider.spec_id()) ==> final(self)@ == old(self)@ && (r matches Err(
                ProviderError::AlreadyRegistered(id),
            ) && id@ == provider.spec_id()),
            !has_provider(old(self)@, provider.spec_id()) ==> r is Ok && final(self)@ == old(self)@.push(
                provider,
            ),
            final(self)@ == register_step(old(self)@, provider),
            ids_unique(final(self)@),
    {
        proof {
            use_type_invariant(&*self);
        }
        let id = provider.id().0.clone();
        let mut i: usize = 0;
        while i < self.providers.len()
            invariant
                i <= self.providers@.len(),
                ids_unique(self.providers@),
                id@ == provider.spec_id(),
                forall|j: int| 0 <= j < i ==> self.providers@[j].spec_id() != id@,
            decreases self.providers@.len() - i,
        {
            if str_eq(self.providers[i].id().0.as_str(), id.as_str()) {
                return Err(ProviderError::AlreadyRegistered(id));
            }
            i = i + 1;
        }
        let mut v: Vec<ProviderEntry> = Vec::new();
        std::mem::swap(&mut v, &mut self.providers);
        v.push(provider);
        self.providers = v;
        Ok(())
    }

    /// The provider registered under `id`.
    pub fn get(&self, id: &str) -> (r: Option<&ProviderEntry>)
        ensures
            r matches Some(e) ==> e.spec_id() == id@ && exists|i: int|
                0 <= i < self@.len() && self@[i] == *e,
            r is None ==> !has_provider(self@, id@),
            ids_unique(self@),
    {
        proof {
            use_type_invariant(self);
        }
        let mut i: usize = 0;
        while i < self.providers.len()
            invariant
                i <= self.providers@.len(),
                ids_unique(self.providers@),
                forall|j: int| 0 <= j < i ==> self.providers@[j].spec_id() != id@,
            decreases self.providers@.len() - i,
        {
            if str_eq(self.providers[i].id().0.as_str(), id) {
                assert(self@[i as int] == self.providers@[i as int]);
                return Some(&self.providers[i]);
            }
            i = i + 1;
        }
        None
    }

    /// Ids of the registered providers, in registration order.
    pub fn ids(&self) -> (r: Vec<ProviderId>)
        ensures
            r@.len() == self@.len(),
            forall|i: int| 0 <= i < r@.len() ==> r@[i].0@ == self@[i].spec_id(),
    {
        let mut r: Vec<ProviderId> = Vec::new();
        let mut i: usize = 0;
        while i < self.providers.len()
            invariant
                i <= self.providers@.len(),
                r@.len() == i,
                forall|j: int| 0 <= j < i ==> r@[j].0@ == self.providers@[j].spec_id(),
            decreases self.providers@.len() - i,
        {
            r.push(self.providers[i].id().clone());
            i = i + 1;
        }
        r
    }

    /// The provider at registration position `i`.
    pub fn entry(&self, i: usize) -> (r: &ProviderEntry)
        requires
            i < self@.len(),
        ensures
            *r == self@[i as int],
    {
        &self.providers[i]
    }

    /// Number of registered providers.
    pub fn len(&self) -> (r: usize)
        ensures
            r == self@.len(),
    {
        self.providers.len()
    }

    /// Whether no provider is registered.
    pub fn is_empty(&self) -> (r: bool)
        ensures
            r == (self@.len() == 0),
    {
        self.providers.len() == 0
    }

    /// Stub providers `openai`, `anthropic`, `ollama` (tests, offline use).
    pub fn with_stubs() -> (r: Self)
        ensures
            r@.len() == 3,
            r@[0] is Stub && r@[0].spec_id() == "openai"@,
            r@[1] is Stub && r@[1].spec_id() == "anthropic"@,
            r@[2] is Stub && r@[2].spec_id() == "ollama"@,
    {
        let mut v: Vec<ProviderEntry> = Vec::new();
        v.push(ProviderEntry::Stub(StubProvider::new(owned("openai"))));
        v.push(ProviderEntry::Stub(StubProvider::new(owned("anthropic"))));
        v.push(ProviderEntry::Stub(StubProvider::new(owned("ollama"))));
        proof {
            reveal_strlit("openai");
            reveal_strlit("anthropic");
            reveal_strlit("ollama");
            assert("openai"@[0] == 'o' && "openai"@[1] == 'p');
            assert("anthropic"@[0] == 'a');
            assert("ollama"@[0] == 'o' && "ollama"@[1] == 'l');
        }
        ProviderRegistry { providers: v }
    }

    /// The real HTTP providers: OpenAI, Anthropic, Ollama.
    pub fn with_defaults() -> (r: Self)
        ensures
            r@.len() == 3,
            r@[0] is OpenAi && r@[0].spec_id() == "openai"@,
            r@[1] is Anthropic && r@[1].spec_id() == "anthropic"@,
            r@[2] is Ollama && r@[2].spec_id() == "ollama"@,
    {
        let mut v: Vec<ProviderEntry> = Vec::new();
        v.push(ProviderEntry::OpenAi(OpenAiProvider::new()));
        v.push(ProviderEntry::Anthropic(AnthropicProvider::new()));
        v.push(ProviderEntry::Ollama(OllamaProvider::new()));
        proof {
            reveal_strlit("openai");
            reveal_strlit("anthropic");
            reveal_strlit("ollama");
            assert("openai"@[0] == 'o' && "openai"@[1] == 'p');
            assert("anthropic"@[0] == 'a');
            assert("ollama"@[0] == 'o' && "ollama"@[1] == 'l');
        }
        ProviderRegistry { providers: v }
    }
}

impl Default for ProviderRegistry {
    fn default() -> (r: Self)
        ensures
            r@.len() == 0,
    {
        ProviderRegistry::new()
    }
}

/// Looks a provider up by id, failing with `NotFound(id)`.
pub fn resolve<'a>(registry: &'a ProviderRegistry, id: &str) -> (r: Result<&'a ProviderEntry, ProviderError>)
    ensures
        r matches Ok(e) ==> e.spec_id() == id@ && exists|i: int|
            0 <= i < registry@.len() && registry@[i] == *e,
        r matches Err(err) ==> !has_provider(registry@, id@) && (err matches ProviderError::NotFound(
            s,
        ) && s@ == id@),
        !has_provider(registry@, id@) ==> r is Err,
{
    match registry.get(id) {
        Some(p) => Ok(p),
        None => Err(ProviderError::NotFound(owned(id))),
    }
}

/// Registering a fresh id makes `get` find exactly that provider; registering a
/// taken id changes nothing.
pub proof fn law_register_then_get(before: Seq<ProviderEntry>, after: Seq<ProviderEntry>, p: ProviderEntry)
    requires
        ids_unique(before),
        !has_provider(before, p.spec_id()),
        after == before.push(p),
    ensures
        ids_unique(after),
        has_provider(after, p.spec_id()),
        forall|i: int| 0 <= i < after.len() && after[i].spec_id() == p.spec_id() ==> after[i] == p,
        forall|id: Seq<char>| id != p.spec_id() ==> (has_provider(after, id) == has_provider(before, id)),
{
    assert(after[before.len() as int] == p);
    assert forall|id: Seq<char>| id != p.spec_id() implies (has_provider(after, id) == has_provider(
        before,
        id,
    )) by {
        if has_provider(after, id) {
            let i = choose|i: int| 0 <= i < after.len() && after[i].spec_id() == id;
            assert(before[i] == after[i]);
        }
        if has_provider(before, id) {
            let i = choose|i: int| 0 <= i < before.len() && before[i].spec_id() == id;
            assert(after[i] == before[i]);
        }
    }
}

/// Registrations in call order: starting from an empty registry, the providers
/// kept are exactly the first attempt of each id, in the order of the calls, so
/// `ids` lists the ids of the successful `register` calls in call order, each
/// once; and every attempted id ends up registered.
pub proof fn law_registrations_in_order(attempts: Seq<ProviderEntry>)
    ensures
        ids_unique(registered(attempts)),
        registered_positions(attempts).len() == registered(attempts).len(),
        forall|i: int|
            0 <= i < registered_positions(attempts).len() ==> first_attempt(
                attempts,
                #[trigger] registered_positions(attempts)[i],
            ) && registered(attempts)[i] == attempts[registered_positions(attempts)[i]],
        forall|i: int, j: int|
            0 <= i < j < registered_positions(attempts).len() ==> registered_positions(attempts)[i]
                < registered_positions(attempts)[j],
        forall|k: int|
            #[trigger] first_attempt(attempts, k) ==> registered_positions(attempts).contains(k),
        forall|k: int|
            0 <= k < attempts.len() ==> has_provider(registered(attempts), #[trigger] attempts[k].spec_id()),
    decreases attempts.len(),
{
    if attempts.len() == 0 {
        return;
    }
    let a = attempts;
    let a1 = a.drop_last();
    let n = a.len() - 1;
    let last = a.last();
    law_registrations_in_order(a1);
    let r1 = registered(a1);
    let i1 = registered_positions(a1);
    assert forall|k: int| 0 <= k < n && first_attempt(a1, k) implies first_attempt(a, k) by {
        assert forall|j: int| 0 <= j < k implies a[j].spec_id() != a[k].spec_id() by {
            assert(a1[j] == a[j] && a1[k] == a[k]);
        }
    }
    if has_provider(r1, last.spec_id()) {
        assert(registered(a) == r1);
        assert(registered_positions(a) == i1);
        let w = choose|w: int| 0 <= w < r1.len() && r1[w].spec_id() == last.spec_id();
        assert(first_attempt(a1, i1[w]));
        assert(r1[w] == a1[i1[w]]);
        assert(!first_attempt(a, n)) by {
            assert(a[i1[w]] == a1[i1[w]]);
        }
        assert forall|k: int| #[trigger] first_attempt(a, k) implies i1.contains(k) by {
            if k < n {
                assert forall|j: int| 0 <= j < k implies a1[j].spec_id() != a1[k].spec_id() by {
                    assert(a1[j] == a[j] && a1[k] == a[k]);
                }
                assert(first_attempt(a1, k));
            }
        }
        assert forall|i: int| 0 <= i < i1.len() implies first_attempt(a, #[trigger] i1[i]) && r1[i]
            == a[i1[i]] by {
            assert(first_attempt(a1, i1[i]));
            assert(a1[i1[i]] == a[i1[i]]);
        }
        assert forall|k: int| 0 <= k < a.len() implies has_provider(r1, #[trigger] a[k].spec_id()) by {
            if k < n {
                assert(a1[k] == a[k]);
                assert(has_provider(r1, a1[k].spec_id()));
            }
        }
    } else {
        let r = r1.push(last);
        let ip = i1.push(n);
        assert(registered(a) == r);
        assert(registered_positions(a) == ip);
        assert(first_attempt(a, n)) by {
            assert forall|j: int| 0 <= j < n implies a[j].spec_id() != a[n].spec_id() by {
                assert(a1[j] == a[j]);
                assert(has_provider(r1, a1[j].spec_id()));
            }
        }
        assert forall|k: int| #[trigger] first_attempt(a, k) implies ip.contains(k) by {
            if k < n {
                assert forall|j: int| 0 <= j < k implies a1[j].spec_id() != a1[k].spec_id() by {
                    assert(a1[j] == a[j] && a1[k] == a[k]);
                }
                assert(first_attempt(a1, k));
                assert(i1.contains(k));
                let t = choose|t: int| 0 <= t < i1.len() && i1[t] == k;
                assert(ip[t] == k);
            } else {
                assert(ip[ip.len() - 1] == k);
            }
        }
        assert forall|i: int| 0 <= i < ip.len() implies first_attempt(a, #[trigger] ip[i]) && r[i]
            == a[ip[i]] by {
            if i < i1.len() {
                assert(ip[i] == i1[i]);
                assert(first_attempt(a1, i1[i]));
                assert(a1[i1[i]] == a[i1[i]]);
            }
        }
        assert forall|i: int, j: int| 0 <= i < j < ip.len() implies ip[i] < ip[j] by {
            if j < i1.len() {
                assert(ip[i] == i1[i] && ip[j] == i1[j]);
            } else {
                assert(ip[i] == i1[i]);
                assert(first_attempt(a1, i1[i]));
            }
        }
        assert forall|x: int, y: int| 0 <= x < y < r.len() implies r[x].spec_id() != r[y].spec_id() by {
            if y == r.len() - 1 {
                assert(r[x] == r1[x]);
            } else {
                assert(r[x] == r1[x] && r[y] == r1[y]);
            }
        }
        assert forall|k: int| 0 <= k < a.len() implies has_provider(r, #[trigger] a[k].spec_id()) by {
            if k < n {
                assert(a1[k] == a[k]);
                assert(has_provider(r1, a1[k].spec_id()));
                let w = choose|w: int| 0 <= w < r1.len() && r1[w].spec_id() == a1[k].spec_id();
                assert(r[w] == r1[w]);
            } else {
                assert(r[r.len() - 1] == last);
            }
        }
    }
}

} // verus!
