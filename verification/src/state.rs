//! Application state shared by the HTTP handlers, the listen address, and the
//! server's errors.

use vstd::prelude::*;
use crate::config::OpenCodeConfig;
use crate::handlers::HandlerContext;
use crate::registry::{ProviderRegistry, is_stub_registry, is_default_registry};
use crate::session_store::{SessionStore, SessionStorePort};
use crate::text::{owned, concat2, u64_to_decimal, decimal};
use crate::tools::ToolExecutor;

verus! {

/// Shared application state passed to the HTTP handlers.
pub struct AppState<S: SessionStorePort> {
    pub ctx: HandlerContext<S>,
}

/// The handler context of a state built from `config`, `sessions` and `providers`:
/// the config's provider and model are the defaults, and the tools are rooted at
/// the working directory with bash allowed.
pub open spec fn built_from<S: SessionStorePort>(
    st: AppState<S>,
    config: OpenCodeConfig,
    sessions: S,
    providers: ProviderRegistry,
) -> bool {
    &&& st.ctx.sessions == sessions
    &&& st.ctx.providers@ == providers@
    &&& st.ctx.default_provider == config.provider
    &&& st.ctx.default_model == config.model
    &&& st.ctx.tools.root@ == "."@
    &&& st.ctx.tools.allow_bash
}

impl AppState<SessionStore> {
    /// State for tests: stub providers and in-memory sessions.
    pub fn new(config: &OpenCodeConfig) -> (r: Self)
        ensures
            r.ctx.sessions.sessions() == Map::<Seq<char>, crate::domain::SessionView>::empty(),
            is_stub_registry(r.ctx.providers@),
            r.ctx.default_provider == config.provider,
            r.ctx.default_model == config.model,
            r.ctx.tools.root@ == "."@,
            r.ctx.tools.allow_bash,
    {
        Self::with_store(config, SessionStore::new())
    }
}

impl<S: SessionStorePort> AppState<S> {
    /// Production state: the real HTTP providers over the given session store
    /// (SQLite when the config names a session database, else in memory).
    pub fn production(config: &OpenCodeConfig, sessions: S) -> (r: Self)
        ensures
            r.ctx.sessions == sessions,
            is_default_registry(r.ctx.providers@),
            r.ctx.default_provider == config.provider,
            r.ctx.default_model == config.model,
            r.ctx.tools.root@ == "."@,
            r.ctx.tools.allow_bash,
    {
        Self::with_store_and_providers(config, sessions, ProviderRegistry::with_defaults())
    }

    /// Stub providers over the given session store.
    pub fn with_store(config: &OpenCodeConfig, sessions: S) -> (r: Self)
        ensures
            r.ctx.sessions == sessions,
            is_stub_registry(r.ctx.providers@),
            r.ctx.default_provider == config.provider,
            r.ctx.default_model == config.model,
            r.ctx.tools.root@ == "."@,
            r.ctx.tools.allow_bash,
    {
        Self::with_store_and_providers(config, sessions, ProviderRegistry::with_stubs())
    }

    /// State over the given session store and provider registry.
    pub fn with_store_and_providers(config: &OpenCodeConfig, sessions: S, providers: ProviderRegistry) -> (r:
        Self)
        ensures
            built_from(r, *config, sessions, providers),
    {
        let ghost p = providers;
        let ghost s = sessions;
        let r = AppState {
            ctx: HandlerContext {
                sessions,
                providers,
                default_provider: config.provider.clone(),
                default_model: config.model.clone(),
                tools: ToolExecutor::new(owned(".")),
            },
        };
        proof {
            assert(r.ctx.sessions == s);
            assert(r.ctx.providers@ == p@);
        }
        r
    }
}

impl Default for AppState<SessionStore> {
    fn default() -> (r: Self)
        ensures
            r.ctx.sessions.sessions() == Map::<Seq<char>, crate::domain::SessionView>::empty(),
            is_stub_registry(r.ctx.providers@),
            r.ctx.default_provider is None,
            r.ctx.default_model is None,
    {
        Self::new(&OpenCodeConfig::default())
    }
}

/// The listen address `host:port`: the configured host, else `127.0.0.1`, and
/// the configured port, else 4096.
pub open spec fn spec_bind_address(config: OpenCodeConfig) -> Seq<char> {
    let host = match config.host {
        Some(h) => h@,
        None => "127.0.0.1"@,
    };
    let port: nat = match config.port {
        Some(p) => p as nat,
        None => 4096,
    };
    host + ":"@ + decimal(port)
}

/// The address the server listens on (see `spec_bind_address`).
pub fn bind_address(config: &OpenCodeConfig) -> (r: String)
    ensures
        r@ == spec_bind_address(*config),
{
    let host = match &config.host {
        Some(h) => h.clone(),
        None => owned("127.0.0.1"),
    };
    let port: u16 = match config.port {
        Some(p) => p,
        None => 4096,
    };
    let with_colon = concat2(host.as_str(), ":");
    let digits = u64_to_decimal(port as u64);
    concat2(with_colon.as_str(), digits.as_str())
}

/// Errors of the HTTP server.
pub enum ServerError {
    /// Binding the address failed: the address and the I/O error's message.
    Bind(String, String),
    Serve(String),
    Adapter(String),
    Internal(String),
}

impl ServerError {
    /// The error's message: `failed to bind <addr>: <e>`, `server error: <e>`,
    /// `adapter error: <e>` or `internal error: <e>`.
    pub fn message(&self) -> (r: String)
        ensures
            self matches ServerError::Bind(a, e) ==> r@ == "failed to bind "@ + a@ + ": "@ + e@,
            self matches ServerError::Serve(e) ==> r@ == "server error: "@ + e@,
            self matches ServerError::Adapter(e) ==> r@ == "adapter error: "@ + e@,
            self matches ServerError::Internal(e) ==> r@ == "internal error: "@ + e@,
    {
        match self {
            ServerError::Bind(a, e) => {
                let s1 = concat2("failed to bind ", a.as_str());
                let s2 = concat2(s1.as_str(), ": ");
                concat2(s2.as_str(), e.as_str())
            },
            ServerError::Serve(e) => concat2("server error: ", e.as_str()),
            ServerError::Adapter(e) => concat2("adapter error: ", e.as_str()),
            ServerError::Internal(e) => concat2("internal error: ", e.as_str()),
        }
    }
}

} // verus!
