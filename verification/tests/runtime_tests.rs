use jereko::adapters::normalized::CreateSessionRequest;
use jereko::adapters::status::{parse_session_status, session_status_str};
use jereko::adapters::v1::{normalize_create_session, v1_error, V1CreateSessionRequest};
use jereko::adapters::v2::{normalize_create_session as v2_norm_create, v2_error, V2CreateSessionRequest};
use jereko::cli::{apply_serve_args, run_overrides, sidecar_entry, tui_bootstrap_hook, RunArgs, ServeArgs};
use jereko::config::{merge_opencode, merge_tui, OpenCodeConfig, SidecarConfig, TuiConfig};
use jereko::domain::{Message, MessageRole, SessionStatus};
use jereko::extensions::{classify_probe_reply, lsp_frame, LspClient, McpCall, McpClient, ProbeReply};
use jereko::handlers::HandlerError;
use jereko::json::JsonValue;
use jereko::layer::ConfigLayer;
use jereko::loader::{
    parse_u16, ConfigError, ConfigLoader, EnvPair, EnvValues, LayerFile, LoadOutcome, ParsedConfig,
};
use jereko::policy::ToolPolicy;
use jereko::providers::{CompletionRequest, Provider, ProviderError, StubProvider};
use jereko::pty::PtyManager;
use jereko::plugins::PluginError;
use jereko::registry::{resolve, AnthropicProvider, OllamaProvider, ProviderEntry, ProviderRegistry};
use jereko::session_store::SessionStorePort;
use jereko::state::{bind_address, AppState, ServerError};
use jereko::tools::{bash_outcome, edit_content, grep_file, is_within, CanonicalTarget, ToolExecutor};

fn no_env() -> EnvValues {
    let none = || EnvPair {
        primary: None,
        fallback: None,
    };
    EnvValues {
        provider: none(),
        model: none(),
        host: none(),
        port: none(),
    }
}

fn opencode(provider: Option<&str>, model: Option<&str>, port: Option<u16>) -> OpenCodeConfig {
    OpenCodeConfig {
        provider: provider.map(|s| s.to_string()),
        model: model.map(|s| s.to_string()),
        port,
        ..Default::default()
    }
}

#[test]
fn edit_replaces_once() {
    assert_eq!(edit_content("aa bb aa", "aa", "xx").unwrap(), "xx bb aa");
    assert_eq!(edit_content("aa bb", "zz", "xx").unwrap_err(), "old_string not found");
}

#[test]
fn stub_complete_stream_single_chunk() {
    let provider = StubProvider::new("openai".into());
    let chunks = provider.complete_stream(CompletionRequest {
        model: "stub-model".into(),
        messages: vec![Message {
            role: MessageRole::User,
            content: "hi".into(),
            provider: None,
        }],
        max_tokens: None,
    });
    assert_eq!(chunks.len(), 1);
    assert!(chunks[0].delta.contains("stub:openai"));
    assert_eq!(chunks[0].delta, "[stub:openai] received 1 messages");
}

#[test]
fn lsp_initialize_and_hover() {
    let mut client = LspClient::new();
    let status = client.initialize("file:///project");
    assert!(status.initialized);
    client.open_document("file:///project/main.rs", "fn hello() {}\n");
    let hover = client.hover("file:///project/main.rs", 0, 4).unwrap();
    assert!(hover.contents.contains("hello"));
    assert_eq!(hover.contents, "**hello** — jereko LSP hover");
}

#[test]
fn lsp_hover_before_initialize_fails() {
    let client = LspClient::new();
    assert_eq!(client.hover("file:///x", 0, 0).unwrap_err(), "LSP not initialized");
    assert_eq!(client.status().status, "idle");
}

#[test]
fn mcp_lists_and_calls_tools() {
    let client = McpClient::new();
    assert!(!client.list_tools().is_empty());
    match client.call_tool("mcp_echo", JsonValue::Object(vec![("x".into(), JsonValue::Number("1".into()))])) {
        McpCall::Done(res) => {
            assert!(res.ok);
            assert!(matches!(res.content.get("x"), Some(JsonValue::Number(n)) if n == "1"));
        }
        _ => panic!("echo answers at once"),
    }
    match client.call_tool("mcp_filesystem_list", JsonValue::Object(vec![("path".into(), JsonValue::Str("/tmp/d".into()))])) {
        McpCall::ListDir { path } => assert_eq!(path, "/tmp/d"),
        _ => panic!("expected a listing"),
    }
    match client.call_tool("nope", JsonValue::Null) {
        McpCall::Done(res) => {
            assert!(!res.ok);
            assert_eq!(res.content.get_str("error").unwrap(), "unknown tool: nope");
        }
        _ => panic!("unknown tools answer at once"),
    }
}

#[test]
fn lsp_probe_framing_and_replies() {
    assert_eq!(lsp_frame("{}"), "Content-Length: 2\r\n\r\n{}");
    match classify_probe_reply("Content-Length: 9\r\n\r\n{\"id\":1}") {
        ProbeReply::JsonText(t) => assert_eq!(t, "{\"id\":1}"),
        _ => panic!("expected JSON text"),
    }
    match classify_probe_reply("no json") {
        ProbeReply::Raw(v) => assert_eq!(v.get_str("raw").unwrap(), "no json"),
        _ => panic!("expected raw"),
    }
}

#[test]
fn pty_unknown_and_closed_sessions() {
    let mut mgr = PtyManager::new();
    let w = mgr.write("nope", "x");
    assert!(!w.ok);
    assert_eq!(w.data, "unknown pty session: nope");
    mgr.spawn("s".into(), "sh".into(), "banner".into());
    assert_eq!(mgr.write("s", "ping").data, "wrote 4");
    let r = mgr.read("s");
    assert_eq!(r.data, "bannerping\n# wrote 4 bytes\n");
    assert_eq!(mgr.read("s").data, "");
    assert!(mgr.kill("s"));
    assert!(!mgr.kill("nope"));
    let w = mgr.write("s", "x");
    assert!(!w.ok);
    assert_eq!(w.data, "pty session closed");
}

#[test]
fn tool_policy_defaults() {
    let p = ToolPolicy::default();
    assert!(p.allow_bash);
    assert_eq!(p.bash_timeout().as_secs(), 30);
    assert!(p.path_denied(".git"));
    assert!(!p.path_denied(".github/workflows"));
}

#[test]
fn tools_resolve_and_format() {
    let tools = ToolExecutor::new("/p".into());
    assert_eq!(
        tools.resolve("a.txt", "/p", CanonicalTarget::Exists("/p/a.txt".into())).unwrap(),
        "/p/a.txt"
    );
    assert_eq!(
        tools.resolve("../x", "/p", CanonicalTarget::Exists("/px".into())).unwrap_err(),
        "path escapes project root: ../x"
    );
    assert_eq!(
        tools
            .resolve("new.txt", "/p", CanonicalTarget::ParentExists { parent: "/p".into(), file_name: "new.txt".into() })
            .unwrap(),
        "/p/new.txt"
    );
    assert_eq!(
        tools.resolve("", "/p", CanonicalTarget::NoParent).unwrap_err(),
        "invalid path: "
    );
    assert!(is_within("/p/a", "/p"));
    assert!(!is_within("/pa", "/p"));
    let out = bash_outcome("out".into(), "err".into(), false);
    assert!(!out.ok);
    assert_eq!(out.output, "out\nerr");
    assert_eq!(
        grep_file("a.txt", "hello world\nbye\nhello again", "hello"),
        vec!["a.txt:1:hello world".to_string(), "a.txt:3:hello again".to_string()]
    );
}

#[test]
fn status_names_round_trip() {
    for s in [SessionStatus::Active, SessionStatus::Idle, SessionStatus::Completed, SessionStatus::Error] {
        assert_eq!(parse_session_status(session_status_str(s)), Some(s));
    }
    assert_eq!(parse_session_status("Active"), None);
}

#[test]
fn adapters_normalize_requests_and_errors() {
    let n = normalize_create_session(V1CreateSessionRequest {
        provider: Some("anthropic".into()),
        model: Some("sonnet-3-5-20241022".into()),
    });
    assert_eq!(n.provider_id.as_deref(), Some("anthropic"));
    assert_eq!(n.model.as_deref(), Some("sonnet-3-5-20241022"));
    let n2 = v2_norm_create(V2CreateSessionRequest {
        provider_id: Some("anthropic".into()),
        model: None,
    });
    assert_eq!(n2.provider_id.as_deref(), Some("anthropic"));
    let (code, body) = v1_error(HandlerError::SessionNotFound("x".into()));
    assert_eq!(code, 404);
    assert_eq!(body.error, "x");
    let (code2, body2) = v2_error(HandlerError::ProviderNotFound("p".into()));
    assert_eq!(code2, 400);
    assert_eq!(body2.code, "invalid_provider");
    assert_eq!(body2.message, "unknown provider: p");
}

#[test]
fn session_flow_through_handlers() {
    let mut state = AppState::new(&OpenCodeConfig::default());
    let created = state
        .ctx
        .create_session(CreateSessionRequest {
            provider_id: Some("anthropic".into()),
            model: None,
        })
        .unwrap();
    assert_eq!(created.session.status, SessionStatus::Active);
    let id = created.session.id.0.clone();
    assert_eq!(state.ctx.list_sessions(), vec![id.clone()]);
    let pending = state.ctx.begin_message(&id, "hello".into()).unwrap();
    let chunks = state.ctx.complete_locally(&pending).unwrap();
    let result = state.ctx.finish_message(pending, chunks);
    assert_eq!(result.assistant_message.content, "[stub:anthropic] received 1 messages");
    let stored = state.ctx.get_session(&id).unwrap().session;
    assert_eq!(stored.messages.len(), 2);
    assert_eq!(stored.messages[0].role, MessageRole::User);
    assert_eq!(stored.messages[0].content, "hello");
    assert_eq!(stored.messages[1].role, MessageRole::Assistant);
    assert!(state.ctx.delete_session(&id).is_ok());
    assert!(matches!(state.ctx.get_session(&id), Err(HandlerError::SessionNotFound(_))));
    assert!(matches!(state.ctx.delete_session(&id), Err(HandlerError::SessionNotFound(_))));
    assert!(matches!(
        state.ctx.create_session(CreateSessionRequest { provider_id: Some("nope".into()), model: None }),
        Err(HandlerError::ProviderNotFound(p)) if p == "nope"
    ));
    assert_eq!(state.ctx.sessions.len(), 0);
    let providers = state.ctx.list_providers().providers;
    assert_eq!(providers.len(), 3);
    assert_eq!(providers[0].id, "openai");
}

#[test]
fn registry_refuses_duplicate_ids() {
    let mut r = ProviderRegistry::new();
    assert!(r.is_empty());
    assert!(r.register(ProviderEntry::Stub(StubProvider::new("x".into()))).is_ok());
    assert!(matches!(
        r.register(ProviderEntry::Stub(StubProvider::new("x".into()))),
        Err(ProviderError::AlreadyRegistered(id)) if id == "x"
    ));
    assert_eq!(r.len(), 1);
    assert_eq!(r.get("x").unwrap().id().0, "x");
    let d = ProviderRegistry::with_defaults();
    assert_eq!(d.get("anthropic").unwrap().display_name(), "Anthropic");
    assert_eq!(d.get("ollama").unwrap().display_name(), "Ollama");
}

#[test]
fn merge_keeps_base_and_prefers_overlay() {
    let base = OpenCodeConfig {
        host: Some("0.0.0.0".into()),
        ..opencode(Some("openai"), Some("gpt-4o"), Some(4096))
    };
    let overlay = opencode(None, Some("gpt-4o-mini"), Some(8080));
    let m = merge_opencode(&base, &overlay);
    assert_eq!(m.provider.as_deref(), Some("openai"));
    assert_eq!(m.model.as_deref(), Some("gpt-4o-mini"));
    assert_eq!(m.port, Some(8080));
    assert_eq!(m.host.as_deref(), Some("0.0.0.0"));
    let t = merge_tui(
        &TuiConfig { theme: Some("dark".into()), keymap: None, sidecar: None },
        &TuiConfig { theme: None, keymap: Some("vim".into()), sidecar: None },
    );
    assert_eq!(t.theme.as_deref(), Some("dark"));
    assert_eq!(t.keymap.as_deref(), Some("vim"));
}

#[test]
fn discovered_layers_apply_in_order() {
    let files = vec![
        LayerFile {
            layer: ConfigLayer::Global,
            outcome: LoadOutcome::Loaded(ParsedConfig::OpenCode(opencode(Some("openai"), Some("gpt-4o"), Some(4096)))),
        },
        LayerFile { layer: ConfigLayer::Global, outcome: LoadOutcome::Missing },
        LayerFile {
            layer: ConfigLayer::Project,
            outcome: LoadOutcome::Loaded(ParsedConfig::OpenCode(opencode(None, Some("gpt-4o-mini"), Some(8080)))),
        },
    ];
    let mut env = no_env();
    env.model.fallback = Some("env-model".into());
    let cli = jereko::loader::CliOverrides { port: Some(9000), ..Default::default() };
    let loader = ConfigLoader::load_discovered(&files, &env, &cli).ok().unwrap();
    assert_eq!(loader.opencode().provider.as_deref(), Some("openai"));
    assert_eq!(loader.opencode().model.as_deref(), Some("env-model"));
    assert_eq!(loader.opencode().port, Some(9000));
    assert_eq!(
        loader.loaded_layers(),
        &[ConfigLayer::Default, ConfigLayer::Global, ConfigLayer::Project, ConfigLayer::Environment, ConfigLayer::Cli]
    );
}

#[test]
fn project_parse_failure_stops_loading_and_bad_env_port_is_reported() {
    let files = vec![LayerFile {
        layer: ConfigLayer::Project,
        outcome: LoadOutcome::Failed(ConfigError::Validation("bad".into())),
    }];
    assert!(matches!(
        ConfigLoader::load_discovered(&files, &no_env(), &Default::default()),
        Err(ConfigError::Validation(m)) if m == "bad"
    ));
    let skipped = vec![LayerFile {
        layer: ConfigLayer::Global,
        outcome: LoadOutcome::Failed(ConfigError::Validation("bad".into())),
    }];
    assert!(ConfigLoader::load_discovered(&skipped, &no_env(), &Default::default()).is_ok());
    let mut env = no_env();
    env.port.primary = Some("99999".into());
    let mut loader = ConfigLoader::new();
    match loader.apply_env_overrides(&env) {
        Err(ConfigError::InvalidEnv { var, value }) => {
            assert_eq!(var, "JEREKO_PORT/OPENCODE_PORT");
            assert_eq!(value, "99999");
        }
        _ => panic!("expected invalid env"),
    }
    assert_eq!(parse_u16("65535"), Some(65535));
    assert_eq!(parse_u16("65536"), None);
    assert_eq!(parse_u16(""), None);
    assert_eq!(parse_u16("12a"), None);
}

#[test]
fn cli_decisions() {
    let o = run_overrides(&RunArgs { provider: Some("anthropic".into()), model: None, project: Some("/p".into()) });
    assert_eq!(o.provider.as_deref(), Some("anthropic"));
    assert!(o.host.is_none() && o.port.is_none() && o.model.is_none());
    let c = apply_serve_args(opencode(Some("openai"), None, Some(4096)), &ServeArgs { host: None, port: Some(5000) });
    assert_eq!(c.port, Some(5000));
    assert_eq!(c.provider.as_deref(), Some("openai"));
    assert_eq!(bind_address(&c), "127.0.0.1:5000");
    assert_eq!(bind_address(&OpenCodeConfig::default()), "127.0.0.1:4096");
    assert_eq!(sidecar_entry(&TuiConfig { theme: None, keymap: None, sidecar: None }), "sidecar/src/index.ts");
    let tui = TuiConfig {
        theme: None,
        keymap: None,
        sidecar: Some(SidecarConfig { entry: Some("x.ts".into()), bun_path: None }),
    };
    assert_eq!(sidecar_entry(&tui), "x.ts");
    let h = tui_bootstrap_hook(Some("dark".into()));
    assert_eq!(h.hook, "tui.render");
    assert_eq!(h.payload.get_str("theme").unwrap(), "dark");
    assert_eq!(h.payload.get("bootstrap").and_then(|b| b.as_bool()), Some(true));
    assert_eq!(ServerError::Bind("h:1".into(), "denied".into()).message(), "failed to bind h:1: denied");
    assert_eq!(ServerError::Serve("x".into()).message(), "server error: x");
}

#[test]
fn fresh_sessions_get_distinct_uuid_ids() {
    let a = jereko::domain::Session::new().unwrap();
    let b = jereko::domain::Session::new().unwrap();
    let id: Vec<char> = a.id.0.chars().collect();
    assert_eq!(id.len(), 36);
    for (i, c) in id.iter().enumerate() {
        if [8, 13, 18, 23].contains(&i) {
            assert_eq!(*c, '-');
        } else {
            assert!(c.is_ascii_hexdigit() && !c.is_ascii_uppercase());
        }
    }
    assert_eq!(id[14], '4');
    assert!(['8', '9', 'a', 'b'].contains(&id[19]));
    assert_ne!(a.id, b.id);
    assert_eq!(a.status, SessionStatus::Idle);
}

#[test]
fn policy_denial_ignores_separator_style() {
    let p = ToolPolicy::default();
    assert!(p.path_denied(".git\\config"));
    assert_eq!(p.path_denied("src\\main.rs"), p.path_denied("src/main.rs"));
}

#[test]
fn error_messages_and_mappings() {
    let reg = ProviderRegistry::with_stubs();
    match resolve(&reg, "nope") {
        Err(ProviderError::NotFound(id)) => assert_eq!(id, "nope"),
        _ => panic!("expected not found"),
    }
    assert_eq!(ProviderError::NotFound("x".into()).message(), "provider not found: x");
    assert_eq!(
        ProviderError::ProviderFailure { provider: "openai".into(), message: "down".into() }.message(),
        "provider error (openai): down"
    );
    assert_eq!(
        ProviderError::ModelNotFound { provider: "openai".into(), model: "m".into() }.message(),
        "model not found: openai/m"
    );
    assert_eq!(PluginError::NotFound("p".into()).message(), "plugin not found: p");
    assert_eq!(
        PluginError::Host { host: "wasm".into(), message: "bad".into() }.message(),
        "host error (wasm): bad"
    );
    assert_eq!(HandlerError::Tool("t".into()).message(), "tool error: t");
    let (code, body) = v1_error(HandlerError::Provider("boom".into()));
    assert_eq!(code, 502);
    assert_eq!(body.error, "boom");
    let (code, body) = v1_error(HandlerError::ProviderNotFound("p".into()));
    assert_eq!(code, 400);
    assert_eq!(body.error, "unknown provider: p");
    let (code, body) = v2_error(HandlerError::Tool("bad args".into()));
    assert_eq!(code, 400);
    assert_eq!(body.code, "tool_error");
    let (code, body) = v2_error(HandlerError::SessionNotFound("s".into()));
    assert_eq!(code, 404);
    assert_eq!(body.code, "not_found");
    assert_eq!(body.message, "s");
}

#[test]
fn mcp_listing_result_holds_entries() {
    let listed = jereko::extensions::list_dir_result("mcp_filesystem_list", Ok(vec!["a.txt".to_string()]));
    assert!(listed.ok);
    match listed.content.get("entries") {
        Some(JsonValue::Array(items)) => {
            assert!(items.iter().any(|e| matches!(e, JsonValue::Str(s) if s == "a.txt")));
        }
        _ => panic!("expected entries"),
    }
    let failed = jereko::extensions::list_dir_result("mcp_filesystem_list", Err("no dir".into()));
    assert!(!failed.ok);
    assert!(matches!(&failed.content, JsonValue::Object(e) if e.len() == 1));
    assert_eq!(failed.content.get_str("error").unwrap(), "no dir");
    let read = jereko::extensions::read_file_result("mcp_filesystem_read", Ok("hi".into()));
    assert!(matches!(&read.content, JsonValue::Object(e) if e.len() == 1));
    assert_eq!(read.content.get_str("text").unwrap(), "hi");
}

#[test]
fn mcp_unknown_tool_content_is_exact() {
    let client = McpClient::new();
    match client.call_tool("mcp_search", JsonValue::Object(vec![("q".into(), JsonValue::Str("x".into()))])) {
        McpCall::Done(res) => {
            assert!(!res.ok);
            assert_eq!(res.tool, "mcp_search");
            assert!(matches!(&res.content, JsonValue::Object(e) if e.len() == 1));
            assert_eq!(res.content.get_str("error").unwrap(), "unknown tool: mcp_search");
        }
        _ => panic!("unknown tools answer at once"),
    }
}

#[test]
fn lsp_hover_range_spans_the_word() {
    let mut client = LspClient::new();
    client.initialize("file:///project");
    client.open_document("file:///project/main.rs", "fn hello() {}\n");
    let hover = client.hover("file:///project/main.rs", 0, 4).unwrap();
    let range = hover.range.unwrap();
    let start = range.get("start").unwrap();
    let end = range.get("end").unwrap();
    assert!(matches!(start.get("line"), Some(JsonValue::Number(n)) if n == "0"));
    assert!(matches!(start.get("character"), Some(JsonValue::Number(n)) if n == "4"));
    assert!(matches!(end.get("character"), Some(JsonValue::Number(n)) if n == "9"));
}

#[test]
fn registry_ids_follow_successful_registrations() {
    let mut r = ProviderRegistry::new();
    for id in ["b", "a", "b", "c", "a"] {
        let _ = r.register(ProviderEntry::Stub(StubProvider::new(id.into())));
    }
    let ids: Vec<String> = r.ids().into_iter().map(|p| p.0).collect();
    assert_eq!(ids, vec!["b", "a", "c"]);
    assert_eq!(r.len(), 3);
}

fn sample_request() -> CompletionRequest {
    CompletionRequest {
        model: "m1".into(),
        messages: vec![
            Message { role: MessageRole::System, content: "be brief".into(), provider: None },
            Message { role: MessageRole::User, content: "hi".into(), provider: None },
        ],
        max_tokens: None,
    }
}

#[test]
fn anthropic_body_and_response() {
    let p = AnthropicProvider::new();
    assert_eq!(p.messages_url(), "https://api.anthropic.com/v1/messages");
    let body = AnthropicProvider::request_body(&sample_request());
    assert_eq!(body.get_str("model").unwrap(), "m1");
    assert!(matches!(body.get("max_tokens"), Some(JsonValue::Number(n)) if n == "1024"));
    match body.get("messages") {
        Some(JsonValue::Array(ms)) => {
            assert_eq!(ms.len(), 1);
            assert_eq!(ms[0].get_str("role").unwrap(), "user");
            assert_eq!(ms[0].get_str("content").unwrap(), "hi");
        }
        _ => panic!("expected messages"),
    }
    let resp = JsonValue::Object(vec![
        (
            "content".into(),
            JsonValue::Array(vec![JsonValue::Object(vec![
                ("type".into(), JsonValue::Str("text".into())),
                ("text".into(), JsonValue::Str("hello from anthropic".into())),
            ])]),
        ),
        ("stop_reason".into(), JsonValue::Str("end_turn".into())),
    ]);
    let parsed = AnthropicProvider::parse_response(&resp, "m1".into());
    assert_eq!(parsed.content, "hello from anthropic");
    assert_eq!(parsed.finish_reason.as_deref(), Some("end_turn"));
}

#[test]
fn ollama_body_and_response() {
    let p = OllamaProvider::new();
    assert_eq!(p.chat_url(), "http://localhost:11434/api/chat");
    let body = OllamaProvider::request_body(&sample_request());
    assert!(matches!(body.get("stream"), Some(JsonValue::Bool(false))));
    assert!(matches!(body.get("messages"), Some(JsonValue::Array(ms)) if ms.len() == 2));
    let resp = JsonValue::Object(vec![(
        "message".into(),
        JsonValue::Object(vec![
            ("role".into(), JsonValue::Str("assistant".into())),
            ("content".into(), JsonValue::Str("hello from ollama".into())),
        ]),
    )]);
    let parsed = OllamaProvider::parse_response(&resp, "llama3.2".into());
    assert_eq!(parsed.content, "hello from ollama");
    assert!(parsed.finish_reason.is_none());
    let tags = JsonValue::Object(vec![(
        "models".into(),
        JsonValue::Array(vec![JsonValue::Object(vec![("name".into(), JsonValue::Str("llama3.2".into()))])]),
    )]);
    let models = OllamaProvider::parse_model_list(&tags);
    assert_eq!(models.len(), 1);
    assert_eq!(models[0].id, "llama3.2");
}

#[test]
fn hover_checked_answers_like_hover() {
    let mut client = LspClient::new();
    client.initialize("file:///p");
    client.open_document("file:///p/a.rs", "let value = 1;\n");
    let h = client.hover_checked("file:///p/a.rs", 0, 5).unwrap().unwrap();
    assert_eq!(h.contents, "**value** — jereko LSP hover");
    assert!(client.hover_checked("file:///p/a.rs", 0, u32::MAX).is_some());
    assert_eq!(
        LspClient::new().hover_checked("file:///x", 0, 0).unwrap().unwrap_err(),
        "LSP not initialized"
    );
}

#[test]
fn internal_errors_map_to_500() {
    let (code, body) = v1_error(HandlerError::Internal("no random bytes for a session id".into()));
    assert_eq!(code, 500);
    assert_eq!(body.error, "no random bytes for a session id");
    let (code, body) = v2_error(HandlerError::Internal("x".into()));
    assert_eq!(code, 500);
    assert_eq!(body.code, "internal_error");
    assert_eq!(HandlerError::Internal("x".into()).message(), "internal error: x");
}

#[test]
fn empty_config_document_is_a_validation_error() {
    assert_eq!(jereko::loader::require_config_value(Some(3), "a.json").ok(), Some(3));
    match jereko::loader::require_config_value::<u8>(None, "a.json") {
        Err(ConfigError::Validation(m)) => assert_eq!(m, "empty config: a.json"),
        _ => panic!("expected validation error"),
    }
}

#[test]
fn failed_hook_results_are_dropped() {
    let mut results = Vec::new();
    let kept = jereko::plugins::collect_hook_outcome(
        &mut results,
        Ok(jereko::plugins::HookResult { plugin: "a".into(), output: JsonValue::Null }),
    );
    assert!(kept.is_none());
    let dropped = jereko::plugins::collect_hook_outcome(&mut results, Err(PluginError::Native("x".into())));
    assert!(matches!(dropped, Some(PluginError::Native(m)) if m == "x"));
    assert_eq!(results.len(), 1);
    assert_eq!(results[0].plugin, "a");
}
