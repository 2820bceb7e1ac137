use jereko::config::PluginEntry;
use jereko::hosts::{
    bun_hook_message, BunPluginHost, NativeOutput, NativePluginHost, WasmFile, WasmPluginHost,
};
use jereko::json::JsonValue;
use jereko::plugins::{
    apply_command_mutations, bash_before_hook, plan_plugin_load, HookCall, HookResult, HostId,
    LoadTier, LoadedPlugin, PluginError, PluginLedger, PluginSpec,
};
use jereko::sidecar::{
    inbound_line_event, run_sidecar_loop, shutdown_outcome, ChildExit, InMemorySidecarPort,
    SidecarInbound, SidecarOutbound,
};

fn obj(entries: Vec<(&str, JsonValue)>) -> JsonValue {
    JsonValue::Object(entries.into_iter().map(|(k, v)| (k.to_string(), v)).collect())
}

fn s(text: &str) -> JsonValue {
    JsonValue::Str(text.to_string())
}

fn str_field<'a>(v: &'a JsonValue, key: &str) -> Option<&'a str> {
    v.get_str(key).map(|x| x.as_str())
}

fn bool_field(v: &JsonValue, key: &str) -> Option<bool> {
    v.get(key).and_then(|x| x.as_bool())
}

fn spec(name: &str, host: &str) -> PluginSpec {
    PluginSpec {
        name: name.into(),
        host: HostId(host.into()),
    }
}

fn hook(name: &str) -> HookCall {
    HookCall {
        hook: name.into(),
        payload: obj(vec![("input", s("test"))]),
    }
}

#[test]
fn applies_last_command_mutation() {
    let results = vec![
        HookResult {
            plugin: "a".into(),
            output: obj(vec![("command", s("rtk git status"))]),
        },
        HookResult {
            plugin: "b".into(),
            output: obj(vec![("skipped", JsonValue::Bool(true))]),
        },
    ];
    assert_eq!(
        apply_command_mutations("git status".into(), &results),
        "rtk git status"
    );
}

#[test]
fn later_mutation_replaces_earlier_one() {
    let results = vec![
        HookResult {
            plugin: "a".into(),
            output: obj(vec![("command", s("first"))]),
        },
        HookResult {
            plugin: "b".into(),
            output: obj(vec![("args", obj(vec![("command", s("second"))]))]),
        },
    ];
    assert_eq!(apply_command_mutations("orig".into(), &results), "second");
    assert_eq!(apply_command_mutations("orig".into(), &vec![]), "orig");
}

#[test]
fn bash_before_hook_carries_command() {
    let call = bash_before_hook("git status".into());
    assert_eq!(call.hook, "tool.execute.before");
    assert_eq!(str_field(&call.payload, "tool"), Some("bash"));
    assert_eq!(str_field(&call.payload, "command"), Some("git status"));
    let args = call.payload.get("args").unwrap();
    assert_eq!(str_field(args, "command"), Some("git status"));
}

#[test]
fn in_memory_sidecar_records_outbound() {
    let mut port = InMemorySidecarPort::new();
    port.send(SidecarOutbound::Init {
        config: JsonValue::Object(vec![]),
        plugins: vec!["@acme/plugin".into()],
    });
    assert_eq!(port.recorded_outbound().len(), 1);
}

#[test]
fn bun_host_sends_init_render_and_shutdown() {
    let mut host = BunPluginHost::new(InMemorySidecarPort::new());
    assert_eq!(host.host_id().0, "bun");
    let loaded = host.load(&spec("@acme/plugin", "bun")).unwrap();
    assert_eq!(loaded.spec.name, "@acme/plugin");
    let r = host.invoke_hook(&loaded, hook("before_transform")).unwrap();
    assert_eq!(r.plugin, "@acme/plugin");
    assert_eq!(str_field(&r.output, "status"), Some("ok"));
    host.invoke_hook(&loaded, hook("tui.render")).unwrap();
    host.unload(&loaded).unwrap();
    let sent = host.port.recorded_outbound();
    assert_eq!(sent.len(), 3);
    match &sent[0] {
        SidecarOutbound::Init { plugins, .. } => assert_eq!(plugins, &vec!["@acme/plugin".to_string()]),
        _ => panic!("expected init"),
    }
    assert!(matches!(sent[1], SidecarOutbound::TuiRender { .. }));
    assert!(matches!(sent[2], SidecarOutbound::Shutdown));
    assert!(bun_hook_message(hook("other")).is_none());
}

#[test]
fn sidecar_loop_stops_at_ready_or_error() {
    let mut port = InMemorySidecarPort::new();
    assert!(run_sidecar_loop(&mut port).is_ok());
    match run_sidecar_loop(&mut port) {
        Err(PluginError::Sidecar(m)) => assert_eq!(m, "no inbound messages"),
        _ => panic!("expected empty-queue error"),
    }
    port.push_inbound(SidecarInbound::Log {
        level: "info".into(),
        message: "hi".into(),
    });
    port.push_inbound(SidecarInbound::Error {
        message: "boom".into(),
    });
    port.push_inbound(SidecarInbound::Ready);
    match run_sidecar_loop(&mut port) {
        Err(PluginError::Sidecar(m)) => assert_eq!(m, "boom"),
        _ => panic!("expected sidecar error"),
    }
    assert!(run_sidecar_loop(&mut port).is_ok());
}

#[test]
fn sidecar_lines_and_shutdown_outcomes() {
    assert!(inbound_line_event(true, Ok(SidecarInbound::Ready)).is_none());
    assert!(matches!(
        inbound_line_event(false, Ok(SidecarInbound::Ready)),
        Some(SidecarInbound::Ready)
    ));
    match inbound_line_event(false, Err("eof".into())) {
        Some(SidecarInbound::Error { message }) => {
            assert_eq!(message, "invalid JSON-line from sidecar: eof")
        }
        _ => panic!("expected error message"),
    }
    assert!(shutdown_outcome(ChildExit::Exited {
        success: true,
        status: "exit status: 0".into()
    })
    .is_ok());
    match shutdown_outcome(ChildExit::Exited {
        success: false,
        status: "exit status: 3".into(),
    }) {
        Err(PluginError::Sidecar(m)) => assert_eq!(m, "sidecar exited with status exit status: 3"),
        _ => panic!("expected exit error"),
    }
    match shutdown_outcome(ChildExit::TimedOut) {
        Err(PluginError::Sidecar(m)) => {
            assert_eq!(m, "sidecar did not exit after shutdown within timeout")
        }
        _ => panic!("expected timeout error"),
    }
    match shutdown_outcome(ChildExit::WaitFailed("gone".into())) {
        Err(PluginError::Sidecar(m)) => assert_eq!(m, "wait failed: gone"),
        _ => panic!("expected wait error"),
    }
}

#[test]
fn empty_path_errors() {
    let host = NativePluginHost::new();
    let err = match host.load(&spec("", "native")) {
        Err(e) => e,
        Ok(_) => panic!("expected an error"),
    };
    assert!(matches!(err, PluginError::Native(_)));
}

#[test]
fn native_host_resolves_paths_and_stubs() {
    let host = NativePluginHost::with_library_path("/opt/librtk.so".into());
    assert_eq!(host.resolve_path(&spec("./tools.so", "native")), "/opt/librtk.so");
    assert_eq!(host.resolve_path(&spec("tools", "native")), "tools");
    assert_eq!(
        NativePluginHost::new().resolve_path(&spec("./tools.so", "native")),
        "./tools.so"
    );
    let loaded = host.load(&spec("tools", "native")).unwrap();
    let r = host.invoke_stub(&loaded, hook("before_transform"));
    assert_eq!(str_field(&r.output, "host"), Some("native"));
    assert_eq!(str_field(&r.output, "hook"), Some("before_transform"));
    assert_eq!(bool_field(&r.output, "stub"), Some(true));
}

#[test]
fn native_invoke_results() {
    let host = NativePluginHost::new();
    let loaded = LoadedPlugin {
        spec: spec("./p.so", "native"),
    };
    match host.invoke_result(&loaded, -2, NativeOutput::Absent) {
        Err(PluginError::Native(m)) => assert_eq!(m, "plugin returned status -2"),
        _ => panic!("expected status error"),
    }
    match host.invoke_result(&loaded, 17, NativeOutput::Absent) {
        Err(PluginError::Native(m)) => assert_eq!(m, "plugin returned status 17"),
        _ => panic!("expected status error"),
    }
    let empty = host.invoke_result(&loaded, 0, NativeOutput::Absent).unwrap();
    assert!(matches!(empty.output, JsonValue::Object(ref e) if e.is_empty()));
    let raw = host
        .invoke_result(&loaded, 0, NativeOutput::Text("not json".into()))
        .unwrap();
    assert_eq!(str_field(&raw.output, "raw"), Some("not json"));
    let json = host
        .invoke_result(
            &loaded,
            0,
            NativeOutput::Json(obj(vec![("transformed", JsonValue::Bool(true))])),
        )
        .unwrap();
    assert_eq!(bool_field(&json.output, "transformed"), Some(true));
    match host.invoke_result(&loaded, 0, NativeOutput::NotUtf8("bad byte".into())) {
        Err(PluginError::Native(m)) => assert_eq!(m, "output utf8: bad byte"),
        _ => panic!("expected utf8 error"),
    }
}

/// Tiny empty wasm module (wasm magic + version).
fn tiny_wasm() -> Vec<u8> {
    vec![0x00, 0x61, 0x73, 0x6d, 0x01, 0x00, 0x00, 0x00]
}

#[test]
fn loads_tiny_wasm_module() {
    let mut host = WasmPluginHost::new();
    let loaded = host
        .load(&spec("/tmp/tiny.wasm", "wasm"), WasmFile::Bytes(tiny_wasm()))
        .unwrap();
    let result = host.invoke_hook(&loaded, hook("before_transform")).unwrap();
    assert_eq!(bool_field(&result.output, "loaded"), Some(true));
    assert_eq!(bool_field(&result.output, "stub"), Some(false));
}

#[test]
fn wasm_host_rejects_missing_unreadable_and_invalid_modules() {
    let mut host = WasmPluginHost::new();
    match host.load(&spec("m.wasm", "wasm"), WasmFile::Missing) {
        Err(PluginError::Host { host, message }) => {
            assert_eq!(host, "wasm");
            assert_eq!(message, "wasm module not found: m.wasm");
        }
        _ => panic!("expected not found"),
    }
    match host.load(&spec("m.wasm", "wasm"), WasmFile::Unreadable("denied".into())) {
        Err(PluginError::Host { message, .. }) => assert_eq!(message, "read wasm: denied"),
        _ => panic!("expected read error"),
    }
    match host.load(&spec("m.wasm", "wasm"), WasmFile::Bytes(vec![1, 2, 3])) {
        Err(PluginError::Host { message, .. }) => assert!(message.starts_with("invalid wasm: ")),
        _ => panic!("expected invalid module"),
    }
    assert!(!host.is_loaded("m.wasm"));
    let plain = host.load(&spec("plugin-name", "wasm"), WasmFile::Missing).unwrap();
    let r = host.invoke_hook(&plain, hook("h")).unwrap();
    assert_eq!(bool_field(&r.output, "stub"), Some(true));
    assert_eq!(str_field(&r.output, "host"), Some("wasm"));
}

#[test]
fn wasm_host_unload_forgets_module() {
    let mut host = WasmPluginHost::with_module("a.wasm".into(), Some(tiny_wasm()));
    assert!(host.is_loaded("a.wasm"));
    let plugin = LoadedPlugin {
        spec: spec("a.wasm", "wasm"),
    };
    host.unload(&plugin).unwrap();
    assert!(!host.is_loaded("a.wasm"));
    assert!(!WasmPluginHost::with_module("b.wasm".into(), None).is_loaded("b.wasm"));
}

#[test]
fn dispatches_across_bun_and_native_hosts() {
    let host_ids = vec![HostId("native".into()), HostId("bun".into())];
    let mut bun = BunPluginHost::new(InMemorySidecarPort::new());
    let native = NativePluginHost::with_library_path("./test.so".into());
    let mut ledger = PluginLedger::new();
    let entries = [
        PluginEntry::Native {
            native: "./tools.so".into(),
        },
        PluginEntry::Bun("@acme/server-plugin".into()),
    ];
    for entry in entries.iter() {
        let planned = plan_plugin_load(&host_ids, entry).unwrap();
        let loaded = if planned.host == 0 {
            native.load(&planned.spec).unwrap()
        } else {
            bun.load(&planned.spec).unwrap()
        };
        ledger.register(loaded, planned.tier, planned.host);
    }
    assert_eq!(ledger.loaded_count(), 2);
    let order = ledger.dispatch_order();
    let mut results = Vec::new();
    for i in order {
        let e = ledger.entry(i);
        let r = if e.host == 0 {
            native.invoke_stub(&e.plugin, hook("before_transform"))
        } else {
            bun.invoke_hook(&e.plugin, hook("before_transform")).unwrap()
        };
        results.push(r);
    }
    assert_eq!(results.len(), 2);
    assert_eq!(results[0].plugin, "./tools.so");
    assert_eq!(results[1].plugin, "@acme/server-plugin");
}

#[test]
fn dispatch_order_puts_native_tier_first() {
    let mut ledger = PluginLedger::new();
    let p = |n: &str| LoadedPlugin { spec: spec(n, "x") };
    ledger.register(p("bun1"), LoadTier::Bun, 0);
    ledger.register(p("native1"), LoadTier::Native, 1);
    ledger.register(p("internal"), LoadTier::Internal, 2);
    ledger.register(p("native2"), LoadTier::Native, 1);
    let order = ledger.dispatch_order();
    let names: Vec<String> = order
        .iter()
        .map(|&i| ledger.entry(i).plugin.spec.name.clone())
        .collect();
    assert_eq!(names, vec!["internal", "native1", "native2", "bun1"]);
}

#[test]
fn unregistered_host_is_reported() {
    let host_ids = vec![HostId("bun".into())];
    let entry = PluginEntry::Wasm {
        wasm: "m.wasm".into(),
    };
    match plan_plugin_load(&host_ids, &entry) {
        Err(PluginError::Orchestrator(m)) => assert_eq!(m, "host not registered: wasm"),
        _ => panic!("expected orchestrator error"),
    }
}
