//! Plugin hosts: the Bun host's sidecar messages, the native host's library
//! path resolution and stub answers, the wasm host's module table, and the
//! TUI stub frame.

use vstd::prelude::*;
use crate::json::{JsonValue, entries_of, str_entry, bool_entry, is_empty_object};
use crate::plugins::{HostId, PluginSpec, LoadedPlugin, HookCall, HookResult, PluginError};
use crate::sidecar::{SidecarOutbound, InMemorySidecarPort};
use crate::text::{owned, concat2, str_eq, chars_of, ends_with, seq_ends_with, i32_to_decimal,
    signed_decimal};

verus! {

// ---------------------------------------------------------------------------
// Bun host
// ---------------------------------------------------------------------------

/// The message that loads a plugin into the sidecar:
/// `init` with an empty config and the plugin's name as the only plugin.
pub open spec fn is_init_for(m: SidecarOutbound, name: Seq<char>) -> bool {
    m matches SidecarOutbound::Init { config, plugins } && is_empty_object(config)
        && plugins@.len() == 1 && plugins@[0]@ == name
}

/// The `init` message that loads `spec` into the sidecar.
pub fn bun_load_message(spec: &PluginSpec) -> (m: SidecarOutbound)
    ensures
        is_init_for(m, spec.name@),
{
    let mut plugins: Vec<String> = Vec::new();
    plugins.push(spec.name.clone());
    SidecarOutbound::Init { config: JsonValue::Object(Vec::new()), plugins }
}

/// What the Bun host forwards to the sidecar for a hook: a `tui_render` with the
/// hook's payload for the `tui.render` hook, nothing for any other hook.
pub fn bun_hook_message(hook: HookCall) -> (m: Option<SidecarOutbound>)
    ensures
        hook.hook@ == "tui.render"@ ==> m == Some(SidecarOutbound::TuiRender { frame: hook.payload }),
        hook.hook@ != "tui.render"@ ==> m is None,
{
    if str_eq(hook.hook.as_str(), "tui.render") {
        Some(SidecarOutbound::TuiRender { frame: hook.payload })
    } else {
        None
    }
}

/// The `{"status": "ok"}` output of the Bun host.
pub open spec fn is_status_ok(v: JsonValue) -> bool {
    v is Object && entries_of(v).len() == 1 && str_entry(entries_of(v)[0], "status"@, "ok"@)
}

/// The Bun host's answer to every hook: `{"status": "ok"}` from the plugin.
pub fn bun_hook_result(plugin: &LoadedPlugin) -> (r: HookResult)
    ensures
        r.plugin == plugin.spec.name,
        is_status_ok(r.output),
{
    let mut entries: Vec<(String, JsonValue)> = Vec::new();
    entries.push((owned("status"), JsonValue::Str(owned("ok"))));
    HookResult { plugin: plugin.spec.name.clone(), output: JsonValue::Object(entries) }
}

/// Host for JavaScript/TypeScript plugins run by the Bun sidecar; here over an
/// in-memory port that records what is sent.
pub struct BunPluginHost {
    pub port: InMemorySidecarPort,
}

impl BunPluginHost {
    /// A Bun host that talks through `port`.
    pub fn new(port: InMemorySidecarPort) -> (r: Self)
        ensures
            r.port == port,
    {
        BunPluginHost { port }
    }

    /// The host id `bun`.
    pub fn host_id(&self) -> (r: HostId)
        ensures
            r.0@ == "bun"@,
    {
        HostId(owned("bun"))
    }

    /// Loads a plugin: sends its `init` message; the loaded plugin is the spec.
    pub fn load(&mut self, spec: &PluginSpec) -> (r: Result<LoadedPlugin, PluginError>)
        ensures
            r matches Ok(p) && p.spec == *spec,
            final(self).port.outbound@.len() == old(self).port.outbound@.len() + 1,
            final(self).port.outbound@.drop_last() == old(self).port.outbound@,
            is_init_for(final(self).port.outbound@.last(), spec.name@),
            final(self).port.inbound@ == old(self).port.inbound@,
    {
        let m = bun_load_message(spec);
        self.port.send(m);
        assert(self.port.outbound@.drop_last() =~= old(self).port.outbound@);
        Ok(LoadedPlugin { spec: spec.clone() })
    }

    /// Invokes a hook: forwards `tui.render` frames to the sidecar and answers
    /// `{"status": "ok"}`.
    pub fn invoke_hook(&mut self, plugin: &LoadedPlugin, hook: HookCall) -> (r: Result<
        HookResult,
        PluginError,
    >)
        ensures
            r matches Ok(h) && h.plugin == plugin.spec.name && is_status_ok(h.output),
            hook.hook@ == "tui.render"@ ==> final(self).port.outbound@ == old(self).port.outbound@.push(
                SidecarOutbound::TuiRender { frame: hook.payload },
            ),
            hook.hook@ != "tui.render"@ ==> final(self).port.outbound@ == old(self).port.outbound@,
            final(self).port.inbound@ == old(self).port.inbound@,
    {
        match bun_hook_message(hook) {
            Some(m) => self.port.send(m),
            None => {},
        }
        Ok(bun_hook_result(plugin))
    }

    /// Unloads a plugin: sends `shutdown`.
    pub fn unload(&mut self, plugin: &LoadedPlugin) -> (r: Result<(), PluginError>)
        ensures
            r is Ok,
            final(self).port.outbound@ == old(self).port.outbound@.push(SidecarOutbound::Shutdown),
            final(self).port.inbound@ == old(self).port.inbound@,
    {
        self.port.send(SidecarOutbound::Shutdown);
        Ok(())
    }
}

// ---------------------------------------------------------------------------
// Native host
// ---------------------------------------------------------------------------

/// The name looks like a path: it holds `/`, `\` or `.`.
pub open spec fn looks_like_path(name: Seq<char>) -> bool {
    name.contains('/') || name.contains('\\') || name.contains('.')
}

/// The library path the native host uses for a plugin name: the default
/// library when the name looks like a path and a default is set, else the name.
pub open spec fn native_path(default_path: Option<String>, name: Seq<char>) -> Seq<char> {
    if looks_like_path(name) {
        match default_path {
            Some(p) => p@,
            None => name,
        }
    } else {
        name
    }
}

/// Whether the string holds one of the characters `/`, `\`, `.`.
fn has_path_char(s: &str) -> (r: bool)
    ensures
        r == looks_like_path(s@),
{
    let v = chars_of(s);
    let mut i: usize = 0;
    while i < v.len()
        invariant
            i <= v@.len(),
            v@ == s@,
            forall|j: int| 0 <= j < i ==> v@[j] != '/' && v@[j] != '\\' && v@[j] != '.',
        decreases v@.len() - i,
    {
        let c = v[i];
        if c == '/' || c == '\\' || c == '.' {
            assert(v@[i as int] == c);
            return true;
        }
        i = i + 1;
    }
    false
}

/// The `{"host": <host>, "hook": <hook>, "stub": true}` answer of a host that
/// has nothing loaded for a plugin.
pub open spec fn is_stub_output(v: JsonValue, host: Seq<char>, hook: Seq<char>) -> bool {
    &&& v is Object
    &&& entries_of(v).len() == 3
    &&& str_entry(entries_of(v)[0], "host"@, host)
    &&& str_entry(entries_of(v)[1], "hook"@, hook)
    &&& bool_entry(entries_of(v)[2], "stub"@, true)
}

fn stub_output(host: &str, hook: String) -> (r: JsonValue)
    ensures
        is_stub_output(r, host@, hook@),
{
    let mut entries: Vec<(String, JsonValue)> = Vec::new();
    entries.push((owned("host"), JsonValue::Str(owned(host))));
    entries.push((owned("hook"), JsonValue::Str(hook)));
    entries.push((owned("stub"), JsonValue::Bool(true)));
    JsonValue::Object(entries)
}

/// What a native plugin's invoke function handed back as output.
pub enum NativeOutput {
    /// A null output pointer.
    Absent,
    /// Output text that parsed as JSON.
    Json(JsonValue),
    /// Output text that did not parse as JSON.
    Text(String),
    /// Output bytes that are not UTF-8, with the decoder's message.
    NotUtf8(String),
}

/// The `{"raw": text}` output.
pub open spec fn is_raw_output(v: JsonValue, text: Seq<char>) -> bool {
    v is Object && entries_of(v).len() == 1 && str_entry(entries_of(v)[0], "raw"@, text)
}

/// Host for in-process native plugins (C ABI dynamic libraries).
pub struct NativePluginHost {
    /// Default library, used when the plugin name looks like a path.
    pub default_path: Option<String>,
}

impl NativePluginHost {
    /// A native host without a default library.
    pub fn new() -> (r: Self)
        ensures
            r.default_path is None,
    {
        NativePluginHost { default_path: None }
    }

    /// A native host whose default library is `library_path`.
    pub fn with_library_path(library_path: String) -> (r: Self)
        ensures
            r.default_path == Some(library_path),
    {
        NativePluginHost { default_path: Some(library_path) }
    }

    /// The host id `native`.
    pub fn host_id(&self) -> (r: HostId)
        ensures
            r.0@ == "native"@,
    {
        HostId(owned("native"))
    }

    /// The library path for a plugin: the default library when the plugin name
    /// looks like a path and a default is set, else the name.
    pub fn resolve_path(&self, spec: &PluginSpec) -> (r: String)
        ensures
            r@ == native_path(self.default_path, spec.name@),
    {
        if !has_path_char(spec.name.as_str()) {
            return spec.name.clone();
        }
        match &self.default_path {
            Some(p) => p.clone(),
            None => spec.name.clone(),
        }
    }

    /// Loads a plugin: refused with `empty library path` when the resolved path is
    /// empty; otherwise the loaded plugin is the spec (the library itself is opened
    /// beside this host, where the path exists).
    pub fn load(&self, spec: &PluginSpec) -> (r: Result<LoadedPlugin, PluginError>)
        ensures
            native_path(self.default_path, spec.name@).len() == 0 ==> (r matches Err(
                PluginError::Native(m),
            ) && m@ == "empty library path"@),
            native_path(self.default_path, spec.name@).len() != 0 ==> (r matches Ok(p) && p.spec
                == *spec),
    {
        let path = self.resolve_path(spec);
        if path.as_str().is_empty() {
            return Err(PluginError::Native(owned("empty library path")));
        }
        Ok(LoadedPlugin { spec: spec.clone() })
    }

    /// The answer for a plugin without an opened library:
    /// `{"host": "native", "hook": <hook>, "stub": true}`.
    pub fn invoke_stub(&self, plugin: &LoadedPlugin, hook: HookCall) -> (r: HookResult)
        ensures
            r.plugin == plugin.spec.name,
            is_stub_output(r.output, "native"@, hook.hook@),
    {
        HookResult { plugin: plugin.spec.name.clone(), output: stub_output("native", hook.hook) }
    }

    /// The hook result from what a plugin's invoke function returned: a nonzero
    /// status is the error `plugin returned status <n>`; otherwise the output is
    /// `{}` for no output, the parsed JSON, `{"raw": text}` for text that is not
    /// JSON, and the error `output utf8: <e>` for bytes that are not UTF-8.
    pub fn invoke_result(&self, plugin: &LoadedPlugin, status: i32, output: NativeOutput) -> (r:
        Result<HookResult, PluginError>)
        ensures
            status != 0 ==> (r matches Err(PluginError::Native(m)) && m@ == "plugin returned status "@
                + signed_decimal(status as int)),
            status == 0 ==> match output {
                NativeOutput::Absent => r matches Ok(h) && h.plugin == plugin.spec.name
                    && is_empty_object(h.output),
                NativeOutput::Json(v) => r matches Ok(h) && h.plugin == plugin.spec.name && h.output
                    == v,
                NativeOutput::Text(t) => r matches Ok(h) && h.plugin == plugin.spec.name
                    && is_raw_output(h.output, t@),
                NativeOutput::NotUtf8(e) => r matches Err(PluginError::Native(m)) && m@
                    == "output utf8: "@ + e@,
            },
    {
        if status != 0 {
            let n = i32_to_decimal(status);
            return Err(PluginError::Native(concat2("plugin returned status ", n.as_str())));
        }
        let out = match output {
            NativeOutput::Absent => JsonValue::Object(Vec::new()),
            NativeOutput::Json(v) => v,
            NativeOutput::Text(t) => {
                let mut entries: Vec<(String, JsonValue)> = Vec::new();
                entries.push((owned("raw"), JsonValue::Str(t)));
                JsonValue::Object(entries)
            },
            NativeOutput::NotUtf8(e) => {
                return Err(PluginError::Native(concat2("output utf8: ", e.as_str())));
            },
        };
        Ok(HookResult { plugin: plugin.spec.name.clone(), output: out })
    }
}

impl Default for NativePluginHost {
    fn default() -> (r: Self)
        ensures
            r.default_path is None,
    {
        NativePluginHost::new()
    }
}

impl Default for WasmPluginHost {
    fn default() -> (r: Self)
        ensures
            r@ == Map::<Seq<char>, Seq<u8>>::empty(),
    {
        WasmPluginHost::new()
    }
}

// ---------------------------------------------------------------------------
// Wasm host
// ---------------------------------------------------------------------------

/// The bytes are a WebAssembly module (binary, or text format) that wasmtime 46
/// parses and validates under its default feature set.
pub uninterp spec fn wasm_module_valid(bytes: Seq<u8>) -> bool;

/// Compiles a WebAssembly module (binary or text format) with a default
/// `wasmtime::Engine` (`wasmtime::Module::new`); the error is rendered as text.
/// `Module::new` parses and validates before it compiles, so success means the
/// bytes are a valid module. Failure is not tied to invalid bytes: compilation
/// targets the machine it runs on and may also fail on implementation limits.
#[verifier::external_body]
fn compile_wasm_module(bytes: &[u8]) -> (r: Result<(), String>)
    ensures
        r is Ok ==> wasm_module_valid(bytes@),
{
    let engine = wasmtime::Engine::default();
    match wasmtime::Module::new(&engine, bytes) {
        Ok(_) => Ok(()),
        Err(e) => Err(e.to_string()),
    }
}

/// What reading a `.wasm` plugin file gave.
pub enum WasmFile {
    /// No file at the path.
    Missing,
    /// The file exists but reading it failed, with the error's message.
    Unreadable(String),
    /// The file's bytes.
    Bytes(Vec<u8>),
}

/// A host error of the wasm host.
pub open spec fn is_wasm_error(r: Result<LoadedPlugin, PluginError>, message: Seq<char>) -> bool {
    r matches Err(PluginError::Host { host, message: m }) && host@ == "wasm"@ && m@ == message
}

/// The modules of a table, by path (a later entry for a path wins).
pub open spec fn module_map(s: Seq<(String, Vec<u8>)>) -> Map<Seq<char>, Seq<u8>>
    decreases s.len(),
{
    if s.len() == 0 {
        Map::empty()
    } else {
        module_map(s.drop_last()).insert(s.last().0@, s.last().1@)
    }
}

/// No two entries of the table share a path.
pub open spec fn paths_unique(s: Seq<(String, Vec<u8>)>) -> bool {
    forall|i: int, j: int| 0 <= i < j < s.len() ==> s[i].0@ != s[j].0@
}

proof fn lemma_module_map_absent(s: Seq<(String, Vec<u8>)>, k: Seq<char>)
    requires
        forall|j: int| 0 <= j < s.len() ==> s[j].0@ != k,
    ensures
        !module_map(s).contains_key(k),
    decreases s.len(),
{
    if s.len() > 0 {
        lemma_module_map_absent(s.drop_last(), k);
    }
}

proof fn lemma_module_map_finite(s: Seq<(String, Vec<u8>)>)
    ensures
        module_map(s).dom().finite(),
    decreases s.len(),
{
    if s.len() > 0 {
        lemma_module_map_finite(s.drop_last());
    }
}

proof fn lemma_module_map_remove(s: Seq<(String, Vec<u8>)>, i: int)
    requires
        paths_unique(s),
        0 <= i < s.len(),
    ensures
        module_map(s.remove(i)) == module_map(s).remove(s[i].0@),
        paths_unique(s.remove(i)),
    decreases s.len(),
{
    let k = s[i].0@;
    if i == s.len() - 1 {
        assert(s.remove(i) =~= s.drop_last());
        lemma_module_map_absent(s.drop_last(), k);
        assert(module_map(s.drop_last()) =~= module_map(s).remove(k));
    } else {
        let t = s.drop_last();
        lemma_module_map_remove(t, i);
        assert(s.remove(i) =~= t.remove(i).push(s.last()));
        assert(s.remove(i).drop_last() =~= t.remove(i));
        assert(s.last().0@ != k);
        assert(module_map(s.remove(i)) =~= module_map(s).remove(k));
    }
}

proof fn lemma_module_map_update(s: Seq<(String, Vec<u8>)>, i: int, e: (String, Vec<u8>))
    requires
        paths_unique(s),
        0 <= i < s.len(),
        e.0@ == s[i].0@,
    ensures
        module_map(s.update(i, e)) == module_map(s).insert(e.0@, e.1@),
        paths_unique(s.update(i, e)),
    decreases s.len(),
{
    if i == s.len() - 1 {
        assert(s.update(i, e).drop_last() =~= s.drop_last());
        assert(module_map(s.update(i, e)) =~= module_map(s).insert(e.0@, e.1@));
    } else {
        let t = s.drop_last();
        lemma_module_map_update(t, i, e);
        assert(s.update(i, e).drop_last() =~= t.update(i, e));
        assert(module_map(s.update(i, e)) =~= module_map(s).insert(e.0@, e.1@));
    }
}

/// `{"host": "wasm", "hook": <hook>, "loaded": true, "stub": false}`: the answer
/// for a plugin whose module is loaded.
pub open spec fn is_loaded_output(v: JsonValue, hook: Seq<char>) -> bool {
    &&& v is Object
    &&& entries_of(v).len() == 4
    &&& str_entry(entries_of(v)[0], "host"@, "wasm"@)
    &&& str_entry(entries_of(v)[1], "hook"@, hook)
    &&& bool_entry(entries_of(v)[2], "loaded"@, true)
    &&& bool_entry(entries_of(v)[3], "stub"@, false)
}

/// Host for WebAssembly plugins: keeps the bytes of each validated module by path.
pub struct WasmPluginHost {
    loaded: Vec<(String, Vec<u8>)>,
}

impl View for WasmPluginHost {
    type V = Map<Seq<char>, Seq<u8>>;

    closed spec fn view(&self) -> Map<Seq<char>, Seq<u8>> {
        module_map(self.loaded@)
    }
}

impl WasmPluginHost {
    #[verifier::type_invariant]
    spec fn inv(&self) -> bool {
        paths_unique(self.loaded@)
    }

    /// A host with no module loaded.
    pub fn new() -> (r: Self)
        ensures
            r@ == Map::<Seq<char>, Seq<u8>>::empty(),
    {
        WasmPluginHost { loaded: Vec::new() }
    }

    /// A host preloaded with the module at `path`, given what reading it gave
    /// (nothing is kept when it could not be read).
    pub fn with_module(path: String, contents: Option<Vec<u8>>) -> (r: Self)
        ensures
            contents matches Some(b) ==> r@ == map![path@ => b@],
            contents is None ==> r@ == Map::<Seq<char>, Seq<u8>>::empty(),
    {
        let mut host = WasmPluginHost::new();
        match contents {
            Some(bytes) => {
                host.insert(path, bytes);
                assert(host@ =~= map![path@ => bytes@]);
            },
            None => {},
        }
        host
    }

    fn find(&self, name: &str) -> (r: Option<usize>)
        ensures
            r matches Some(i) ==> i < self.loaded@.len() && self.loaded@[i as int].0@ == name@,
            r is None ==> forall|j: int| 0 <= j < self.loaded@.len() ==> self.loaded@[j].0@ != name@,
    {
        let mut i: usize = 0;
        while i < self.loaded.len()
            invariant
                i <= self.loaded@.len(),
                forall|j: int| 0 <= j < i ==> self.loaded@[j].0@ != name@,
            decreases self.loaded@.len() - i,
        {
            if str_eq(self.loaded[i].0.as_str(), name) {
                return Some(i);
            }
            i = i + 1;
        }
        None
    }

    fn insert(&mut self, path: String, bytes: Vec<u8>)
        ensures
            final(self)@ == old(self)@.insert(path@, bytes@),
    {
        proof {
            use_type_invariant(&*self);
        }
        let found = self.find(path.as_str());
        let mut v: Vec<(String, Vec<u8>)> = Vec::new();
        std::mem::swap(&mut v, &mut self.loaded);
        let ghost s0 = v@;
        let ghost e = (path, bytes);
        match found {
            Some(i) => {
                proof {
                    lemma_module_map_update(s0, i as int, e);
                }
                v.set(i, (path, bytes));
            },
            None => {
                proof {
                    assert(s0.push(e).drop_last() =~= s0);
                }
                v.push((path, bytes));
            },
        }
        self.loaded = v;
    }

    /// Whether a module is loaded for `path`.
    pub fn is_loaded(&self, path: &str) -> (r: bool)
        ensures
            r == self@.contains_key(path@),
    {
        proof {
            use_type_invariant(self);
        }
        match self.find(path) {
            Some(i) => {
                proof {
                    lemma_module_map_update(self.loaded@, i as int, self.loaded@[i as int]);
                    assert(self.loaded@.update(i as int, self.loaded@[i as int]) =~= self.loaded@);
                }
                true
            },
            None => {
                proof {
                    lemma_module_map_absent(self.loaded@, path@);
                }
                false
            },
        }
    }

    /// The host id `wasm`.
    pub fn host_id(&self) -> (r: HostId)
        ensures
            r.0@ == "wasm"@,
    {
        HostId(owned("wasm"))
    }

    /// Loads a plugin. A name that does not end in `.wasm` loads as is, with no
    /// module. For a `.wasm` path, `file` is what reading it gave: a missing file
    /// is `wasm module not found: <path>`, a failed read `read wasm: <e>`, and
    /// bytes that compile are kept under the path; see `admit_module` for the rest.
    pub fn load(&mut self, spec: &PluginSpec, file: WasmFile) -> (r: Result<LoadedPlugin, PluginError>)
        ensures
            !seq_ends_with(spec.name@, ".wasm"@) ==> (r matches Ok(p) && p.spec == *spec) && final(self)@ == old(self)@,
            seq_ends_with(spec.name@, ".wasm"@) ==> match file {
                WasmFile::Missing => is_wasm_error(r, "wasm module not found: "@ + spec.name@)
                    && final(self)@ == old(self)@,
                WasmFile::Unreadable(e) => is_wasm_error(r, "read wasm: "@ + e@) && final(self)@
                    == old(self)@,
                WasmFile::Bytes(b) => {
                    &&& (r is Ok ==> wasm_module_valid(b@))
                    &&& ((r matches Ok(p) && p.spec == *spec) && final(self)@ == old(self)@.insert(
                        spec.name@,
                        b@,
                    ) || (exists|e: Seq<char>| is_wasm_error(r, "invalid wasm: "@ + e)) && final(self)@
                        == old(self)@)
                },
            },
    {
        let name = chars_of(spec.name.as_str());
        let suffix = chars_of(".wasm");
        if !ends_with(name.as_slice(), suffix.as_slice()) {
            return Ok(LoadedPlugin { spec: spec.clone() });
        }
        match file {
            WasmFile::Missing => Err(
                PluginError::Host {
                    host: owned("wasm"),
                    message: concat2("wasm module not found: ", spec.name.as_str()),
                },
            ),
            WasmFile::Unreadable(e) => Err(
                PluginError::Host { host: owned("wasm"), message: concat2("read wasm: ", e.as_str()) },
            ),
            WasmFile::Bytes(bytes) => {
                let validation = compile_wasm_module(bytes.as_slice());
                self.admit_module(spec, bytes, validation)
            },
        }
    }

    /// Keeps a module's bytes under the plugin's name when compiling it
    /// succeeded; a compile error `e` is `invalid wasm: <e>`.
    pub fn admit_module(&mut self, spec: &PluginSpec, bytes: Vec<u8>, validation: Result<(), String>) -> (r:
        Result<LoadedPlugin, PluginError>)
        ensures
            validation is Ok ==> (r matches Ok(p) && p.spec == *spec) && final(self)@ == old(self)@.insert(spec.name@, bytes@),
            validation matches Err(e) ==> is_wasm_error(r, "invalid wasm: "@ + e@) && final(self)@
                == old(self)@,
    {
        match validation {
            Ok(()) => {
                self.insert(spec.name.clone(), bytes);
                Ok(LoadedPlugin { spec: spec.clone() })
            },
            Err(e) => Err(
                PluginError::Host { host: owned("wasm"), message: concat2("invalid wasm: ", e.as_str()) },
            ),
        }
    }

    /// Invokes a hook: `{"host": "wasm", "hook": h, "loaded": true, "stub": false}`
    /// for a plugin whose module is loaded, else `{"host": "wasm", "hook": h,
    /// "stub": true}`.
    pub fn invoke_hook(&self, plugin: &LoadedPlugin, hook: HookCall) -> (r: Result<HookResult, PluginError>)
        ensures
            r matches Ok(h) && h.plugin == plugin.spec.name && (if self@.contains_key(plugin.spec.name@) {
                is_loaded_output(h.output, hook.hook@)
            } else {
                is_stub_output(h.output, "wasm"@, hook.hook@)
            }),
    {
        if self.is_loaded(plugin.spec.name.as_str()) {
            let mut entries: Vec<(String, JsonValue)> = Vec::new();
            entries.push((owned("host"), JsonValue::Str(owned("wasm"))));
            entries.push((owned("hook"), JsonValue::Str(hook.hook)));
            entries.push((owned("loaded"), JsonValue::Bool(true)));
            entries.push((owned("stub"), JsonValue::Bool(false)));
            return Ok(HookResult { plugin: plugin.spec.name.clone(), output: JsonValue::Object(entries) });
        }
        Ok(HookResult { plugin: plugin.spec.name.clone(), output: stub_output("wasm", hook.hook) })
    }

    /// Unloads a plugin: forgets its module.
    pub fn unload(&mut self, plugin: &LoadedPlugin) -> (r: Result<(), PluginError>)
        ensures
            r is Ok,
            final(self)@ == old(self)@.remove(plugin.spec.name@),
    {
        proof {
            use_type_invariant(&*self);
        }
        match self.find(plugin.spec.name.as_str()) {
            Some(i) => {
                let mut v: Vec<(String, Vec<u8>)> = Vec::new();
                std::mem::swap(&mut v, &mut self.loaded);
                let ghost s0 = v@;
                proof {
                    lemma_module_map_remove(s0, i as int);
                }
                v.remove(i);
                self.loaded = v;
            },
            None => {
                proof {
                    lemma_module_map_absent(self.loaded@, plugin.spec.name@);
                    assert(self@.remove(plugin.spec.name@) =~= self@);
                }
            },
        }
        Ok(())
    }
}

/// A module that was admitted is loaded until its plugin is unloaded; unloading
/// forgets it and keeps every other module.
pub proof fn law_unload_forgets_module(
    before: Map<Seq<char>, Seq<u8>>,
    loaded: Map<Seq<char>, Seq<u8>>,
    unloaded: Map<Seq<char>, Seq<u8>>,
    name: Seq<char>,
    bytes: Seq<u8>,
)
    requires
        loaded == before.insert(name, bytes),
        unloaded == loaded.remove(name),
    ensures
        loaded.contains_key(name) && loaded[name] == bytes,
        !unloaded.contains_key(name),
        forall|k: Seq<char>|
            k != name ==> unloaded.contains_key(k) == before.contains_key(k) && (before.contains_key(k)
                ==> unloaded[k] == before[k]),
{
}

// ---------------------------------------------------------------------------
// Terminal UI
// ---------------------------------------------------------------------------

/// The status frame of the terminal UI. This build carries no terminal
/// backend, so the frame is the fixed marker `native-tui:disabled`.
pub fn render_stub_frame(title: &str) -> (r: String)
    ensures
        r@ == "native-tui:disabled"@,
{
    owned("native-tui:disabled")
}

} // verus!
