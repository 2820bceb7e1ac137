//! Configuration model (`opencode.json`, `tui.json`) and layered merging:
//! defaults → global → project → environment → CLI.

use vstd::prelude::*;
use crate::text::{owned, str_eq, chars_of, string_of, contains, trim_end_char, trim_end_char_vec, seq_contains};

verus! {

// ---------------------------------------------------------------------------
// Types
// ---------------------------------------------------------------------------

/// Per-provider overrides.
pub struct ProviderOverride {
    pub model: Option<String>,
    pub api_key_env: Option<String>,
}

impl Clone for ProviderOverride {
    fn clone(&self) -> (r: Self)
        ensures
            r == *self,
    {
        ProviderOverride { model: self.model.clone(), api_key_env: self.api_key_env.clone() }
    }
}

impl Default for ProviderOverride {
    fn default() -> (r: Self)
        ensures
            r.model is None,
            r.api_key_env is None,
    {
        ProviderOverride { model: None, api_key_env: None }
    }
}

/// A plugin named by package plus an optional path.
pub struct PluginRef {
    pub name: String,
    pub path: Option<String>,
}

/// One entry of the `plugins` list: a bare Bun package name, a native library,
/// a WASM module, or a named reference.
pub enum PluginEntry {
    Bun(String),
    Native { native: String },
    Wasm { wasm: String },
    Named { name: String, path: Option<String> },
}

/// The name that identifies a plugin entry.
pub open spec fn plugin_entry_name(e: PluginEntry) -> Seq<char> {
    match e {
        PluginEntry::Bun(s) => s@,
        PluginEntry::Native { native } => native@,
        PluginEntry::Wasm { wasm } => wasm@,
        PluginEntry::Named { name, .. } => name@,
    }
}

impl PluginEntry {
    /// The package name, library path, module path or reference name of the entry.
    pub fn display_name(&self) -> (r: &str)
        ensures
            r@ == plugin_entry_name(*self),
    {
        match self {
            PluginEntry::Bun(s) => s.as_str(),
            PluginEntry::Native { native } => native.as_str(),
            PluginEntry::Wasm { wasm } => wasm.as_str(),
            PluginEntry::Named { name, .. } => name.as_str(),
        }
    }
}

impl Clone for PluginEntry {
    fn clone(&self) -> (r: Self)
        ensures
            r == *self,
    {
        match self {
            PluginEntry::Bun(s) => PluginEntry::Bun(s.clone()),
            PluginEntry::Native { native } => PluginEntry::Native { native: native.clone() },
            PluginEntry::Wasm { wasm } => PluginEntry::Wasm { wasm: wasm.clone() },
            PluginEntry::Named { name, path } => PluginEntry::Named {
                name: name.clone(),
                path: path.clone(),
            },
        }
    }
}

/// Sidecar process settings (Bun plugin host).
pub struct SidecarConfig {
    pub entry: Option<String>,
    pub bun_path: Option<String>,
}

impl Clone for SidecarConfig {
    fn clone(&self) -> (r: Self)
        ensures
            r == *self,
    {
        SidecarConfig { entry: self.entry.clone(), bun_path: self.bun_path.clone() }
    }
}

impl Default for SidecarConfig {
    fn default() -> (r: Self)
        ensures
            r.entry is None,
            r.bun_path is None,
    {
        SidecarConfig { entry: None, bun_path: None }
    }
}

/// `tui.json`.
pub struct TuiConfig {
    pub theme: Option<String>,
    pub keymap: Option<String>,
    pub sidecar: Option<SidecarConfig>,
}

impl Clone for TuiConfig {
    fn clone(&self) -> (r: Self)
        ensures
            r == *self,
    {
        let sidecar = match &self.sidecar {
            Some(s) => Some(s.clone()),
            None => None,
        };
        TuiConfig { theme: self.theme.clone(), keymap: self.keymap.clone(), sidecar }
    }
}

impl Default for TuiConfig {
    fn default() -> (r: Self)
        ensures
            r.theme is None,
            r.keymap is None,
            r.sidecar is None,
    {
        TuiConfig { theme: None, keymap: None, sidecar: None }
    }
}

/// `opencode.json`. Provider overrides are a list of `(provider id, override)`
/// pairs; a later pair for the same id supersedes an earlier one.
pub struct OpenCodeConfig {
    pub provider: Option<String>,
    pub model: Option<String>,
    pub host: Option<String>,
    pub port: Option<u16>,
    pub providers: Vec<(String, ProviderOverride)>,
    pub plugins: Vec<PluginEntry>,
    pub session_db: Option<String>,
}

/// The provider overrides as a map from provider id (last pair for an id wins).
pub open spec fn overrides_map(s: Seq<(String, ProviderOverride)>) -> Map<Seq<char>, ProviderOverride>
    decreases s.len(),
{
    if s.len() == 0 {
        Map::empty()
    } else {
        overrides_map(s.drop_last()).insert(s.last().0@, s.last().1)
    }
}

/// Mathematical view of `opencode.json`.
pub struct OpenCodeView {
    pub provider: Option<String>,
    pub model: Option<String>,
    pub host: Option<String>,
    pub port: Option<u16>,
    pub providers: Map<Seq<char>, ProviderOverride>,
    pub plugins: Seq<PluginEntry>,
    pub session_db: Option<String>,
}

impl View for OpenCodeConfig {
    type V = OpenCodeView;

    open spec fn view(&self) -> OpenCodeView {
        OpenCodeView {
            provider: self.provider,
            model: self.model,
            host: self.host,
            port: self.port,
            providers: overrides_map(self.providers@),
            plugins: self.plugins@,
            session_db: self.session_db,
        }
    }
}

/// The empty configuration.
pub open spec fn empty_opencode_view() -> OpenCodeView {
    OpenCodeView {
        provider: None,
        model: None,
        host: None,
        port: None,
        providers: Map::empty(),
        plugins: seq![],
        session_db: None,
    }
}

impl Default for OpenCodeConfig {
    fn default() -> (r: Self)
        ensures
            r@ == empty_opencode_view(),
    {
        OpenCodeConfig {
            provider: None,
            model: None,
            host: None,
            port: None,
            providers: Vec::new(),
            plugins: Vec::new(),
            session_db: None,
        }
    }
}

fn clone_overrides(v: &Vec<(String, ProviderOverride)>) -> (r: Vec<(String, ProviderOverride)>)
    ensures
        r@ == v@,
{
    let mut r: Vec<(String, ProviderOverride)> = Vec::new();
    let mut i: usize = 0;
    while i < v.len()
        invariant
            i <= v@.len(),
            r@ == v@.take(i as int),
        decreases v@.len() - i,
    {
        r.push((v[i].0.clone(), v[i].1.clone()));
        i = i + 1;
        assert(r@ =~= v@.take(i as int));
    }
    assert(v@.take(v@.len() as int) =~= v@);
    r
}

fn clone_plugins(v: &Vec<PluginEntry>) -> (r: Vec<PluginEntry>)
    ensures
        r@ == v@,
{
    let mut r: Vec<PluginEntry> = Vec::new();
    let mut i: usize = 0;
    while i < v.len()
        invariant
            i <= v@.len(),
            r@ == v@.take(i as int),
        decreases v@.len() - i,
    {
        r.push(v[i].clone());
        i = i + 1;
        assert(r@ =~= v@.take(i as int));
    }
    assert(v@.take(v@.len() as int) =~= v@);
    r
}

impl Clone for OpenCodeConfig {
    fn clone(&self) -> (r: Self)
        ensures
            r@ == self@,
            r.providers@ == self.providers@,
    {
        OpenCodeConfig {
            provider: self.provider.clone(),
            model: self.model.clone(),
            host: self.host.clone(),
            port: self.port,
            providers: clone_overrides(&self.providers),
            plugins: clone_plugins(&self.plugins),
            session_db: self.session_db.clone(),
        }
    }
}

// ---------------------------------------------------------------------------
// Merging
// ---------------------------------------------------------------------------

/// How two config layers combine during merge.
pub enum MergeStrategy {
    /// Replace the entire target with the source (scalars).
    Replace,
    /// Deep-merge maps; source keys override target keys.
    DeepMerge,
}

/// The overlay's value when it has one, else the base's.
pub open spec fn prefer<T>(base: Option<T>, overlay: Option<T>) -> Option<T> {
    if overlay is Some {
        overlay
    } else {
        base
    }
}

/// Merge of two `opencode.json` layers: scalars the overlay sets win, provider
/// overrides merge key by key (overlay wins), a non-empty overlay plugin list
/// replaces the base list.
pub open spec fn merge_opencode_view(base: OpenCodeView, overlay: OpenCodeView) -> OpenCodeView {
    OpenCodeView {
        provider: prefer(base.provider, overlay.provider),
        model: prefer(base.model, overlay.model),
        host: prefer(base.host, overlay.host),
        port: prefer(base.port, overlay.port),
        providers: base.providers.union_prefer_right(overlay.providers),
        plugins: if overlay.plugins.len() > 0 { overlay.plugins } else { base.plugins },
        session_db: prefer(base.session_db, overlay.session_db),
    }
}

/// Merge of two `tui.json` layers: every field the overlay sets wins.
pub open spec fn merge_tui_view(base: TuiConfig, overlay: TuiConfig) -> TuiConfig {
    TuiConfig {
        theme: prefer(base.theme, overlay.theme),
        keymap: prefer(base.keymap, overlay.keymap),
        sidecar: prefer(base.sidecar, overlay.sidecar),
    }
}

proof fn lemma_overrides_update_last(
    s: Seq<(String, ProviderOverride)>,
    i: int,
    key: String,
    value: ProviderOverride,
)
    requires
        0 <= i < s.len(),
        s[i].0@ == key@,
        forall|j: int| i < j < s.len() ==> s[j].0@ != key@,
    ensures
        overrides_map(s.update(i, (key, value))) == overrides_map(s).insert(key@, value),
    decreases s.len(),
{
    let u = s.update(i, (key, value));
    if i == s.len() - 1 {
        assert(u.drop_last() =~= s.drop_last());
        assert(overrides_map(u) =~= overrides_map(s).insert(key@, value));
    } else {
        lemma_overrides_update_last(s.drop_last(), i, key, value);
        assert(u.drop_last() =~= s.drop_last().update(i, (key, value)));
        assert(overrides_map(u) =~= overrides_map(s).insert(key@, value));
    }
}

/// Sets the override for `key` (a later pair for the same id supersedes).
fn upsert_override(v: &mut Vec<(String, ProviderOverride)>, key: String, value: ProviderOverride)
    ensures
        overrides_map(final(v)@) == overrides_map(old(v)@).insert(key@, value),
{
    let mut i: usize = v.len();
    while i > 0
        invariant
            i <= v@.len(),
            v@ == old(v)@,
            forall|j: int| i <= j < v@.len() ==> v@[j].0@ != key@,
        decreases i,
    {
        if v[i - 1].0 == key {
            proof {
                lemma_overrides_update_last(v@, (i - 1) as int, key, value);
            }
            v.set(i - 1, (key, value));
            return;
        }
        i = i - 1;
    }
    v.push((key, value));
    assert(v@.drop_last() =~= old(v)@);
}

/// Merge of two `opencode.json` layers (see `merge_opencode_view`).
pub fn merge_opencode(base: &OpenCodeConfig, overlay: &OpenCodeConfig) -> (r: OpenCodeConfig)
    ensures
        r@ == merge_opencode_view(base@, overlay@),
        overlay.plugins@.len() > 0 ==> r.plugins@ == overlay.plugins@,
        overlay.plugins@.len() == 0 ==> r.plugins@ == base.plugins@,
{
    let mut merged = base.clone();
    if overlay.provider.is_some() {
        merged.provider = overlay.provider.clone();
    }
    if overlay.model.is_some() {
        merged.model = overlay.model.clone();
    }
    if overlay.host.is_some() {
        merged.host = overlay.host.clone();
    }
    if overlay.port.is_some() {
        merged.port = overlay.port;
    }
    if overlay.session_db.is_some() {
        merged.session_db = overlay.session_db.clone();
    }
    let mut i: usize = 0;
    assert(overlay.providers@.take(0) =~= Seq::<(String, ProviderOverride)>::empty());
    assert(overrides_map(base.providers@).union_prefer_right(Map::empty()) =~= overrides_map(
        base.providers@,
    ));
    while i < overlay.providers.len()
        invariant
            i <= overlay.providers@.len(),
            merged.provider == prefer(base.provider, overlay.provider),
            merged.model == prefer(base.model, overlay.model),
            merged.host == prefer(base.host, overlay.host),
            merged.port == prefer(base.port, overlay.port),
            merged.session_db == prefer(base.session_db, overlay.session_db),
            merged.plugins@ == base.plugins@,
            overrides_map(merged.providers@) == overrides_map(base.providers@).union_prefer_right(
                overrides_map(overlay.providers@.take(i as int)),
            ),
        decreases overlay.providers@.len() - i,
    {
        let key = overlay.providers[i].0.clone();
        let value = overlay.providers[i].1.clone();
        upsert_override(&mut merged.providers, key, value);
        i = i + 1;
        assert(overlay.providers@.take(i as int).drop_last() =~= overlay.providers@.take(
            (i - 1) as int,
        ));
        assert(overrides_map(merged.providers@) =~= overrides_map(base.providers@).union_prefer_right(
            overrides_map(overlay.providers@.take(i as int)),
        ));
    }
    assert(overlay.providers@.take(overlay.providers@.len() as int) =~= overlay.providers@);
    if overlay.plugins.len() > 0 {
        merged.plugins = clone_plugins(&overlay.plugins);
    }
    merged
}

/// Merging a project layer over a global one: each scalar the overlay sets
/// wins and each it leaves unset keeps the base's value; a provider override
/// of the overlay wins over the base's for the same id, the base's other
/// overrides stay, and no other id appears; a non-empty overlay plugin list
/// replaces the base list, an empty one keeps it.
pub proof fn law_merge_layers(base: OpenCodeView, overlay: OpenCodeView)
    ensures
        ({
            let m = merge_opencode_view(base, overlay);
            &&& overlay.provider is Some ==> m.provider == overlay.provider
            &&& overlay.provider is None ==> m.provider == base.provider
            &&& overlay.model is Some ==> m.model == overlay.model
            &&& overlay.model is None ==> m.model == base.model
            &&& overlay.host is Some ==> m.host == overlay.host
            &&& overlay.host is None ==> m.host == base.host
            &&& overlay.port is Some ==> m.port == overlay.port
            &&& overlay.port is None ==> m.port == base.port
            &&& overlay.session_db is Some ==> m.session_db == overlay.session_db
            &&& overlay.session_db is None ==> m.session_db == base.session_db
            &&& m.providers.dom() == base.providers.dom().union(overlay.providers.dom())
            &&& forall|k: Seq<char>| #[trigger]
                overlay.providers.contains_key(k) ==> m.providers[k] == overlay.providers[k]
            &&& forall|k: Seq<char>|
                base.providers.contains_key(k) && !overlay.providers.contains_key(k)
                    ==> #[trigger] m.providers[k] == base.providers[k]
            &&& overlay.plugins.len() > 0 ==> m.plugins == overlay.plugins
            &&& overlay.plugins.len() == 0 ==> m.plugins == base.plugins
        }),
{
    let m = merge_opencode_view(base, overlay);
    assert(m.providers.dom() =~= base.providers.dom().union(overlay.providers.dom()));
}

/// Merge of two `tui.json` layers (see `merge_tui_view`).
pub fn merge_tui(base: &TuiConfig, overlay: &TuiConfig) -> (r: TuiConfig)
    ensures
        r == merge_tui_view(*base, *overlay),
{
    let mut merged = base.clone();
    if overlay.theme.is_some() {
        merged.theme = overlay.theme.clone();
    }
    if overlay.keymap.is_some() {
        merged.keymap = overlay.keymap.clone();
    }
    if overlay.sidecar.is_some() {
        merged.sidecar = match &overlay.sidecar {
            Some(s) => Some(s.clone()),
            None => None,
        };
    }
    merged
}

} // verus!
