//! Loads and merges configuration layers: defaults → global → project → env → CLI.
//!
//! Reading files and the process environment happens outside this module; the
//! loader receives what was read as plain values.

use vstd::prelude::*;
use crate::config::{
    OpenCodeConfig, OpenCodeView, TuiConfig, merge_opencode, merge_tui, merge_opencode_view,
    merge_tui_view, empty_opencode_view, prefer,
};
use crate::layer::ConfigLayer;
use crate::text::{owned, chars_of, contains, seq_contains, trim_end_char, trim_end_char_vec, concat2, string_of};

verus! {

/// Errors while loading configuration.
#[derive(Debug)]
pub enum ConfigError {
    ReadFile { path: String, message: String },
    Parse { path: String, message: String },
    Validation(String),
    InvalidEnv { var: String, value: String },
}

impl Clone for ConfigError {
    fn clone(&self) -> (r: Self)
        ensures
            r == *self,
    {
        match self {
            ConfigError::ReadFile { path, message } => ConfigError::ReadFile {
                path: path.clone(),
                message: message.clone(),
            },
            ConfigError::Parse { path, message } => ConfigError::Parse {
                path: path.clone(),
                message: message.clone(),
            },
            ConfigError::Validation(m) => ConfigError::Validation(m.clone()),
            ConfigError::InvalidEnv { var, value } => ConfigError::InvalidEnv {
                var: var.clone(),
                value: value.clone(),
            },
        }
    }
}

/// CLI-level overrides applied after all file/env layers.
pub struct CliOverrides {
    pub provider: Option<String>,
    pub model: Option<String>,
    pub host: Option<String>,
    pub port: Option<u16>,
}

impl Default for CliOverrides {
    fn default() -> (r: Self)
        ensures
            r.provider is None,
            r.model is None,
            r.host is None,
            r.port is None,
    {
        CliOverrides { provider: None, model: None, host: None, port: None }
    }
}

/// What the environment holds for one setting: the `JEREKO_*` variable first,
/// the `OPENCODE_*` variable second (`None` when unset).
pub struct EnvPair {
    pub primary: Option<String>,
    pub fallback: Option<String>,
}

/// The environment variables the loader consults.
pub struct EnvValues {
    pub provider: EnvPair,
    pub model: EnvPair,
    pub host: EnvPair,
    pub port: EnvPair,
}

/// The first variable that is set, unless its value is empty.
pub open spec fn pick(p: EnvPair) -> Option<String> {
    let chosen = if p.primary is Some { p.primary } else { p.fallback };
    match chosen {
        Some(s) => if s@.len() == 0 { None } else { Some(s) },
        None => None,
    }
}

/// Value of a decimal digit character.
pub open spec fn digit_value(c: char) -> nat {
    (c as int - '0' as int) as nat
}

/// Whether `c` is an ASCII decimal digit.
pub open spec fn is_digit(c: char) -> bool {
    '0' <= c && c <= '9'
}

/// Value of a sequence of decimal digits.
pub open spec fn digits_value(s: Seq<char>) -> nat
    decreases s.len(),
{
    if s.len() == 0 {
        0
    } else {
        digits_value(s.drop_last()) * 10 + digit_value(s.last())
    }
}

/// The digits of a number literal: the text after an optional leading `+`.
pub open spec fn unsigned_digits(s: Seq<char>) -> Seq<char> {
    if s.len() > 0 && s[0] == '+' {
        s.drop_first()
    } else {
        s
    }
}

/// Every character is an ASCII digit.
pub open spec fn all_digits(d: Seq<char>) -> bool {
    forall|i: int| 0 <= i < d.len() ==> is_digit(#[trigger] d[i])
}

/// How `u16::from_str` reads a string: an optional `+`, then one or more ASCII
/// digits whose value fits in 16 bits.
pub open spec fn parse_u16_spec(s: Seq<char>) -> Option<u16> {
    let d = unsigned_digits(s);
    if d.len() > 0 && all_digits(d) && digits_value(d) <= 65535 {
        Some(digits_value(d) as u16)
    } else {
        None
    }
}

/// Parses a port number the way `str::parse::<u16>` does.
pub fn parse_u16(s: &str) -> (r: Option<u16>)
    ensures
        r == parse_u16_spec(s@),
{
    let v = chars_of(s);
    let start: usize = if v.len() > 0 && v[0] == '+' { 1 } else { 0 };
    let ghost d = unsigned_digits(v@);
    assert(d =~= v@.skip(start as int));
    if start >= v.len() {
        return None;
    }
    let mut acc: u32 = 0;
    let mut big = false;
    let mut i: usize = start;
    while i < v.len()
        invariant
            start <= i <= v@.len(),
            v@ == s@,
            d == v@.skip(start as int),
            d == unsigned_digits(v@),
            forall|j: int| start <= j < i ==> is_digit(v@[j]),
            !big ==> acc == digits_value(v@.subrange(start as int, i as int)),
            !big ==> acc <= 65535,
            big ==> digits_value(v@.subrange(start as int, i as int)) > 65535,
        decreases v@.len() - i,
    {
        let c = v[i];
        if !('0' <= c && c <= '9') {
            assert(d[i - start] == c);
            assert(!is_digit(d[i - start]));
            return None;
        }
        let dv: u32 = (c as u32) - ('0' as u32);
        assert(v@.subrange(start as int, i + 1).drop_last() =~= v@.subrange(start as int, i as int));
        if !big {
            acc = acc * 10 + dv;
            if acc > 65535 {
                big = true;
            }
        }
        i = i + 1;
    }
    assert(v@.subrange(start as int, v@.len() as int) =~= d);
    if big {
        None
    } else {
        Some(acc as u16)
    }
}

/// The value a config document parsed to; a document with no value (empty or
/// only whitespace and comments) is `Validation("empty config: <path>")`.
pub fn require_config_value<T>(value: Option<T>, path: &str) -> (r: Result<T, ConfigError>)
    ensures
        value matches Some(v) ==> r == Ok::<T, ConfigError>(v),
        value is None ==> (r matches Err(ConfigError::Validation(m)) && m@ == "empty config: "@ + path@),
{
    match value {
        Some(v) => Ok(v),
        None => Err(ConfigError::Validation(concat2("empty config: ", path))),
    }
}

/// A parsed configuration file.
pub enum ParsedConfig {
    OpenCode(OpenCodeConfig),
    Tui(TuiConfig),
}

/// What became of one discovered config file.
pub enum LoadOutcome {
    /// The file does not exist.
    Missing,
    /// The file was read and parsed.
    Loaded(ParsedConfig),
    /// Reading or parsing failed.
    Failed(ConfigError),
}

/// A discovered config file and the layer it belongs to.
pub struct LayerFile {
    pub layer: ConfigLayer,
    pub outcome: LoadOutcome,
}

/// Mathematical view of a loader.
pub struct LoaderView {
    pub opencode: OpenCodeView,
    pub tui: TuiConfig,
    pub layers: Seq<ConfigLayer>,
}

/// Loads and merges configuration from multiple precedence layers.
pub struct ConfigLoader {
    pub opencode: OpenCodeConfig,
    pub tui: TuiConfig,
    pub loaded_layers: Vec<ConfigLayer>,
}

impl View for ConfigLoader {
    type V = LoaderView;

    open spec fn view(&self) -> LoaderView {
        LoaderView { opencode: self.opencode@, tui: self.tui, layers: self.loaded_layers@ }
    }
}

/// The loader before any file: empty configs, only the default layer.
pub open spec fn initial_loader() -> LoaderView {
    LoaderView {
        opencode: empty_opencode_view(),
        tui: TuiConfig { theme: None, keymap: None, sidecar: None },
        layers: seq![ConfigLayer::Default],
    }
}

/// Effect of one parsed file on a loader.
pub open spec fn apply_parsed(v: LoaderView, p: ParsedConfig, layer: ConfigLayer) -> LoaderView {
    match p {
        ParsedConfig::OpenCode(c) => LoaderView {
            opencode: merge_opencode_view(v.opencode, c@),
            layers: v.layers.push(layer),
            ..v
        },
        ParsedConfig::Tui(t) => LoaderView {
            tui: merge_tui_view(v.tui, t),
            layers: v.layers.push(layer),
            ..v
        },
    }
}

/// Effect of the discovered files, in order: missing files are skipped, a failed
/// global file is skipped, any other failure stops loading with its error.
pub open spec fn apply_files(v: LoaderView, files: Seq<LayerFile>) -> Result<LoaderView, ConfigError>
    decreases files.len(),
{
    if files.len() == 0 {
        Ok(v)
    } else {
        match files[0].outcome {
            LoadOutcome::Missing => apply_files(v, files.drop_first()),
            LoadOutcome::Loaded(p) => apply_files(apply_parsed(v, p, files[0].layer), files.drop_first()),
            LoadOutcome::Failed(e) => if files[0].layer == ConfigLayer::Global {
                apply_files(v, files.drop_first())
            } else {
                Err(e)
            },
        }
    }
}

/// Whether any environment setting is present.
pub open spec fn env_any(env: EnvValues) -> bool {
    pick(env.provider) is Some || pick(env.model) is Some || pick(env.host) is Some || pick(
        env.port,
    ) is Some
}

/// The environment's port value when it is not a valid port.
pub open spec fn env_port_error(env: EnvValues) -> Option<String> {
    match pick(env.port) {
        Some(s) => if parse_u16_spec(s@) is None { Some(s) } else { None },
        None => None,
    }
}

/// The loader with the environment's provider, model and host applied.
pub open spec fn env_scalars(v: LoaderView, env: EnvValues) -> LoaderView {
    LoaderView {
        opencode: OpenCodeView {
            provider: prefer(v.opencode.provider, pick(env.provider)),
            model: prefer(v.opencode.model, pick(env.model)),
            host: prefer(v.opencode.host, pick(env.host)),
            ..v.opencode
        },
        ..v
    }
}

/// The loader with every environment setting applied (when the port is valid).
pub open spec fn env_applied(v: LoaderView, env: EnvValues) -> LoaderView {
    let s = env_scalars(v, env);
    let port = match pick(env.port) {
        Some(p) => parse_u16_spec(p@),
        None => None,
    };
    LoaderView {
        opencode: OpenCodeView { port: prefer(s.opencode.port, port), ..s.opencode },
        layers: if env_any(env) { s.layers.push(ConfigLayer::Environment) } else { s.layers },
        ..s
    }
}

/// Whether any CLI override is present.
pub open spec fn cli_any(cli: CliOverrides) -> bool {
    cli.provider is Some || cli.model is Some || cli.host is Some || cli.port is Some
}

/// The loader with the CLI overrides applied.
pub open spec fn cli_applied(v: LoaderView, cli: CliOverrides) -> LoaderView {
    LoaderView {
        opencode: OpenCodeView {
            provider: prefer(v.opencode.provider, cli.provider),
            model: prefer(v.opencode.model, cli.model),
            host: prefer(v.opencode.host, cli.host),
            port: prefer(v.opencode.port, cli.port),
            ..v.opencode
        },
        layers: if cli_any(cli) { v.layers.push(ConfigLayer::Cli) } else { v.layers },
        ..v
    }
}

/// Name of the environment variables for the port, as reported in errors.
pub open spec fn port_var_name() -> Seq<char> {
    seq!['J','E','R','E','K','O','_','P','O','R','T','/','O','P','E','N','C','O','D','E','_','P','O','R','T']
}

fn pick_env(p: &EnvPair) -> (r: Option<String>)
    ensures
        r == pick(*p),
{
    let chosen = if p.primary.is_some() { p.primary.clone() } else { p.fallback.clone() };
    match chosen {
        Some(s) => if s.as_str().unicode_len() == 0 { None } else { Some(s) },
        None => None,
    }
}

fn clone_opt(o: &Option<String>) -> (r: Option<String>)
    ensures
        r == *o,
{
    o.clone()
}

impl ConfigLoader {
    /// A loader holding only defaults.
    pub fn new() -> (r: Self)
        ensures
            r@ == initial_loader(),
    {
        let mut layers: Vec<ConfigLayer> = Vec::new();
        layers.push(ConfigLayer::Default);
        ConfigLoader { opencode: OpenCodeConfig::default(), tui: TuiConfig::default(), loaded_layers: layers }
    }

    /// Merges one parsed config file into the loader under `layer`.
    pub fn load_parsed(&mut self, parsed: &ParsedConfig, layer: ConfigLayer)
        ensures
            final(self)@ == apply_parsed(old(self)@, *parsed, layer),
    {
        match parsed {
            ParsedConfig::OpenCode(c) => {
                self.opencode = merge_opencode(&self.opencode, c);
            },
            ParsedConfig::Tui(t) => {
                self.tui = merge_tui(&self.tui, t);
            },
        }
        self.loaded_layers.push(layer);
    }

    /// Applies the environment layer. The provider, model and host are applied
    /// first; a port value that is not a valid port is reported as
    /// `InvalidEnv` (the other values stay applied, no layer is recorded).
    pub fn apply_env_overrides(&mut self, env: &EnvValues) -> (r: Result<(), ConfigError>)
        ensures
            env_port_error(*env) is None ==> r is Ok && final(self)@ == env_applied(old(self)@, *env),
            env_port_error(*env) matches Some(bad) ==> (final(self)@ == env_scalars(old(self)@, *env)
                && (r matches Err(ConfigError::InvalidEnv { var, value }) && var@ == port_var_name()
                && value == bad)),
    {
        let mut applied = false;
        let provider = pick_env(&env.provider);
        if provider.is_some() {
            self.opencode.provider = provider;
            applied = true;
        }
        let model = pick_env(&env.model);
        if model.is_some() {
            self.opencode.model = model;
            applied = true;
        }
        let host = pick_env(&env.host);
        if host.is_some() {
            self.opencode.host = host;
            applied = true;
        }
        let port = pick_env(&env.port);
        match port {
            Some(port_str) => {
                match parse_u16(port_str.as_str()) {
                    Some(n) => {
                        self.opencode.port = Some(n);
                        applied = true;
                    },
                    None => {
                        let var = owned("JEREKO_PORT/OPENCODE_PORT");
                        proof {
                            reveal_strlit("JEREKO_PORT/OPENCODE_PORT");
                        }
                        assert(var@ =~= port_var_name());
                        return Err(ConfigError::InvalidEnv { var, value: port_str });
                    },
                }
            },
            None => {},
        }
        if applied {
            self.loaded_layers.push(ConfigLayer::Environment);
        }
        Ok(())
    }

    /// Applies the CLI layer: every override present replaces the configured value.
    pub fn apply_cli_overrides(&mut self, cli: &CliOverrides)
        ensures
            final(self)@ == cli_applied(old(self)@, *cli),
    {
        let mut applied = false;
        if cli.provider.is_some() {
            self.opencode.provider = clone_opt(&cli.provider);
            applied = true;
        }
        if cli.model.is_some() {
            self.opencode.model = clone_opt(&cli.model);
            applied = true;
        }
        if cli.host.is_some() {
            self.opencode.host = clone_opt(&cli.host);
            applied = true;
        }
        if cli.port.is_some() {
            self.opencode.port = cli.port;
            applied = true;
        }
        if applied {
            self.loaded_layers.push(ConfigLayer::Cli);
        }
    }

    /// Full precedence: defaults → discovered files (in the order given) → env → CLI.
    /// A failed global file is skipped; a failed project file, or an invalid port
    /// in the environment, is returned as the error.
    pub fn load_discovered(files: &Vec<LayerFile>, env: &EnvValues, cli: &CliOverrides) -> (r: Result<
        Self,
        ConfigError,
    >)
        ensures
            apply_files(initial_loader(), files@) matches Err(e) ==> r == Err::<Self, ConfigError>(e),
            apply_files(initial_loader(), files@) matches Ok(v) ==> {
                &&& env_port_error(*env) is None ==> (r matches Ok(l) && l@ == cli_applied(
                    env_applied(v, *env),
                    *cli,
                ))
                &&& env_port_error(*env) matches Some(bad) ==> (r matches Err(
                    ConfigError::InvalidEnv { var, value },
                ) && var@ == port_var_name() && value == bad)
            },
    {
        let mut loader = Self::new();
        let mut i: usize = 0;
        assert(files@.skip(0) =~= files@);
        while i < files.len()
            invariant
                i <= files@.len(),
                apply_files(initial_loader(), files@) == apply_files(loader@, files@.skip(i as int)),
            decreases files@.len() - i,
        {
            let f = &files[i];
            assert(files@.skip(i as int)[0] == files@[i as int]);
            assert(files@.skip(i as int).drop_first() =~= files@.skip(i + 1));
            match &f.outcome {
                LoadOutcome::Missing => {},
                LoadOutcome::Loaded(p) => {
                    loader.load_parsed(p, f.layer);
                },
                LoadOutcome::Failed(e) => {
                    if f.layer != ConfigLayer::Global {
                        return Err(e.clone());
                    }
                },
            }
            i = i + 1;
        }
        assert(files@.skip(files@.len() as int) =~= Seq::<LayerFile>::empty());
        match loader.apply_env_overrides(env) {
            Ok(()) => {},
            Err(e) => {
                return Err(e);
            },
        }
        loader.apply_cli_overrides(cli);
        Ok(loader)
    }

    /// The merged `opencode.json` configuration.
    pub fn opencode(&self) -> (r: &OpenCodeConfig)
        ensures
            r == &self.opencode,
    {
        &self.opencode
    }

    /// The merged `tui.json` configuration.
    pub fn tui(&self) -> (r: &TuiConfig)
        ensures
            r == &self.tui,
    {
        &self.tui
    }

    /// The layers applied so far, in order.
    pub fn loaded_layers(&self) -> (r: &[ConfigLayer])
        ensures
            r@ == self.loaded_layers@,
    {
        self.loaded_layers.as_slice()
    }
}

/// Standard config search paths.
pub struct ConfigPaths {
    pub global_opencode: String,
    pub global_tui: String,
    pub project_opencode: String,
    pub project_tui: String,
}

/// `base` joined with the relative path `rel` (as `Path::join` does).
pub open spec fn join_path(base: Seq<char>, rel: Seq<char>) -> Seq<char> {
    if base.len() == 0 {
        rel
    } else if base.last() == '/' {
        base + rel
    } else {
        base + seq!['/'] + rel
    }
}

/// Joins a relative path onto a base path.
pub fn join_path_str(base: &str, rel: &str) -> (r: String)
    ensures
        r@ == join_path(base@, rel@),
{
    let n = base.unicode_len();
    if n == 0 {
        owned(rel)
    } else if base.get_char(n - 1) == '/' {
        concat2(base, rel)
    } else {
        let mut r = concat2(base, "/");
        proof {
            reveal_strlit("/");
        }
        r.append(rel);
        assert(r@ =~= base@ + seq!['/'] + rel@);
        r
    }
}

/// The user-level config root: `$HOME/.config`, else `$USERPROFILE/.config`,
/// else `.config/.config`.
pub open spec fn config_home(home: Option<String>, userprofile: Option<String>) -> Seq<char> {
    let base = match home {
        Some(h) => h@,
        None => match userprofile {
            Some(u) => u@,
            None => ".config"@,
        },
    };
    join_path(base, ".config"@)
}

/// The user-level config root (see `config_home`).
pub fn dirs_fallback(home: &Option<String>, userprofile: &Option<String>) -> (r: String)
    ensures
        r@ == config_home(*home, *userprofile),
{
    let base = match home {
        Some(h) => h.clone(),
        None => match userprofile {
            Some(u) => u.clone(),
            None => owned(".config"),
        },
    };
    join_path_str(base.as_str(), ".config")
}

/// Path of a global config file: `<config home>/opencode/<filename>`.
pub fn default_global_config(home: &Option<String>, userprofile: &Option<String>, filename: &str) -> (r:
    String)
    ensures
        r@ == join_path(join_path(config_home(*home, *userprofile), "opencode"@), filename@),
{
    let root = dirs_fallback(home, userprofile);
    let dir = join_path_str(root.as_str(), "opencode");
    join_path_str(dir.as_str(), filename)
}

impl ConfigLoader {
    /// Resolves the standard config search paths for a project root, given the
    /// `HOME` and `USERPROFILE` variables.
    pub fn discover_paths(project_root: &str, home: &Option<String>, userprofile: &Option<String>) -> (r:
        ConfigPaths)
        ensures
            r.global_opencode@ == join_path(
                join_path(config_home(*home, *userprofile), "opencode"@),
                "opencode.json"@,
            ),
            r.global_tui@ == join_path(
                join_path(config_home(*home, *userprofile), "opencode"@),
                "tui.json"@,
            ),
            r.project_opencode@ == join_path(join_path(project_root@, ".opencode"@), "opencode.json"@),
            r.project_tui@ == join_path(join_path(project_root@, ".opencode"@), "tui.json"@),
    {
        let dot = join_path_str(project_root, ".opencode");
        ConfigPaths {
            global_opencode: default_global_config(home, userprofile, "opencode.json"),
            global_tui: default_global_config(home, userprofile, "tui.json"),
            project_opencode: join_path_str(dot.as_str(), "opencode.json"),
            project_tui: join_path_str(dot.as_str(), "tui.json"),
        }
    }
}

/// The characters after the last `/` (all of them when there is none).
pub open spec fn after_last_slash(t: Seq<char>) -> Seq<char>
    decreases t.len(),
{
    if t.len() == 0 {
        t
    } else if t.last() == '/' {
        seq![]
    } else {
        after_last_slash(t.drop_last()).push(t.last())
    }
}

/// Final component of a path (trailing slashes ignored); none for an empty
/// path or one that ends in `..`.
pub open spec fn path_file_name(p: Seq<char>) -> Option<Seq<char>> {
    let n = after_last_slash(trim_end_char(p, '/'));
    if n.len() == 0 || n == seq!['.', '.'] {
        None
    } else {
        Some(n)
    }
}

/// A config file is a TUI config when its file name contains `tui`.
pub open spec fn is_tui_path(p: Seq<char>) -> bool {
    match path_file_name(p) {
        Some(n) => seq_contains(n, seq!['t', 'u', 'i']),
        None => false,
    }
}

/// Whether a config file path names a `tui.json`-style file (its file name
/// contains `tui`); every other file is read as `opencode.json`.
pub fn config_file_is_tui(path: &str) -> (r: bool)
    ensures
        r == is_tui_path(path@),
{
    let full = chars_of(path);
    let t = trim_end_char_vec(full.as_slice(), '/');
    let mut j: usize = t.len();
    assert(t@.take(j as int) =~= t@);
    assert(t@.subrange(j as int, t@.len() as int) =~= Seq::<char>::empty());
    assert(after_last_slash(t@) =~= after_last_slash(t@.take(j as int)) + t@.subrange(j as int, t@.len() as int));
    while j > 0 && t[j - 1] != '/'
        invariant
            j <= t@.len(),
            after_last_slash(t@) == after_last_slash(t@.take(j as int)) + t@.subrange(
                j as int,
                t@.len() as int,
            ),
        decreases j,
    {
        assert(t@.take(j as int).drop_last() =~= t@.take((j - 1) as int));
        assert(t@.subrange((j - 1) as int, t@.len() as int) =~= seq![t@[j - 1]] + t@.subrange(
            j as int,
            t@.len() as int,
        ));
        assert(after_last_slash(t@.take(j as int)) == after_last_slash(t@.take((j - 1) as int)).push(
            t@[j - 1],
        ));
        assert(after_last_slash(t@.take((j - 1) as int)).push(t@[j - 1]) + t@.subrange(
            j as int,
            t@.len() as int,
        ) =~= after_last_slash(t@.take((j - 1) as int)) + t@.subrange((j - 1) as int, t@.len() as int));
        j = j - 1;
    }
    assert(after_last_slash(t@.take(j as int)) =~= Seq::<char>::empty());
    let n = crate::text::slice_vec(t.as_slice(), j, t.len());
    assert(n@ =~= after_last_slash(t@));
    if n.len() == 0 {
        return false;
    }
    if n.len() == 2 && n[0] == '.' && n[1] == '.' {
        assert(n@ =~= seq!['.', '.']);
        return false;
    }
    assert(n@ != seq!['.', '.']);
    let tui = chars_of("tui");
    proof {
        reveal_strlit("tui");
    }
    assert(tui@ =~= seq!['t', 'u', 'i']);
    contains(n.as_slice(), tui.as_slice())
}

/// The source precedence of a setting: a value given on the command line wins;
/// else one from the environment (a set, non-empty `JEREKO_*` or `OPENCODE_*`
/// variable); else what the config files gave. The files' layers stay recorded
/// first.
pub proof fn law_source_precedence(files: LoaderView, env: EnvValues, cli: CliOverrides)
    requires
        env_port_error(env) is None,
    ensures
        ({
            let r = cli_applied(env_applied(files, env), cli);
            &&& r.opencode.provider == prefer(prefer(files.opencode.provider, pick(env.provider)), cli.provider)
            &&& r.opencode.model == prefer(prefer(files.opencode.model, pick(env.model)), cli.model)
            &&& r.opencode.host == prefer(prefer(files.opencode.host, pick(env.host)), cli.host)
            &&& (cli.port matches Some(p) ==> r.opencode.port == Some(p))
            &&& (cli.port is None ==> (pick(env.port) matches Some(e) ==> r.opencode.port == parse_u16_spec(e@)))
            &&& (cli.port is None && pick(env.port) is None ==> r.opencode.port == files.opencode.port)
            &&& r.layers.take(files.layers.len() as int) == files.layers
            &&& r.tui == files.tui
        }),
{
    let e = env_applied(files, env);
    let r = cli_applied(e, cli);
    assert(e.layers.take(files.layers.len() as int) =~= files.layers);
    assert(r.layers.take(files.layers.len() as int) =~= files.layers);
}

/// Later config files win: after two files that both set a scalar, the second
/// one's value holds; a file that leaves it unset keeps the earlier value.
pub proof fn law_later_file_wins(v: LoaderView, first: OpenCodeConfig, second: OpenCodeConfig, l1: ConfigLayer, l2: ConfigLayer)
    ensures
        ({
            let files = seq![
                LayerFile { layer: l1, outcome: LoadOutcome::Loaded(ParsedConfig::OpenCode(first)) },
                LayerFile { layer: l2, outcome: LoadOutcome::Loaded(ParsedConfig::OpenCode(second)) },
            ];
            apply_files(v, files) matches Ok(r) && {
                &&& r.opencode.provider == prefer(prefer(v.opencode.provider, first.provider), second.provider)
                &&& r.opencode.model == prefer(prefer(v.opencode.model, first.model), second.model)
                &&& r.opencode.host == prefer(prefer(v.opencode.host, first.host), second.host)
                &&& r.opencode.port == prefer(prefer(v.opencode.port, first.port), second.port)
                &&& r.layers == v.layers.push(l1).push(l2)
            }
        }),
{
    let files = seq![
        LayerFile { layer: l1, outcome: LoadOutcome::Loaded(ParsedConfig::OpenCode(first)) },
        LayerFile { layer: l2, outcome: LoadOutcome::Loaded(ParsedConfig::OpenCode(second)) },
    ];
    let a = apply_parsed(v, ParsedConfig::OpenCode(first), l1);
    let b = apply_parsed(a, ParsedConfig::OpenCode(second), l2);
    assert(files.drop_first() =~= seq![files[1]]);
    assert(files.drop_first().drop_first() =~= Seq::<LayerFile>::empty());
    assert(apply_files(b, files.drop_first().drop_first()) == Ok::<LoaderView, ConfigError>(b));
    assert(apply_files(a, files.drop_first()) == Ok::<LoaderView, ConfigError>(b));
}

} // verus!
