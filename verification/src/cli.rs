//! The command line's decisions: which overrides `run` and `serve` apply, where
//! the sidecar entry lives, and the TUI bootstrap hook that `run` dispatches.

use vstd::prelude::*;
use crate::config::{OpenCodeConfig, TuiConfig};
use crate::json::{JsonValue, entries_of, bool_entry};
use crate::loader::CliOverrides;
use crate::plugins::HookCall;
use crate::text::owned;

verus! {

/// Arguments of `run`.
pub struct RunArgs {
    /// Provider id override.
    pub provider: Option<String>,
    /// Model id override.
    pub model: Option<String>,
    /// Project root for config discovery.
    pub project: Option<String>,
}

/// Arguments of `serve`.
pub struct ServeArgs {
    /// Bind host override.
    pub host: Option<String>,
    /// Bind port override.
    pub port: Option<u16>,
}

/// The command-line overrides of `run`: its provider and model, nothing else.
pub fn run_overrides(args: &RunArgs) -> (r: CliOverrides)
    ensures
        r.provider == args.provider,
        r.model == args.model,
        r.host is None,
        r.port is None,
{
    CliOverrides { provider: args.provider.clone(), model: args.model.clone(), host: None, port: None }
}

/// The config `serve` listens with: `config` with the host and port replaced by
/// those given on the command line.
pub fn apply_serve_args(config: OpenCodeConfig, args: &ServeArgs) -> (r: OpenCodeConfig)
    ensures
        r.host == (match args.host {
            Some(h) => Some(h),
            None => config.host,
        }),
        r.port == (match args.port {
            Some(p) => Some(p),
            None => config.port,
        }),
        r.provider == config.provider,
        r.model == config.model,
        r.providers == config.providers,
        r.plugins == config.plugins,
        r.session_db == config.session_db,
{
    let mut config = config;
    match &args.host {
        Some(h) => {
            config.host = Some(h.clone());
        },
        None => {},
    }
    match args.port {
        Some(p) => {
            config.port = Some(p);
        },
        None => {},
    }
    config
}

/// The sidecar entry script: the TUI config's `sidecar.entry`, else
/// `sidecar/src/index.ts`.
pub fn sidecar_entry(tui: &TuiConfig) -> (r: String)
    ensures
        r@ == (match tui.sidecar {
            Some(s) => match s.entry {
                Some(e) => e@,
                None => "sidecar/src/index.ts"@,
            },
            None => "sidecar/src/index.ts"@,
        }),
{
    match &tui.sidecar {
        Some(s) => match &s.entry {
            Some(e) => e.clone(),
            None => owned("sidecar/src/index.ts"),
        },
        None => owned("sidecar/src/index.ts"),
    }
}

/// The bootstrap `tui.render` hook of `run`: payload
/// `{"theme": <theme or null>, "bootstrap": true}`.
pub fn tui_bootstrap_hook(theme: Option<String>) -> (r: HookCall)
    ensures
        r.hook@ == "tui.render"@,
        r.payload is Object,
        entries_of(r.payload).len() == 2,
        entries_of(r.payload)[0].0@ == "theme"@,
        (theme matches Some(t) ==> (entries_of(r.payload)[0].1 matches JsonValue::Str(s) && s == t)),
        (theme is None ==> entries_of(r.payload)[0].1 is Null),
        bool_entry(entries_of(r.payload)[1], "bootstrap"@, true),
{
    let theme_value = match theme {
        Some(t) => JsonValue::Str(t),
        None => JsonValue::Null,
    };
    let mut entries: Vec<(String, JsonValue)> = Vec::new();
    entries.push((owned("theme"), theme_value));
    entries.push((owned("bootstrap"), JsonValue::Bool(true)));
    HookCall { hook: owned("tui.render"), payload: JsonValue::Object(entries) }
}

} // verus!
