//! Plugin model: specs, hook calls and results, plugin errors, the
//! `tool.execute.before` command-rewrite helpers, and the orchestrator's
//! load-tier ordering of hook dispatch.

use vstd::prelude::*;
use crate::config::{PluginEntry, plugin_entry_name};
use crate::json::{JsonValue, json_get, json_bool, json_str_field, entries_of, upsert_entries,
    lemma_lookup_index, lemma_upsert_lookup};
use crate::text::{owned, concat2, str_eq};

verus! {

/// Identifier of a plugin host (`bun`, `native`, `wasm`).
#[derive(Debug)]
pub struct HostId(pub String);

/// A plugin to load and the host that loads it.
#[derive(Debug)]
pub struct PluginSpec {
    pub name: String,
    pub host: HostId,
}

impl Clone for PluginSpec {
    fn clone(&self) -> (r: Self)
        ensures
            r == *self,
    {
        PluginSpec { name: self.name.clone(), host: HostId(self.host.0.clone()) }
    }
}

/// A loaded plugin.
#[derive(Debug)]
pub struct LoadedPlugin {
    pub spec: PluginSpec,
}

/// A hook invocation.
pub struct HookCall {
    pub hook: String,
    pub payload: JsonValue,
}

/// One plugin's answer to a hook.
pub struct HookResult {
    pub plugin: String,
    pub output: JsonValue,
}

/// Errors of the plugin layer.
#[derive(Debug)]
pub enum PluginError {
    NotFound(String),
    Host { host: String, message: String },
    Sidecar(String),
    Native(String),
    Orchestrator(String),
}

impl PluginError {
    /// The error's message: `plugin not found: <p>`, `host error (<host>): <m>`,
    /// `sidecar IPC error: <m>`, `native plugin error: <m>`, `orchestrator error: <m>`.
    pub fn message(&self) -> (r: String)
        ensures
            self matches PluginError::NotFound(p) ==> r@ == "plugin not found: "@ + p@,
            self matches PluginError::Host { host, message } ==> r@ == "host error ("@ + host@ + "): "@
                + message@,
            self matches PluginError::Sidecar(m) ==> r@ == "sidecar IPC error: "@ + m@,
            self matches PluginError::Native(m) ==> r@ == "native plugin error: "@ + m@,
            self matches PluginError::Orchestrator(m) ==> r@ == "orchestrator error: "@ + m@,
    {
        match self {
            PluginError::NotFound(p) => concat2("plugin not found: ", p.as_str()),
            PluginError::Host { host, message } => {
                let a = concat2("host error (", host.as_str());
                let b = concat2(a.as_str(), "): ");
                concat2(b.as_str(), message.as_str())
            },
            PluginError::Sidecar(m) => concat2("sidecar IPC error: ", m.as_str()),
            PluginError::Native(m) => concat2("native plugin error: ", m.as_str()),
            PluginError::Orchestrator(m) => concat2("orchestrator error: ", m.as_str()),
        }
    }
}

/// A host error for `host`.
pub fn host_error(host: &str, message: String) -> (r: PluginError)
    ensures
        r matches PluginError::Host { host: h, message: m } && h@ == host@ && m == message,
{
    PluginError::Host { host: owned(host), message }
}

/// A host error of the Bun host.
pub fn bun_host_error(message: String) -> (r: PluginError)
    ensures
        r matches PluginError::Host { host: h, message: m } && h@ == "bun"@ && m == message,
{
    host_error("bun", message)
}

// ---------------------------------------------------------------------------
// tool.execute.before
// ---------------------------------------------------------------------------

/// The hook invoked before a tool runs.
pub const TOOL_EXECUTE_BEFORE: &'static str = "tool.execute.before";

/// The `tool.execute.before` call for a shell command: payload
/// `{"tool": "bash", "name": "bash", "command": c, "args": {"command": c}}`.
pub fn bash_before_hook(command: String) -> (r: HookCall)
    ensures
        r.hook@ == "tool.execute.before"@,
        json_str_field(r.payload, "tool"@) == Some("bash"@),
        json_str_field(r.payload, "name"@) == Some("bash"@),
        json_str_field(r.payload, "command"@) == Some(command@),
        json_get(r.payload, "args"@) matches Some(a) && json_str_field(a, "command"@) == Some(command@),
{
    let args = JsonValue::Object(vec![(owned("command"), JsonValue::Str(command.clone()))]);
    proof {
        lemma_lookup_index(entries_of(args), "command"@, 0);
        reveal_strlit("tool");
        reveal_strlit("name");
        reveal_strlit("command");
        reveal_strlit("args");
        assert("tool"@.len() == 4 && "name"@.len() == 4 && "command"@.len() == 7 && "args"@.len() == 4);
        assert("tool"@[0] == 't' && "name"@[0] == 'n' && "args"@[0] == 'a');
    }
    let payload = JsonValue::Object(
        vec![
            (owned("tool"), JsonValue::string("bash")),
            (owned("name"), JsonValue::string("bash")),
            (owned("command"), JsonValue::Str(command.clone())),
            (owned("args"), args),
        ],
    );
    proof {
        let e = entries_of(payload);
        lemma_lookup_index(e, "tool"@, 0);
        lemma_lookup_index(e, "name"@, 1);
        lemma_lookup_index(e, "command"@, 2);
        lemma_lookup_index(e, "args"@, 3);
    }
    HookCall { hook: owned(TOOL_EXECUTE_BEFORE), payload }
}

/// The command a hook output rewrites to: none when it is marked
/// `skipped: true`; else its top-level `command`, else its `args.command`.
pub open spec fn command_mutation(out: JsonValue) -> Option<Seq<char>> {
    if json_bool(json_get(out, "skipped"@)) == Some(true) {
        None
    } else {
        match json_str_field(out, "command"@) {
            Some(c) => Some(c),
            None => match json_get(out, "args"@) {
                Some(a) => json_str_field(a, "command"@),
                None => None,
            },
        }
    }
}

/// The command after applying hook results in order: the last mutation wins;
/// with none, the command is unchanged.
pub open spec fn apply_mutations(command: Seq<char>, results: Seq<HookResult>) -> Seq<char>
    decreases results.len(),
{
    if results.len() == 0 {
        command
    } else {
        match command_mutation(results.last().output) {
            Some(c) => c,
            None => apply_mutations(command, results.drop_last()),
        }
    }
}

/// Applies the last non-skipped command mutation from hook results.
pub fn apply_command_mutations(command: String, results: &Vec<HookResult>) -> (r: String)
    ensures
        r@ == apply_mutations(command@, results@),
{
    let mut command = command;
    let ghost c0 = command@;
    let mut i: usize = 0;
    while i < results.len()
        invariant
            i <= results@.len(),
            command@ == apply_mutations(c0, results@.take(i as int)),
        decreases results@.len() - i,
    {
        assert(results@.take(i + 1).drop_last() =~= results@.take(i as int));
        assert(results@.take(i + 1).last() == results@[i as int]);
        let out = &results[i].output;
        let skipped = match out.get("skipped") {
            Some(v) => v.as_bool(),
            None => None,
        };
        if skipped == Some(true) {
        } else {
            match out.get_str("command") {
                Some(next) => {
                    command = next.clone();
                },
                None => {
                    match out.get("args") {
                        Some(a) => match a.get_str("command") {
                            Some(next) => {
                                command = next.clone();
                            },
                            None => {},
                        },
                        None => {},
                    }
                },
            }
        }
        i = i + 1;
    }
    assert(results@.take(results@.len() as int) =~= results@);
    command
}

/// Sets `args.command` to `command` when `args` is an object; other keys keep
/// their values. Other values are left unchanged.
pub fn set_command_arg(args: &mut JsonValue, command: &str)
    ensures
        *old(args) is Object ==> *final(args) is Object && json_str_field(*final(args), "command"@)
            == Some(command@) && forall|k: Seq<char>|
            k != "command"@ ==> json_get(*final(args), k) == json_get(*old(args), k),
        !(*old(args) is Object) ==> *final(args) == *old(args),
{
    let key = owned("command");
    let value = JsonValue::string(command);
    let ghost kg = key;
    let ghost vg = value;
    args.insert(key, value);
    proof {
        if *old(args) is Object {
            lemma_upsert_lookup(entries_of(*old(args)), kg, vg, "command"@);
            assert forall|k: Seq<char>| k != "command"@ implies json_get(*final(args), k) == json_get(
                *old(args),
                k,
            ) by {
                lemma_upsert_lookup(entries_of(*old(args)), kg, vg, k);
            }
        }
    }
}

/// Hook results that rewrite nothing leave the command unchanged, and a result
/// that rewrites the command decides it whatever came before.
pub proof fn law_last_mutation_wins(command: Seq<char>, results: Seq<HookResult>, later: HookResult)
    ensures
        (forall|i: int| 0 <= i < results.len() ==> command_mutation(#[trigger] results[i].output) is None)
            ==> apply_mutations(command, results) == command,
        command_mutation(later.output) matches Some(c) ==> apply_mutations(command, results.push(later)) == c,
        command_mutation(later.output) is None ==> apply_mutations(command, results.push(later))
            == apply_mutations(command, results),
    decreases results.len(),
{
    assert(results.push(later).drop_last() =~= results);
    if forall|i: int| 0 <= i < results.len() ==> command_mutation(#[trigger] results[i].output) is None {
        if results.len() > 0 {
            law_last_mutation_wins(command, results.drop_last(), results.last());
            assert forall|i: int| 0 <= i < results.drop_last().len() implies command_mutation(
                #[trigger] results.drop_last()[i].output,
            ) is None by {
                assert(results.drop_last()[i] == results[i]);
            }
            assert(results.drop_last().push(results.last()) =~= results);
        }
    }
}

// ---------------------------------------------------------------------------
// Orchestrator ordering
// ---------------------------------------------------------------------------

/// One plugin's answer during dispatch: a result is kept in order; a failure is
/// left out of the results and handed back (to be logged).
pub fn collect_hook_outcome(results: &mut Vec<HookResult>, outcome: Result<HookResult, PluginError>) -> (dropped:
    Option<PluginError>)
    ensures
        match outcome {
            Ok(h) => final(results)@ == old(results)@.push(h) && dropped is None,
            Err(e) => final(results)@ == old(results)@ && dropped == Some(e),
        },
{
    match outcome {
        Ok(h) => {
            results.push(h);
            None
        },
        Err(e) => Some(e),
    }
}

/// Load tier of a plugin: internal plugins run first, then native, then Bun.
#[derive(Debug, Clone, Copy, PartialEq, Eq, Structural)]
pub enum LoadTier {
    Internal,
    Native,
    Bun,
}

/// Position of a tier in dispatch order.
pub open spec fn tier_rank(t: LoadTier) -> int {
    match t {
        LoadTier::Internal => 0,
        LoadTier::Native => 1,
        LoadTier::Bun => 2,
    }
}

fn tier_rank_exec(t: LoadTier) -> (r: u8)
    ensures
        r == tier_rank(t),
{
    match t {
        LoadTier::Internal => 0,
        LoadTier::Native => 1,
        LoadTier::Bun => 2,
    }
}

/// Where a configured plugin is loaded: host id, plugin name, load tier.
pub struct PluginTarget {
    pub host_id: String,
    pub name: String,
    pub tier: LoadTier,
}

/// Host and tier of each kind of plugin entry: a bare name or named reference
/// goes to `bun`, a native library to `native`, a WASM module to `wasm`
/// (dispatched in the Bun tier).
pub fn entry_target(entry: &PluginEntry) -> (r: PluginTarget)
    ensures
        r.name@ == plugin_entry_name(*entry),
        entry is Native ==> r.host_id@ == "native"@ && r.tier == LoadTier::Native,
        entry is Wasm ==> r.host_id@ == "wasm"@ && r.tier == LoadTier::Bun,
        (entry is Bun || entry is Named) ==> r.host_id@ == "bun"@ && r.tier == LoadTier::Bun,
{
    match entry {
        PluginEntry::Bun(s) => PluginTarget { host_id: owned("bun"), name: s.clone(), tier: LoadTier::Bun },
        PluginEntry::Native { native } => PluginTarget {
            host_id: owned("native"),
            name: native.clone(),
            tier: LoadTier::Native,
        },
        PluginEntry::Wasm { wasm } => PluginTarget { host_id: owned("wasm"), name: wasm.clone(), tier: LoadTier::Bun },
        PluginEntry::Named { name, .. } => PluginTarget { host_id: owned("bun"), name: name.clone(), tier: LoadTier::Bun },
    }
}

/// Index of the first host with id `id`.
pub fn resolve_host_index(host_ids: &Vec<HostId>, id: &str) -> (r: Option<usize>)
    ensures
        r matches Some(i) ==> i < host_ids@.len() && host_ids@[i as int].0@ == id@ && forall|j: int|
            0 <= j < i ==> host_ids@[j].0@ != id@,
        r is None ==> forall|j: int| 0 <= j < host_ids@.len() ==> host_ids@[j].0@ != id@,
{
    let mut i: usize = 0;
    while i < host_ids.len()
        invariant
            i <= host_ids@.len(),
            forall|j: int| 0 <= j < i ==> host_ids@[j].0@ != id@,
        decreases host_ids@.len() - i,
    {
        if str_eq(host_ids[i].0.as_str(), id) {
            return Some(i);
        }
        i = i + 1;
    }
    None
}

/// The id of the host that loads an entry.
pub open spec fn entry_host_id(entry: PluginEntry) -> Seq<char> {
    match entry {
        PluginEntry::Native { .. } => "native"@,
        PluginEntry::Wasm { .. } => "wasm"@,
        _ => "bun"@,
    }
}

/// The load tier of an entry.
pub open spec fn entry_tier(entry: PluginEntry) -> LoadTier {
    match entry {
        PluginEntry::Native { .. } => LoadTier::Native,
        _ => LoadTier::Bun,
    }
}

/// How one configured plugin is loaded: by which host (an index into the hosts),
/// under which spec, in which tier.
pub struct PlannedLoad {
    pub host: usize,
    pub spec: PluginSpec,
    pub tier: LoadTier,
}

/// Plans the load of a configured plugin: its host is the first registered host
/// with the entry's host id; with none, the error is
/// `Orchestrator("host not registered: <id>")`.
pub fn plan_plugin_load(host_ids: &Vec<HostId>, entry: &PluginEntry) -> (r: Result<PlannedLoad, PluginError>)
    ensures
        (exists|j: int| 0 <= j < host_ids@.len() && host_ids@[j].0@ == entry_host_id(*entry)) <==> r is Ok,
        r matches Ok(p) ==> {
            &&& p.host < host_ids@.len()
            &&& host_ids@[p.host as int].0@ == entry_host_id(*entry)
            &&& forall|j: int| 0 <= j < p.host ==> host_ids@[j].0@ != entry_host_id(*entry)
            &&& p.spec.name@ == plugin_entry_name(*entry)
            &&& p.spec.host.0@ == entry_host_id(*entry)
            &&& p.tier == entry_tier(*entry)
        },
        r matches Err(e) ==> (e matches PluginError::Orchestrator(m) && m@ == "host not registered: "@
            + entry_host_id(*entry)),
{
    let target = entry_target(entry);
    match resolve_host_index(host_ids, target.host_id.as_str()) {
        Some(i) => Ok(
            PlannedLoad {
                host: i,
                spec: PluginSpec { name: target.name, host: HostId(target.host_id) },
                tier: target.tier,
            },
        ),
        None => Err(PluginError::Orchestrator(concat2("host not registered: ", target.host_id.as_str()))),
    }
}

/// A registered plugin: tier, priority, registration order, the loaded plugin
/// and the index of its host.
pub struct LedgerEntry {
    pub tier: LoadTier,
    pub priority: i32,
    pub order: usize,
    pub plugin: LoadedPlugin,
    pub host: usize,
}

/// Dispatch key: tier first, then higher priority first, then registration order.
pub open spec fn dispatch_key(e: LedgerEntry) -> int {
    tier_rank(e.tier) * 0x1_0000_0000_0000_0000_0000_0000 + (0x7fff_ffff - e.priority)
        * 0x1_0000_0000_0000_0000 + e.order
}

/// Exact dispatch order before `b`: earlier tier, or same tier and higher
/// priority, or same tier and priority and earlier registration.
pub open spec fn dispatched_no_later(a: LedgerEntry, b: LedgerEntry) -> bool {
    tier_rank(a.tier) < tier_rank(b.tier) || (tier_rank(a.tier) == tier_rank(b.tier) && (a.priority
        > b.priority || (a.priority == b.priority && a.order <= b.order)))
}

proof fn lemma_key_order(a: LedgerEntry, b: LedgerEntry)
    requires
        a.order < 0x1_0000_0000_0000_0000,
        b.order < 0x1_0000_0000_0000_0000,
    ensures
        dispatched_no_later(a, b) <==> dispatch_key(a) <= dispatch_key(b),
{
    let ta = tier_rank(a.tier);
    let tb = tier_rank(b.tier);
    let pa = 0x7fff_ffff - a.priority;
    let pb = 0x7fff_ffff - b.priority;
    assert(0 <= pa < 0x1_0000_0000 && 0 <= pb < 0x1_0000_0000);
    assert(0 <= ta <= 2 && 0 <= tb <= 2);
    if ta < tb {
        assert(ta * 0x1_0000_0000_0000_0000_0000_0000 + 0x1_0000_0000_0000_0000_0000_0000 <= tb
            * 0x1_0000_0000_0000_0000_0000_0000);
    } else if ta > tb {
        assert(tb * 0x1_0000_0000_0000_0000_0000_0000 + 0x1_0000_0000_0000_0000_0000_0000 <= ta
            * 0x1_0000_0000_0000_0000_0000_0000);
    } else if pa < pb {
        assert(pa * 0x1_0000_0000_0000_0000 + 0x1_0000_0000_0000_0000 <= pb * 0x1_0000_0000_0000_0000);
    } else if pa > pb {
        assert(pb * 0x1_0000_0000_0000_0000 + 0x1_0000_0000_0000_0000 <= pa * 0x1_0000_0000_0000_0000);
    }
}

/// The registered plugins of an orchestrator, in registration order; an
/// entry's registration order is its position.
pub struct PluginLedger {
    entries: Vec<LedgerEntry>,
}

impl View for PluginLedger {
    type V = Seq<LedgerEntry>;

    closed spec fn view(&self) -> Seq<LedgerEntry> {
        self.entries@
    }
}

/// `perm` lists every index below `n` exactly once.
pub open spec fn is_permutation(perm: Seq<usize>, n: nat) -> bool {
    &&& perm.len() == n
    &&& forall|i: int| 0 <= i < perm.len() ==> perm[i] < n
    &&& forall|i: int, j: int| 0 <= i < j < perm.len() ==> perm[i] != perm[j]
}

/// Indices ordered by the dispatch key of the entries they point at.
pub open spec fn sorted_by_key(perm: Seq<usize>, entries: Seq<LedgerEntry>) -> bool {
    forall|i: int, j: int|
        0 <= i < j < perm.len() ==> dispatch_key(entries[perm[i] as int]) <= dispatch_key(
            entries[perm[j] as int],
        )
}

impl PluginLedger {
    #[verifier::type_invariant]
    spec fn inv(&self) -> bool {
        forall|i: int| 0 <= i < self.entries@.len() ==> self.entries@[i].order == i
            && self.entries@[i].priority == 0
    }

    /// No plugin registered.
    pub fn new() -> (r: Self)
        ensures
            r@.len() == 0,
    {
        PluginLedger { entries: Vec::new() }
    }

    /// Registers a loaded plugin with priority 0 and the next registration order.
    pub fn register(&mut self, plugin: LoadedPlugin, tier: LoadTier, host: usize) -> (order: usize)
        requires
            old(self)@.len() < usize::MAX,
        ensures
            order == old(self)@.len(),
            final(self)@ == old(self)@.push(LedgerEntry { tier, priority: 0, order, plugin, host }),
    {
        proof {
            use_type_invariant(&*self);
        }
        let order = self.entries.len();
        let mut v: Vec<LedgerEntry> = Vec::new();
        std::mem::swap(&mut v, &mut self.entries);
        v.push(LedgerEntry { tier, priority: 0, order, plugin, host });
        self.entries = v;
        order
    }

    /// Number of registered plugins.
    pub fn loaded_count(&self) -> (r: usize)
        ensures
            r == self@.len(),
    {
        self.entries.len()
    }

    /// The entry at registration position `i`.
    pub fn entry(&self, i: usize) -> (r: &LedgerEntry)
        requires
            i < self@.len(),
        ensures
            *r == self@[i as int],
    {
        &self.entries[i]
    }

    /// The order in which hooks reach the plugins: every registered plugin once,
    /// by tier, then higher priority, then registration order.
    pub fn dispatch_order(&self) -> (r: Vec<usize>)
        ensures
            is_permutation(r@, self@.len()),
            sorted_by_key(r@, self@),
    {
        proof {
            use_type_invariant(self);
        }
        let n = self.entries.len();
        let mut r: Vec<usize> = Vec::new();
        let mut i: usize = 0;
        while i < n
            invariant
                n == self.entries@.len(),
                i <= n,
                r@.len() == i,
                forall|a: int| 0 <= a < r@.len() ==> r@[a] < i,
                forall|a: int, b: int| 0 <= a < b < r@.len() ==> r@[a] != r@[b],
                sorted_by_key(r@, self.entries@),
            decreases n - i,
        {
            let ki = &self.entries[i];
            let ti = tier_rank_exec(ki.tier);
            let mut p: usize = 0;
            loop
                invariant
                    n == self.entries@.len(),
                    i < n,
                    p <= r@.len(),
                    ki == &self.entries@[i as int],
                    ti == tier_rank(ki.tier),
                    forall|a: int| 0 <= a < r@.len() ==> r@[a] < i,
                    forall|a: int| 0 <= a < p ==> dispatch_key(self.entries@[r@[a] as int]) <= dispatch_key(
                        self.entries@[i as int],
                    ),
                ensures
                    p <= r@.len(),
                    forall|a: int| 0 <= a < p ==> dispatch_key(self.entries@[r@[a] as int]) <= dispatch_key(
                        self.entries@[i as int],
                    ),
                    p < r@.len() ==> dispatch_key(self.entries@[r@[p as int] as int]) > dispatch_key(
                        self.entries@[i as int],
                    ),
                decreases r@.len() - p,
            {
                if p >= r.len() {
                    break;
                }
                let kp = &self.entries[r[p]];
                let tp = tier_rank_exec(kp.tier);
                let before = tp < ti || (tp == ti && (kp.priority > ki.priority || (kp.priority
                    == ki.priority && kp.order <= ki.order)));
                proof {
                    lemma_key_order(self.entries@[r@[p as int] as int], self.entries@[i as int]);
                }
                if !before {
                    break;
                }
                p = p + 1;
            }
            proof {
                if p < r@.len() {
                    assert(dispatch_key(self.entries@[r@[p as int] as int]) > dispatch_key(
                        self.entries@[i as int],
                    ));
                }
            }
            let ghost old_r = r@;
            r.insert(p, i);
            assert(r@ =~= old_r.insert(p as int, i));
            proof {
                assert forall|a: int, b: int| 0 <= a < b < r@.len() implies dispatch_key(
                    self.entries@[r@[a] as int],
                ) <= dispatch_key(self.entries@[r@[b] as int]) by {
                    if a < p && b == p {
                    } else if a == p && b > p {
                        assert(r@[b] == old_r[b - 1]);
                        if p < old_r.len() {
                            assert(old_r[p as int] == r@[p + 1]);
                        }
                        if b - 1 > p {
                            assert(dispatch_key(self.entries@[old_r[p as int] as int]) <= dispatch_key(
                                self.entries@[old_r[b - 1] as int],
                            ));
                        }
                    } else if a < p && b > p {
                        assert(r@[b] == old_r[b - 1]);
                        assert(r@[a] == old_r[a]);
                    } else if b < p {
                        assert(r@[b] == old_r[b]);
                        assert(r@[a] == old_r[a]);
                    } else {
                        assert(r@[b] == old_r[b - 1]);
                        assert(r@[a] == old_r[a - 1]);
                    }
                }
            }
            i = i + 1;
        }
        r
    }
}

/// Dispatch order follows the load tiers: a plugin of an earlier tier is never
/// dispatched after one of a later tier.
pub proof fn law_dispatch_respects_tiers(perm: Seq<usize>, entries: Seq<LedgerEntry>, i: int, j: int)
    requires
        is_permutation(perm, entries.len()),
        sorted_by_key(perm, entries),
        forall|k: int| 0 <= k < entries.len() ==> entries[k].priority == 0 && entries[k].order < 0x1_0000_0000_0000_0000,
        0 <= i < j < perm.len(),
    ensures
        tier_rank(entries[perm[i] as int].tier) <= tier_rank(entries[perm[j] as int].tier),
        tier_rank(entries[perm[i] as int].tier) == tier_rank(entries[perm[j] as int].tier) ==> entries[perm[i] as int].order
            <= entries[perm[j] as int].order,
{
}

} // verus!
