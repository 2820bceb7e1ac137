//! PTY session manager: buffered command I/O per session. Spawning the
//! process on a pseudo-terminal happens outside this module, which receives
//! the captured banner.

use vstd::prelude::*;
use crate::extensions::{McpClient, LspClient, McpStatus, LspStatus};
use crate::text::{owned, concat2, str_eq, decimal, usize_to_decimal};

verus! {

/// PTY manager status: `idle` with no sessions, else `ready`.
pub struct PtyStatus {
    pub status: String,
    pub sessions: Vec<String>,
}

/// Outcome of a PTY read or write.
pub struct PtyIoResult {
    pub ok: bool,
    pub data: String,
}

/// One PTY session: the command, its unread output, and whether it is alive.
pub struct PtySession {
    pub command: String,
    pub buffer: String,
    pub alive: bool,
}

/// Mathematical view of a PTY session.
pub struct PtySessionView {
    pub command: Seq<char>,
    pub buffer: Seq<char>,
    pub alive: bool,
}

impl View for PtySession {
    type V = PtySessionView;

    open spec fn view(&self) -> PtySessionView {
        PtySessionView { command: self.command@, buffer: self.buffer@, alive: self.alive }
    }
}

/// The sessions of a list, by id (a later entry for an id wins).
pub open spec fn pty_map(s: Seq<(String, PtySession)>) -> Map<Seq<char>, PtySessionView>
    decreases s.len(),
{
    if s.len() == 0 {
        Map::empty()
    } else {
        pty_map(s.drop_last()).insert(s.last().0@, s.last().1@)
    }
}

/// No two entries share an id.
pub open spec fn pty_unique(s: Seq<(String, PtySession)>) -> bool {
    forall|i: int, j: int| 0 <= i < j < s.len() ==> s[i].0@ != s[j].0@
}

proof fn lemma_pty_index(s: Seq<(String, PtySession)>, i: int)
    requires
        pty_unique(s),
        0 <= i < s.len(),
    ensures
        pty_map(s).contains_key(s[i].0@),
        pty_map(s)[s[i].0@] == s[i].1@,
    decreases s.len(),
{
    if i < s.len() - 1 {
        lemma_pty_index(s.drop_last(), i);
    }
}

proof fn lemma_pty_absent(s: Seq<(String, PtySession)>, k: Seq<char>)
    requires
        forall|i: int| 0 <= i < s.len() ==> s[i].0@ != k,
    ensures
        !pty_map(s).contains_key(k),
    decreases s.len(),
{
    if s.len() > 0 {
        lemma_pty_absent(s.drop_last(), k);
    }
}

proof fn lemma_pty_update(s: Seq<(String, PtySession)>, i: int, x: (String, PtySession))
    requires
        pty_unique(s),
        0 <= i < s.len(),
        s[i].0@ == x.0@,
    ensures
        pty_map(s.update(i, x)) == pty_map(s).insert(x.0@, x.1@),
        pty_unique(s.update(i, x)),
    decreases s.len(),
{
    let u = s.update(i, x);
    if i == s.len() - 1 {
        assert(u.drop_last() =~= s.drop_last());
        assert(pty_map(u) =~= pty_map(s).insert(x.0@, x.1@));
    } else {
        lemma_pty_update(s.drop_last(), i, x);
        assert(u.drop_last() =~= s.drop_last().update(i, x));
        assert(pty_map(u) =~= pty_map(s).insert(x.0@, x.1@));
    }
}

proof fn lemma_pty_keys(s: Seq<(String, PtySession)>, k: Seq<char>)
    requires
        pty_map(s).contains_key(k),
    ensures
        exists|i: int| 0 <= i < s.len() && s[i].0@ == k,
    decreases s.len(),
{
    if s.len() > 0 && s.last().0@ != k {
        lemma_pty_keys(s.drop_last(), k);
        let i = choose|i: int| 0 <= i < s.drop_last().len() && s.drop_last()[i].0@ == k;
        assert(s[i].0@ == k);
    }
}

/// The acknowledgement appended to a session's output after a write of `n` bytes.
pub open spec fn write_ack(n: nat) -> Seq<char> {
    "\n# wrote "@ + decimal(n) + " bytes\n"@
}

/// PTY manager: sessions by id.
pub struct PtyManager {
    sessions: Vec<(String, PtySession)>,
}

impl View for PtyManager {
    type V = Map<Seq<char>, PtySessionView>;

    closed spec fn view(&self) -> Map<Seq<char>, PtySessionView> {
        pty_map(self.sessions@)
    }
}

impl PtyManager {
    #[verifier::type_invariant]
    spec fn inv(&self) -> bool {
        pty_unique(self.sessions@)
    }

    /// A manager with no sessions.
    pub fn new() -> (r: Self)
        ensures
            r@ == Map::<Seq<char>, PtySessionView>::empty(),
    {
        PtyManager { sessions: Vec::new() }
    }

    fn find(&self, id: &str) -> (r: Option<usize>)
        ensures
            r matches Some(i) ==> i < self.sessions@.len() && self.sessions@[i as int].0@ == id@,
            r is None ==> forall|j: int| 0 <= j < self.sessions@.len() ==> self.sessions@[j].0@ != id@,
    {
        let mut i: usize = 0;
        while i < self.sessions.len()
            invariant
                i <= self.sessions@.len(),
                forall|j: int| 0 <= j < i ==> self.sessions@[j].0@ != id@,
            decreases self.sessions@.len() - i,
        {
            if str_eq(self.sessions[i].0.as_str(), id) {
                return Some(i);
            }
            i = i + 1;
        }
        None
    }

    /// Replaces (or adds) the session stored under `id`.
    fn put(&mut self, id: String, session: PtySession)
        ensures
            final(self)@ == old(self)@.insert(id@, session@),
    {
        proof {
            use_type_invariant(&*self);
        }
        let found = self.find(id.as_str());
        let mut v: Vec<(String, PtySession)> = Vec::new();
        std::mem::swap(&mut v, &mut self.sessions);
        let ghost s0 = v@;
        match found {
            Some(i) => {
                proof {
                    lemma_pty_update(s0, i as int, (id, session));
                }
                v.set(i, (id, session));
                self.sessions = v;
            },
            None => {
                proof {
                    lemma_pty_absent(s0, id@);
                    assert((s0.push((id, session))).drop_last() =~= s0);
                }
                v.push((id, session));
                self.sessions = v;
            },
        }
    }

    /// Starts a session `session_id` running `command`; its output so far is
    /// `banner` (what the pseudo-terminal produced at spawn). An existing
    /// session with that id is replaced.
    pub fn spawn(&mut self, session_id: String, command: String, banner: String) -> (r: String)
        ensures
            r == session_id,
            final(self)@ == old(self)@.insert(
                session_id@,
                PtySessionView { command: command@, buffer: banner@, alive: true },
            ),
    {
        let id = session_id.clone();
        self.put(session_id, PtySession { command, buffer: banner, alive: true });
        id
    }

    /// Alias of `spawn`.
    pub fn spawn_stub(&mut self, session_id: String, command: String, banner: String) -> (r: String)
        ensures
            r == session_id,
            final(self)@ == old(self)@.insert(
                session_id@,
                PtySessionView { command: command@, buffer: banner@, alive: true },
            ),
    {
        self.spawn(session_id, command, banner)
    }

    /// Writes `data` to a live session: its output gains the data and an
    /// acknowledgement; answers `wrote <bytes>`. Unknown sessions and killed
    /// sessions fail and change nothing.
    pub fn write(&mut self, session_id: &str, data: &str) -> (r: PtyIoResult)
        ensures
            !old(self)@.contains_key(session_id@) ==> final(self)@ == old(self)@ && !r.ok && r.data@
                == "unknown pty session: "@ + session_id@,
            old(self)@.contains_key(session_id@) && !old(self)@[session_id@].alive ==> final(self)@
                == old(self)@ && !r.ok && r.data@ == "pty session closed"@,
            old(self)@.contains_key(session_id@) && old(self)@[session_id@].alive ==> {
                let s = old(self)@[session_id@];
                let n = data.len() as nat;
                &&& r.ok
                &&& r.data@ == "wrote "@ + decimal(n)
                &&& final(self)@ == old(self)@.insert(
                    session_id@,
                    PtySessionView { buffer: s.buffer + data@ + write_ack(n), ..s },
                )
            },
    {
        proof {
            use_type_invariant(&*self);
        }
        match self.find(session_id) {
            None => {
                proof {
                    lemma_pty_absent(self.sessions@, session_id@);
                }
                PtyIoResult { ok: false, data: concat2("unknown pty session: ", session_id) }
            },
            Some(i) => {
                proof {
                    lemma_pty_index(self.sessions@, i as int);
                }
                if !self.sessions[i].1.alive {
                    return PtyIoResult { ok: false, data: owned("pty session closed") };
                }
                let n = usize_to_decimal(data.len());
                let id = self.sessions[i].0.clone();
                let mut buffer = self.sessions[i].1.buffer.clone();
                buffer.append(data);
                buffer.append("\n# wrote ");
                buffer.append(n.as_str());
                buffer.append(" bytes\n");
                let command = self.sessions[i].1.command.clone();
                proof {
                    reveal_strlit("\n# wrote ");
                    reveal_strlit(" bytes\n");
                    assert(buffer@ =~= self.sessions@[i as int].1.buffer@ + data@ + write_ack(
                        data.len() as nat,
                    ));
                }
                self.put(id, PtySession { command, buffer, alive: true });
                PtyIoResult { ok: true, data: concat2("wrote ", n.as_str()) }
            },
        }
    }

    /// Takes a session's pending output (leaving it empty). Unknown sessions fail.
    pub fn read(&mut self, session_id: &str) -> (r: PtyIoResult)
        ensures
            !old(self)@.contains_key(session_id@) ==> final(self)@ == old(self)@ && !r.ok && r.data@
                == "unknown pty session: "@ + session_id@,
            old(self)@.contains_key(session_id@) ==> {
                let s = old(self)@[session_id@];
                &&& r.ok
                &&& r.data@ == s.buffer
                &&& final(self)@ == old(self)@.insert(session_id@, PtySessionView { buffer: seq![], ..s })
            },
    {
        proof {
            use_type_invariant(&*self);
        }
        match self.find(session_id) {
            None => {
                proof {
                    lemma_pty_absent(self.sessions@, session_id@);
                }
                PtyIoResult { ok: false, data: concat2("unknown pty session: ", session_id) }
            },
            Some(i) => {
                proof {
                    lemma_pty_index(self.sessions@, i as int);
                }
                let out = self.sessions[i].1.buffer.clone();
                let id = self.sessions[i].0.clone();
                let command = self.sessions[i].1.command.clone();
                let alive = self.sessions[i].1.alive;
                self.put(id, PtySession { command, buffer: String::new(), alive });
                PtyIoResult { ok: true, data: out }
            },
        }
    }

    /// Marks a session closed; `false` for an unknown session.
    pub fn kill(&mut self, session_id: &str) -> (r: bool)
        ensures
            r == old(self)@.contains_key(session_id@),
            !r ==> final(self)@ == old(self)@,
            r ==> final(self)@ == old(self)@.insert(
                session_id@,
                PtySessionView { alive: false, ..old(self)@[session_id@] },
            ),
    {
        proof {
            use_type_invariant(&*self);
        }
        match self.find(session_id) {
            None => {
                proof {
                    lemma_pty_absent(self.sessions@, session_id@);
                }
                false
            },
            Some(i) => {
                proof {
                    lemma_pty_index(self.sessions@, i as int);
                }
                let id = self.sessions[i].0.clone();
                let command = self.sessions[i].1.command.clone();
                let buffer = self.sessions[i].1.buffer.clone();
                self.put(id, PtySession { command, buffer, alive: false });
                true
            },
        }
    }

    /// The session ids, each once; status `idle` when there is none, else `ready`.
    pub fn status(&self) -> (r: PtyStatus)
        ensures
            forall|i: int, j: int| 0 <= i < j < r.sessions@.len() ==> r.sessions@[i]@ != r.sessions@[j]@,
            forall|i: int| 0 <= i < r.sessions@.len() ==> self@.contains_key(#[trigger] r.sessions@[i]@),
            forall|k: Seq<char>| self@.contains_key(k) ==> exists|i: int| 0 <= i < r.sessions@.len() && r.sessions@[i]@ == k,
            r.sessions@.len() == 0 ==> r.status@ == "idle"@,
            r.sessions@.len() > 0 ==> r.status@ == "ready"@,
    {
        proof {
            use_type_invariant(self);
        }
        let mut ids: Vec<String> = Vec::new();
        let mut i: usize = 0;
        while i < self.sessions.len()
            invariant
                i <= self.sessions@.len(),
                pty_unique(self.sessions@),
                ids@.len() == i,
                forall|j: int| 0 <= j < i ==> ids@[j]@ == self.sessions@[j].0@,
            decreases self.sessions@.len() - i,
        {
            ids.push(self.sessions[i].0.clone());
            i = i + 1;
        }
        proof {
            assert forall|j: int| 0 <= j < ids@.len() implies pty_map(self.sessions@).contains_key(
                #[trigger] ids@[j]@,
            ) by {
                lemma_pty_index(self.sessions@, j);
            }
            assert forall|k: Seq<char>| self@.contains_key(k) implies exists|j: int|
                0 <= j < ids@.len() && ids@[j]@ == k by {
                lemma_pty_keys(self.sessions@, k);
                let j = choose|j: int| 0 <= j < self.sessions@.len() && self.sessions@[j].0@ == k;
                assert(ids@[j]@ == k);
            }
        }
        let status = if ids.len() == 0 { owned("idle") } else { owned("ready") };
        let r = PtyStatus { status, sessions: ids };
        assert(r.sessions@ == ids@);
        r
    }
}

impl Default for PtyManager {
    fn default() -> (r: Self)
        ensures
            r@ == Map::<Seq<char>, PtySessionView>::empty(),
    {
        PtyManager::new()
    }
}

/// Shared extension hosts for the HTTP server.
pub struct ExtensionHosts {
    pub mcp: McpClient,
    pub lsp: LspClient,
    pub pty: PtyManager,
}

impl ExtensionHosts {
    /// Fresh MCP, LSP and PTY hosts.
    pub fn new() -> (r: Self)
        ensures
            !r.lsp.initialized,
            r.pty@ == Map::<Seq<char>, PtySessionView>::empty(),
    {
        ExtensionHosts { mcp: McpClient::new(), lsp: LspClient::new(), pty: PtyManager::new() }
    }
}

/// Status of a fresh MCP client.
pub fn mcp_status_stub() -> (r: McpStatus)
    ensures
        r.status@ == "ready"@,
        r.tools@.map_values(|t: String| t@) == crate::extensions::mcp_tool_names(),
{
    McpClient::new().status()
}

/// Status of a freshly initialized LSP client.
pub fn lsp_status_stub() -> (r: LspStatus)
    ensures
        r.initialized,
        r.status@ == "ready"@,
        crate::extensions::is_server_capabilities(r.server_capabilities),
{
    let mut client = LspClient::new();
    client.initialize("file:///tmp/jereko");
    client.status()
}

/// Status of a manager holding the `default` session (whose spawn produced `banner`).
pub fn pty_status_stub(banner: String) -> (r: PtyStatus)
    ensures
        r.status@ == "ready"@,
        r.sessions@.len() == 1,
        r.sessions@[0]@ == "default"@,
{
    let mut mgr = PtyManager::new();
    let _ = mgr.spawn(owned("default"), owned("echo jereko-pty"), banner);
    let st = mgr.status();
    proof {
        let m = mgr@;
        assert(m == Map::<Seq<char>, PtySessionView>::empty().insert(
            "default"@,
            PtySessionView { command: "echo jereko-pty"@, buffer: banner@, alive: true },
        ));
        assert(m.contains_key("default"@));
        assert(forall|x: Seq<char>| m.contains_key(x) ==> x == "default"@);
        let k = choose|i: int| 0 <= i < st.sessions@.len() && st.sessions@[i]@ == "default"@;
        assert(st.sessions@.len() >= 1);
        if st.sessions@.len() > 1 {
            assert(m.contains_key(st.sessions@[0]@));
            assert(m.contains_key(st.sessions@[1]@));
            assert(false);
        }
        assert(st.sessions@[0]@ == "default"@) by {
            assert(m.contains_key(st.sessions@[0]@));
        }
    }
    st
}

/// Reading drains a session: right after a read, a second read of the same
/// session answers nothing (no output was produced in between).
pub proof fn law_read_drains(before: Map<Seq<char>, PtySessionView>, after: Map<Seq<char>, PtySessionView>, id: Seq<char>)
    requires
        before.contains_key(id),
        after == before.insert(id, PtySessionView { buffer: seq![], ..before[id] }),
    ensures
        after.contains_key(id),
        after[id].buffer.len() == 0,
        after[id].alive == before[id].alive,
        after[id].command == before[id].command,
        forall|k: Seq<char>| k != id ==> after.contains_key(k) == before.contains_key(k) && (before.contains_key(k) ==> after[k] == before[k]),
{
}

/// What a read gives back of a write: on a live session, a read right after a
/// write of `data` returns the earlier output followed by `data` and the write
/// acknowledgement, so the written data appears in what is read.
pub proof fn law_read_returns_written(
    before: Map<Seq<char>, PtySessionView>,
    after_write: Map<Seq<char>, PtySessionView>,
    id: Seq<char>,
    data: Seq<char>,
    n: nat,
)
    requires
        before.contains_key(id),
        before[id].alive,
        after_write == before.insert(
            id,
            PtySessionView { buffer: before[id].buffer + data + write_ack(n), ..before[id] },
        ),
    ensures
        after_write.contains_key(id),
        after_write[id].buffer == before[id].buffer + data + write_ack(n),
        after_write[id].buffer.subrange(before[id].buffer.len() as int, (before[id].buffer.len()
            + data.len()) as int) == data,
        after_write[id].alive,
{
    let b = before[id].buffer;
    assert((b + data + write_ack(n)).subrange(b.len() as int, (b.len() + data.len()) as int) =~= data);
}

} // verus!
