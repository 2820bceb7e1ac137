//! JSON-line IPC messages between the runtime and the Bun sidecar, the
//! handshake loop's decisions, and the in-memory sidecar port used in tests.

use vstd::prelude::*;
use crate::json::JsonValue;
use crate::plugins::PluginError;
use crate::text::{owned, concat2};

verus! {

/// Runtime → sidecar messages.
pub enum SidecarOutbound {
    Init { config: JsonValue, plugins: Vec<String> },
    SessionStart { session_id: String },
    SessionMessage { session_id: String, content: String },
    TuiRender { frame: JsonValue },
    Shutdown,
}

/// Sidecar → runtime messages.
pub enum SidecarInbound {
    Ready,
    TuiRender { frame: JsonValue },
    PluginEvent { plugin: String, event: JsonValue },
    Error { message: String },
    Log { level: String, message: String },
}

/// What the handshake loop does with one inbound message.
pub enum SidecarStep {
    /// `ready`: the loop ends successfully.
    Finished,
    /// `error`: the loop ends with this error.
    Failed(PluginError),
    /// A log line to record; keep reading.
    Log { level: String, message: String },
    /// Anything else; keep reading.
    Continue,
}

/// The handshake loop's decision for one inbound message.
pub fn sidecar_step(message: SidecarInbound) -> (r: SidecarStep)
    ensures
        message is Ready ==> r is Finished,
        message matches SidecarInbound::Error { message: m } ==> (r matches SidecarStep::Failed(
            PluginError::Sidecar(e),
        ) && e == m),
        message matches SidecarInbound::Log { level, message: m } ==> (r matches SidecarStep::Log {
            level: l,
            message: n,
        } && l == level && n == m),
        (message is TuiRender || message is PluginEvent) ==> r is Continue,
{
    match message {
        SidecarInbound::Ready => SidecarStep::Finished,
        SidecarInbound::Error { message } => SidecarStep::Failed(PluginError::Sidecar(message)),
        SidecarInbound::Log { level, message } => SidecarStep::Log { level, message },
        _ => SidecarStep::Continue,
    }
}

/// In-memory sidecar port: records outbound messages and replays queued
/// inbound ones (initially a single `ready`).
pub struct InMemorySidecarPort {
    pub outbound: Vec<SidecarOutbound>,
    pub inbound: Vec<SidecarInbound>,
}

impl InMemorySidecarPort {
    /// A port with nothing sent and one `ready` queued.
    pub fn new() -> (r: Self)
        ensures
            r.outbound@.len() == 0,
            r.inbound@.len() == 1,
            r.inbound@[0] is Ready,
    {
        InMemorySidecarPort { outbound: Vec::new(), inbound: vec![SidecarInbound::Ready] }
    }

    /// The messages sent so far, in order.
    pub fn recorded_outbound(&self) -> (r: &[SidecarOutbound])
        ensures
            r@ == self.outbound@,
    {
        self.outbound.as_slice()
    }

    /// Queues an inbound message.
    pub fn push_inbound(&mut self, message: SidecarInbound)
        ensures
            final(self).inbound@ == old(self).inbound@.push(message),
            final(self).outbound@ == old(self).outbound@,
    {
        self.inbound.push(message);
    }

    /// Records an outbound message.
    pub fn send(&mut self, message: SidecarOutbound)
        ensures
            final(self).outbound@ == old(self).outbound@.push(message),
            final(self).inbound@ == old(self).inbound@,
    {
        self.outbound.push(message);
    }

    /// Takes the oldest queued inbound message; `Sidecar("no inbound messages")`
    /// when none is queued.
    pub fn recv(&mut self) -> (r: Result<SidecarInbound, PluginError>)
        ensures
            final(self).outbound@ == old(self).outbound@,
            old(self).inbound@.len() == 0 ==> final(self).inbound@.len() == 0 && (r matches Err(
                PluginError::Sidecar(m),
            ) && m@ == "no inbound messages"@),
            old(self).inbound@.len() > 0 ==> final(self).inbound@ == old(self).inbound@.drop_first()
                && r == Ok::<SidecarInbound, PluginError>(old(self).inbound@[0]),
    {
        if self.inbound.len() == 0 {
            return Err(PluginError::Sidecar(owned("no inbound messages")));
        }
        let m = self.inbound.remove(0);
        assert(self.inbound@ =~= old(self).inbound@.drop_first());
        Ok(m)
    }
}

/// What a line read from the sidecar's stdout delivers: nothing for a blank
/// line, the message it parsed to, or an `error` message naming the parse error.
pub fn inbound_line_event(blank: bool, parsed: Result<SidecarInbound, String>) -> (r: Option<SidecarInbound>)
    ensures
        blank ==> r is None,
        !blank ==> match parsed {
            Ok(m) => r == Some(m),
            Err(e) => r matches Some(SidecarInbound::Error { message }) && message@
                == "invalid JSON-line from sidecar: "@ + e@,
        },
{
    if blank {
        return None;
    }
    match parsed {
        Ok(m) => Some(m),
        Err(e) => Some(
            SidecarInbound::Error { message: concat2("invalid JSON-line from sidecar: ", e.as_str()) },
        ),
    }
}

/// How waiting for the sidecar process to exit after `shutdown` ended.
pub enum ChildExit {
    /// The process exited: whether with success, and its exit status as text.
    Exited { success: bool, status: String },
    /// Waiting failed, with the error's message.
    WaitFailed(String),
    /// The process had not exited when the wait timed out (it is then killed).
    TimedOut,
}

/// The result of a `shutdown`: success when the sidecar exited successfully;
/// otherwise `sidecar exited with status <s>`, `wait failed: <e>`, or
/// `sidecar did not exit after shutdown within timeout`.
pub fn shutdown_outcome(exit: ChildExit) -> (r: Result<(), PluginError>)
    ensures
        exit matches ChildExit::Exited { success, status } ==> (success ==> r is Ok) && (!success ==> (
        r matches Err(PluginError::Sidecar(m)) && m@ == "sidecar exited with status "@ + status@)),
        exit matches ChildExit::WaitFailed(e) ==> (r matches Err(PluginError::Sidecar(m)) && m@
            == "wait failed: "@ + e@),
        exit is TimedOut ==> (r matches Err(PluginError::Sidecar(m)) && m@
            == "sidecar did not exit after shutdown within timeout"@),
{
    match exit {
        ChildExit::Exited { success, status } => {
            if success {
                Ok(())
            } else {
                Err(PluginError::Sidecar(concat2("sidecar exited with status ", status.as_str())))
            }
        },
        ChildExit::WaitFailed(e) => Err(PluginError::Sidecar(concat2("wait failed: ", e.as_str()))),
        ChildExit::TimedOut => Err(
            PluginError::Sidecar(owned("sidecar did not exit after shutdown within timeout")),
        ),
    }
}

/// `ready` or `error`: the messages that end the handshake.
pub open spec fn ends_handshake(m: SidecarInbound) -> bool {
    m is Ready || m is Error
}

/// Runs the handshake over an in-memory port: reads until `ready` (success),
/// `error` (that error) or an empty queue (`no inbound messages`); logs and
/// other messages are consumed.
pub fn run_sidecar_loop(port: &mut InMemorySidecarPort) -> (r: Result<(), PluginError>)
    ensures
        final(port).outbound@ == old(port).outbound@,
        forall|i: int|
            0 <= i < old(port).inbound@.len() && #[trigger] ends_handshake(old(port).inbound@[i])
                && (forall|j: int| 0 <= j < i ==> !ends_handshake(old(port).inbound@[j])) ==> {
                &&& final(port).inbound@ == old(port).inbound@.skip(i + 1)
                &&& old(port).inbound@[i] is Ready ==> r is Ok
                &&& old(port).inbound@[i] matches SidecarInbound::Error { message } ==> (r matches Err(
                    PluginError::Sidecar(m),
                ) && m == message)
            },
        (forall|i: int| 0 <= i < old(port).inbound@.len() ==> !ends_handshake(old(port).inbound@[i]))
            ==> (final(port).inbound@.len() == 0 && (r matches Err(PluginError::Sidecar(m)) && m@
            == "no inbound messages"@)),
{
    let ghost q = old(port).inbound@;
    let ghost mut k: int = 0;
    loop
        invariant
            0 <= k <= q.len(),
            q == old(port).inbound@,
            port.inbound@ == q.skip(k),
            port.outbound@ == old(port).outbound@,
            forall|j: int| 0 <= j < k ==> !ends_handshake(q[j]),
        decreases q.len() - k,
    {
        let msg = match port.recv() {
            Ok(m) => m,
            Err(e) => {
                assert(k == q.len());
                return Err(e);
            },
        };
        assert(msg == q[k]);
        match sidecar_step(msg) {
            SidecarStep::Finished => {
                proof {
                    assert(port.inbound@ =~= q.skip(k + 1));
                    assert forall|i: int| 0 <= i < q.len() && #[trigger] ends_handshake(q[i]) && (forall|j: int|
                        0 <= j < i ==> !ends_handshake(q[j])) implies i == k by {
                        if i < k {
                        } else if i > k {
                            assert(ends_handshake(q[k]));
                        }
                    }
                }
                return Ok(());
            },
            SidecarStep::Failed(e) => {
                proof {
                    assert(port.inbound@ =~= q.skip(k + 1));
                    assert forall|i: int| 0 <= i < q.len() && #[trigger] ends_handshake(q[i]) && (forall|j: int|
                        0 <= j < i ==> !ends_handshake(q[j])) implies i == k by {
                        if i < k {
                        } else if i > k {
                            assert(ends_handshake(q[k]));
                        }
                    }
                }
                return Err(e);
            },
            _ => {},
        }
        proof {
            assert(q.skip(k).drop_first() =~= q.skip(k + 1));
            k = k + 1;
        }
    }
}

} // verus!
