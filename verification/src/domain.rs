//! Domain types shared by the server, providers and plugins: sessions and messages.

use vstd::prelude::*;
use crate::text::owned;

verus! {

/// Opaque session identifier.
#[derive(Debug, PartialEq, Eq)]
pub struct SessionId(pub String);

impl Clone for SessionId {
    fn clone(&self) -> (r: Self)
        ensures
            r == *self,
    {
        SessionId(self.0.clone())
    }
}

/// Lifecycle state of a session.
#[derive(Debug, Clone, Copy, PartialEq, Eq, Structural)]
pub enum SessionStatus {
    Active,
    Idle,
    Completed,
    Error,
}

/// Author of a chat message.
#[derive(Debug, Clone, Copy, PartialEq, Eq, Structural)]
pub enum MessageRole {
    System,
    User,
    Assistant,
    Tool,
}

/// The characters of an optional string.
pub open spec fn opt_view(o: Option<String>) -> Option<Seq<char>> {
    match o {
        Some(s) => Some(s@),
        None => None,
    }
}

/// One chat message.
pub struct Message {
    pub role: MessageRole,
    pub content: String,
    pub provider: Option<String>,
}

/// Mathematical view of a message.
pub struct MessageView {
    pub role: MessageRole,
    pub content: Seq<char>,
    pub provider: Option<Seq<char>>,
}

impl View for Message {
    type V = MessageView;

    open spec fn view(&self) -> MessageView {
        MessageView { role: self.role, content: self.content@, provider: opt_view(self.provider) }
    }
}

impl Clone for Message {
    fn clone(&self) -> (r: Self)
        ensures
            r == *self,
    {
        Message { role: self.role, content: self.content.clone(), provider: self.provider.clone() }
    }
}

/// Views of a list of messages.
pub open spec fn messages_view(v: Seq<Message>) -> Seq<MessageView> {
    v.map_values(|m: Message| m@)
}

/// A chat session: identifier, status, transcript and the provider it talks to.
pub struct Session {
    pub id: SessionId,
    pub status: SessionStatus,
    pub messages: Vec<Message>,
    pub provider_id: Option<String>,
}

/// Mathematical view of a session.
pub struct SessionView {
    pub id: Seq<char>,
    pub status: SessionStatus,
    pub messages: Seq<MessageView>,
    pub provider_id: Option<Seq<char>>,
}

impl View for Session {
    type V = SessionView;

    open spec fn view(&self) -> SessionView {
        SessionView {
            id: self.id.0@,
            status: self.status,
            messages: messages_view(self.messages@),
            provider_id: opt_view(self.provider_id),
        }
    }
}

/// A copy of a message list.
pub fn clone_messages(v: &Vec<Message>) -> (r: Vec<Message>)
    ensures
        r@ == v@,
{
    let mut r: Vec<Message> = Vec::new();
    let mut i: usize = 0;
    while i < v.len()
        invariant
            i <= v@.len(),
            r@ == v@.take(i as int),
        decreases v@.len() - i,
    {
        r.push(v[i].clone());
        i = i + 1;
        assert(r@ =~= v@.take(i as int));
    }
    assert(v@.take(v@.len() as int) =~= v@);
    r
}

impl Clone for Session {
    fn clone(&self) -> (r: Self)
        ensures
            r@ == self@,
            r.id == self.id,
            r.status == self.status,
            r.messages@ == self.messages@,
            r.provider_id == self.provider_id,
    {
        let messages = clone_messages(&self.messages);
        Session {
            id: self.id.clone(),
            status: self.status,
            messages,
            provider_id: self.provider_id.clone(),
        }
    }
}

/// Sixteen bytes from the operating system's random source (`getrandom::fill`),
/// or `None` when that source fails. Nothing is stated of the bytes: they are
/// random.
#[verifier::external_body]
fn os_random_16() -> (r: Option<[u8; 16]>) {
    let mut bytes = [0u8; 16];
    match getrandom::fill(&mut bytes) {
        Ok(()) => Some(bytes),
        Err(_) => None,
    }
}

/// A lower-case hexadecimal digit.
pub open spec fn is_lower_hex(c: char) -> bool {
    ('0' <= c && c <= '9') || ('a' <= c && c <= 'f')
}

/// The hyphenated form of a version-4 UUID: 36 characters, `-` at 8, 13, 18 and
/// 23, the version digit `4` at 14, a variant digit `8`, `9`, `a` or `b` at 19,
/// lower-case hexadecimal digits elsewhere.
pub open spec fn is_uuid_v4_text(s: Seq<char>) -> bool {
    &&& s.len() == 36
    &&& forall|i: int|
        0 <= i < 36 ==> (if i == 8 || i == 13 || i == 18 || i == 23 {
            s[i] == '-'
        } else {
            is_lower_hex(#[trigger] s[i])
        })
    &&& s[14] == '4'
    &&& (s[19] == '8' || s[19] == '9' || s[19] == 'a' || s[19] == 'b')
}

/// The text of the version-4 UUID made from sixteen random bytes.
pub uninterp spec fn uuid_v4_text(bytes: Seq<u8>) -> Seq<char>;

/// The version-4 UUID made from sixteen random bytes
/// (`uuid::Builder::from_random_bytes`, which sets the version and variant
/// bits), in its `Display` form: hyphenated lower-case hexadecimal.
#[verifier::external_body]
fn uuid_v4_string(bytes: [u8; 16]) -> (s: String)
    ensures
        s@ == uuid_v4_text(bytes@),
        is_uuid_v4_text(s@),
{
    uuid::Builder::from_random_bytes(bytes).into_uuid().to_string()
}

/// A fresh random session identifier in the version-4 UUID form; `None` when
/// the operating system's random source fails.
pub fn fresh_session_id() -> (id: Option<String>)
    ensures
        id matches Some(s) ==> is_uuid_v4_text(s@),
{
    match os_random_16() {
        Some(bytes) => Some(uuid_v4_string(bytes)),
        None => None,
    }
}

impl Session {
    /// A new idle session with no messages and no provider, under a fresh random
    /// version-4 UUID; `None` when no random bytes can be had.
    pub fn new() -> (r: Option<Session>)
        ensures
            r matches Some(s) ==> s@.status == SessionStatus::Idle && s@.messages.len() == 0
                && s@.provider_id is None && is_uuid_v4_text(s@.id),
    {
        match fresh_session_id() {
            Some(id) => Some(
                Session { id: SessionId(id), status: SessionStatus::Idle, messages: Vec::new(), provider_id: None },
            ),
            None => None,
        }
    }
}

/// Errors of the core domain.
pub enum CoreError {
    SessionNotFound(String),
    InvalidSessionState(String),
    Serialization(String),
}

/// A user-authored message.
pub fn user_message(content: &str) -> (m: Message)
    ensures
        m.role == MessageRole::User,
        m.content@ == content@,
        m.provider is None,
{
    Message { role: MessageRole::User, content: owned(content), provider: None }
}

} // verus!
