use jereko::adapters::normalized;
use jereko::adapters::v1::{denormalize_create_session, denormalize_send_message};
use jereko::adapters::v2::denormalize_create_session as v2_denorm_create;
use jereko::domain::{Message, MessageRole, Session, SessionId, SessionStatus};
use jereko::policy::ToolPolicy;
use jereko::pty::PtyManager;
use jereko::session_store::{SessionStore, SessionStorePort};

#[test]
fn pty_spawn_write_read() {
    let mut mgr = PtyManager::new();
    mgr.spawn("s1".into(), "echo hello".into(), String::new());
    assert!(mgr.status().sessions.contains(&"s1".into()));
    let w = mgr.write("s1", "ping");
    assert!(w.ok);
    let r = mgr.read("s1");
    assert!(r.ok);
    assert!(r.data.contains("ping") || r.data.contains("wrote"));
    assert!(mgr.kill("s1"));
}

#[test]
fn denies_git_prefix_by_default() {
    let p = ToolPolicy::default();
    assert!(p.path_denied(".git/config"));
    assert!(!p.path_denied("src/main.rs"));
}

#[test]
fn stores_and_retrieves_sessions() {
    let mut store = SessionStore::new();
    let session = Session::new().expect("random bytes for a session id");
    let id = session.id.clone();
    store.insert(session.clone());
    assert_eq!(store.get(&id).unwrap().id, id);
}

fn fixture_session() -> Session {
    Session {
        id: SessionId("00000000-0000-4000-8000-000000000001".into()),
        status: SessionStatus::Active,
        messages: vec![],
        provider_id: Some("anthropic".into()),
    }
}

#[test]
fn v1_create_session_response_matches_fixture_fields() {
    let session = fixture_session();
    let resp = denormalize_create_session(normalized::CreateSessionResponse { session });
    assert_eq!(resp.status, "active");
    assert_eq!(resp.provider.as_deref(), Some("anthropic"));
}

#[test]
fn v1_send_message_response_content_from_fixture() {
    let session = fixture_session();
    let assistant = Message {
        role: MessageRole::Assistant,
        content: "[stub:anthropic] received 1 messages".into(),
        provider: Some("anthropic".into()),
    };
    let resp = denormalize_send_message(normalized::SendMessageResponse {
        session,
        assistant_message: assistant,
    });
    assert_eq!(resp.content, "[stub:anthropic] received 1 messages");
}

#[test]
fn v2_create_session_response_preserves_session() {
    let session = fixture_session();
    let resp = v2_denorm_create(normalized::CreateSessionResponse {
        session: session.clone(),
    });
    assert_eq!(resp.session.id, session.id);
    assert_eq!(resp.session.status, SessionStatus::Active);
}
