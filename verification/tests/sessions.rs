use nixacp_gateway::entities::message::{Message, Role};
use nixacp_gateway::sessions::{uuid_text, AcpSessionStore, SESSION_TTL_MS};

#[test]
fn create_and_lookup_session() {
    let mut store = AcpSessionStore::new();
    let id = store.create_session("/tmp".to_owned(), 0);
    let snapshot = store.snapshot(&id, 1);
    assert!(snapshot.is_some());
    let (history, cwd) = snapshot.unwrap();
    assert!(history.is_empty());
    assert_eq!(cwd, "/tmp");
}

#[test]
fn push_messages_to_session() {
    let mut store = AcpSessionStore::new();
    let id = store.create_session("/tmp".to_owned(), 0);
    assert!(store.push_messages(&id, vec![Message::user("hello")], 1));
    let (history, _) = store.snapshot(&id, 2).unwrap();
    assert_eq!(history.len(), 1);
}

#[test]
fn push_messages_unknown_session_returns_false() {
    let mut store = AcpSessionStore::new();
    assert!(!store.push_messages("does-not-exist", vec![Message::user("hi")], 0));
    assert!(store.snapshot("does-not-exist", 0).is_none());
}

#[test]
fn remove_session() {
    let mut store = AcpSessionStore::new();
    let id = store.create_session("/tmp".to_owned(), 0);
    store.remove_session(&id);
    assert!(store.snapshot(&id, 1).is_none());
}

#[test]
fn evict_expired_leaves_fresh_sessions() {
    let mut store = AcpSessionStore::new();
    let id = store.create_session("/tmp".to_owned(), 0);
    store.evict_expired(1_000);
    assert!(store.snapshot(&id, 1_000).is_some());
}

#[test]
fn evict_expired_drops_sessions_idle_for_the_whole_limit() {
    let mut store = AcpSessionStore::new();
    let stale = store.create_session("/a".to_owned(), 0);
    let fresh = store.create_session("/b".to_owned(), 0);
    // A use moves the session's last access forward.
    assert!(store.push_messages(&fresh, vec![Message::user("hi")], 10));
    store.evict_expired(SESSION_TTL_MS);
    assert!(store.snapshot(&stale, SESSION_TTL_MS).is_none());
    assert!(store.snapshot(&fresh, SESSION_TTL_MS).is_some());
}

#[test]
fn evict_expired_keeps_a_session_one_millisecond_short_of_the_limit() {
    let mut store = AcpSessionStore::new();
    let id = store.create_session("/tmp".to_owned(), 5);
    store.evict_expired(5 + SESSION_TTL_MS - 1);
    assert!(store.snapshot(&id, 0).is_some());
}

#[test]
fn publish_received_by_subscriber() {
    let mut store = AcpSessionStore::new();
    let id = store.create_session("/tmp".to_owned(), 0);
    let mut rx = store.subscribe(&id).unwrap();
    store.publish(&id, r#"{"jsonrpc":"2.0","method":"session/update"}"#.to_owned());
    let msg = rx.try_recv().unwrap();
    assert!(msg.contains("session/update"));
}

#[test]
fn subscribe_unknown_session_returns_none() {
    let mut store = AcpSessionStore::new();
    assert!(store.subscribe("nope").is_none());
}

#[test]
fn appended_messages_follow_the_history_in_order() {
    let mut store = AcpSessionStore::new();
    let id = store.create_session("/work".to_owned(), 0);
    let other = store.create_session("/other".to_owned(), 0);
    assert!(store.push_messages(&id, vec![Message::user("one"), Message::assistant("two")], 1));
    assert!(store.push_messages(&id, vec![Message::user("three")], 2));
    let (history, cwd) = store.snapshot(&id, 3).unwrap();
    let texts: Vec<&str> = history.iter().map(|m| m.text_content().unwrap()).collect();
    assert_eq!(texts, vec!["one", "two", "three"]);
    assert_eq!(history[1].role, Role::Assistant);
    assert_eq!(cwd, "/work");
    let (other_history, other_cwd) = store.snapshot(&other, 3).unwrap();
    assert!(other_history.is_empty());
    assert_eq!(other_cwd, "/other");
}

#[test]
fn session_ids_are_distinct_hyphenated_uuids() {
    let mut store = AcpSessionStore::new();
    let a = store.create_session("/tmp".to_owned(), 0);
    let b = store.create_session("/tmp".to_owned(), 0);
    assert_ne!(a, b);
    assert_eq!(a.len(), 36);
    for (i, c) in a.chars().enumerate() {
        if [8, 13, 18, 23].contains(&i) {
            assert_eq!(c, '-');
        } else {
            assert!(c.is_ascii_digit() || ('a'..='f').contains(&c));
        }
    }
    assert!(uuid::Uuid::parse_str(&a).is_ok());
}

#[test]
fn uuid_text_matches_the_hyphenated_display() {
    let value: u128 = 0x0123_4567_89ab_cdef_0123_4567_89ab_cdef;
    assert_eq!(uuid_text(value), "01234567-89ab-cdef-0123-456789abcdef");
    assert_eq!(uuid_text(value), uuid::Uuid::from_u128(value).to_string());
    assert_eq!(uuid_text(0), "00000000-0000-0000-0000-000000000000");
}
