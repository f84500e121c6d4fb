use rs_terminal::{
    ConnectionType, CreateSessionRequest, Session, SessionRegistry, SessionStatus,
};

fn sample_session(id: &str, user: &str) -> Session {
    Session {
        session_id: id.to_string(),
        user_id: user.to_string(),
        title: None,
        status: SessionStatus::Created,
        columns: 80,
        rows: 24,
        working_directory: None,
        shell_type: "bash".to_string(),
        connection_type: ConnectionType::WebSocket,
        created_at: 42,
    }
}

#[test]
fn add_then_get_round_trip() {
    let mut registry = SessionRegistry::new();
    assert_eq!(registry.len(), 0);
    assert!(registry.add_session(sample_session("a", "u1")));
    assert_eq!(registry.len(), 1);
    let got = registry.get_session(&"a".to_string()).expect("present");
    assert_eq!(got.session_id, "a");
    assert_eq!(got.user_id, "u1");
    assert_eq!(got.status, SessionStatus::Created);
    assert_eq!(got.created_at, 42);
}

#[test]
fn duplicate_id_is_rejected() {
    let mut registry = SessionRegistry::new();
    assert!(registry.add_session(sample_session("a", "u1")));
    assert!(!registry.add_session(sample_session("a", "u2")));
    assert_eq!(registry.len(), 1);
    assert_eq!(registry.get_session(&"a".to_string()).unwrap().user_id, "u1");
}

#[test]
fn get_missing_is_distinct_not_found() {
    let registry = SessionRegistry::new();
    assert!(registry.get_session(&"nope".to_string()).is_none());
}

#[test]
fn list_returns_all_in_insertion_order() {
    let mut registry = SessionRegistry::new();
    registry.add_session(sample_session("a", "u1"));
    registry.add_session(sample_session("b", "u2"));
    registry.add_session(sample_session("c", "u3"));
    let all = registry.list_sessions();
    let ids: Vec<&str> = all.iter().map(|s| s.session_id.as_str()).collect();
    assert_eq!(ids, vec!["a", "b", "c"]);
}

#[test]
fn update_replaces_only_matching_entry() {
    let mut registry = SessionRegistry::new();
    registry.add_session(sample_session("a", "u1"));
    registry.add_session(sample_session("b", "u2"));
    let mut changed = sample_session("b", "u2");
    changed.status = SessionStatus::Active;
    assert!(registry.update_session(changed));
    assert_eq!(
        registry.get_session(&"b".to_string()).unwrap().status,
        SessionStatus::Active
    );
    assert_eq!(
        registry.get_session(&"a".to_string()).unwrap().status,
        SessionStatus::Created
    );
    assert!(!registry.update_session(sample_session("zz", "u9")));
}

#[test]
fn resize_session_updates_geometry() {
    let mut registry = SessionRegistry::new();
    registry.add_session(sample_session("a", "u1"));
    assert!(registry.resize_session(&"a".to_string(), 120, 40));
    let got = registry.get_session(&"a".to_string()).unwrap();
    assert_eq!((got.columns, got.rows), (120, 40));
    assert!(!registry.resize_session(&"missing".to_string(), 10, 10));
}

#[test]
fn remove_returns_the_record_exactly_once() {
    let mut registry = SessionRegistry::new();
    registry.add_session(sample_session("a", "u1"));
    registry.add_session(sample_session("b", "u2"));
    let removed = registry.remove_session(&"a".to_string()).expect("removed record");
    assert_eq!(removed.session_id, "a");
    assert_eq!(registry.len(), 1);
    assert!(registry.remove_session(&"a".to_string()).is_none());
    assert_eq!(registry.len(), 1);
    assert!(registry.get_session(&"b".to_string()).is_some());
}

#[test]
fn create_session_fills_defaults() {
    let mut registry = SessionRegistry::new();
    let request = CreateSessionRequest {
        user_id: "operator".to_string(),
        title: Some("window".to_string()),
        working_directory: Some("/srv".to_string()),
        shell_type: None,
        columns: None,
        rows: None,
    };
    let session = registry
        .create_session(request, ConnectionType::WebSocket, &"bash".to_string())
        .expect("fresh random id");
    assert_eq!(session.session_id.len(), 36);
    assert_eq!(session.user_id, "operator");
    assert_eq!(session.title.as_deref(), Some("window"));
    assert_eq!(session.shell_type, "bash");
    assert_eq!((session.columns, session.rows), (80, 24));
    assert_eq!(session.status, SessionStatus::Created);
    assert_eq!(registry.len(), 1);
    assert!(registry.get_session(&session.session_id).is_some());
}

#[test]
fn create_session_honors_explicit_fields() {
    let mut registry = SessionRegistry::new();
    let request = CreateSessionRequest {
        user_id: "operator".to_string(),
        title: None,
        working_directory: None,
        shell_type: Some("powershell".to_string()),
        columns: Some(132),
        rows: Some(50),
    };
    let session = registry
        .create_session(request, ConnectionType::WebTransport, &"bash".to_string())
        .unwrap();
    assert_eq!(session.shell_type, "powershell");
    assert_eq!((session.columns, session.rows), (132, 50));
    assert_eq!(session.connection_type, ConnectionType::WebTransport);
}

#[test]
fn create_sessions_get_distinct_ids() {
    let mut registry = SessionRegistry::new();
    for _ in 0..20 {
        let request = CreateSessionRequest {
            user_id: "u".to_string(),
            title: None,
            working_directory: None,
            shell_type: None,
            columns: None,
            rows: None,
        };
        registry
            .create_session(request, ConnectionType::WebSocket, &"bash".to_string())
            .expect("random ids do not collide in twenty draws");
    }
    assert_eq!(registry.len(), 20);
}
