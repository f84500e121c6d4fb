use rs_terminal::engine::{
    cleanup_session, fail_session, forward_form, run_session, step, ConnEvent, EngineAction,
    PtyEvent, SessionEvent, SessionPhase,
};
use rs_terminal::{
    ConnectionType, MemoryPty, PtyConfig, ScriptedConnection, Session, SessionRegistry,
    SessionStatus, TerminalMessage,
};

fn sample_session(id: &str) -> Session {
    Session {
        session_id: id.to_string(),
        user_id: "user-1".to_string(),
        title: Some("terminal".to_string()),
        status: SessionStatus::Created,
        columns: 80,
        rows: 24,
        working_directory: Some("/tmp".to_string()),
        shell_type: "bash".to_string(),
        connection_type: ConnectionType::WebSocket,
        created_at: 0,
    }
}

fn config_with_cwd(cwd: &str) -> PtyConfig {
    let mut config = PtyConfig::default();
    config.cwd = Some(cwd.to_string());
    config
}

fn sent_bytes(conn: &ScriptedConnection) -> Vec<u8> {
    let mut out = Vec::new();
    for message in conn.sent_messages() {
        match message {
            TerminalMessage::Text(t) => out.extend_from_slice(t.as_bytes()),
            TerminalMessage::Binary(b) => out.extend_from_slice(&b),
            _ => {}
        }
    }
    out
}

fn contains(haystack: &[u8], needle: &[u8]) -> bool {
    haystack.windows(needle.len()).any(|w| w == needle)
}

#[test]
fn step_writes_text_to_pty() {
    let event = SessionEvent::Conn(ConnEvent::Received(TerminalMessage::Text(
        "ls\n".to_string(),
    )));
    let (phase, action) = step(event);
    assert_eq!(phase, SessionPhase::Active);
    match action {
        EngineAction::WriteToPty(bytes) => assert_eq!(bytes, b"ls\n".to_vec()),
        other => panic!("unexpected action: {:?}", other),
    }
}

#[test]
fn step_writes_binary_to_pty() {
    let event = SessionEvent::Conn(ConnEvent::Received(TerminalMessage::Binary(vec![0, 159, 1])));
    let (phase, action) = step(event);
    assert_eq!(phase, SessionPhase::Active);
    match action {
        EngineAction::WriteToPty(bytes) => assert_eq!(bytes, vec![0, 159, 1]),
        other => panic!("unexpected action: {:?}", other),
    }
}

#[test]
fn step_answers_ping_and_ignores_pong() {
    let (phase, action) = step(SessionEvent::Conn(ConnEvent::Received(TerminalMessage::Ping)));
    assert_eq!(phase, SessionPhase::Active);
    assert!(matches!(action, EngineAction::SendPong));
    let (phase, action) = step(SessionEvent::Conn(ConnEvent::Received(TerminalMessage::Pong)));
    assert_eq!(phase, SessionPhase::Active);
    assert!(matches!(action, EngineAction::Continue));
}

#[test]
fn step_closes_on_close_error_end_and_pty_eof() {
    for event in [
        SessionEvent::Conn(ConnEvent::Received(TerminalMessage::Close)),
        SessionEvent::Conn(ConnEvent::Failed("boom".to_string())),
        SessionEvent::Conn(ConnEvent::Ended),
        SessionEvent::Pty(PtyEvent::Output(Vec::new())),
        SessionEvent::Pty(PtyEvent::Failed("io".to_string())),
    ] {
        let (phase, action) = step(event);
        assert_eq!(phase, SessionPhase::Closing);
        assert!(matches!(action, EngineAction::StartClosing));
    }
}

#[test]
fn step_forwards_pty_output() {
    let (phase, action) = step(SessionEvent::Pty(PtyEvent::Output(b"hi".to_vec())));
    assert_eq!(phase, SessionPhase::Active);
    match action {
        EngineAction::Forward(bytes) => assert_eq!(bytes, b"hi".to_vec()),
        other => panic!("unexpected action: {:?}", other),
    }
}

#[test]
fn forward_form_keeps_bytes_verbatim() {
    match forward_form(b"plain text".to_vec()) {
        TerminalMessage::Text(t) => assert_eq!(t, "plain text"),
        other => panic!("unexpected message: {:?}", other),
    }
    match forward_form(vec![0xff, 0xfe, 0x00]) {
        TerminalMessage::Binary(b) => assert_eq!(b, vec![0xff, 0xfe, 0x00]),
        other => panic!("unexpected message: {:?}", other),
    }
}

#[test]
fn session_close_removes_exactly_that_entry() {
    let mut registry = SessionRegistry::new();
    assert!(registry.add_session(sample_session("other")));
    let mut conn = ScriptedConnection::new(
        "sess-1".to_string(),
        ConnectionType::WebSocket,
        vec![ConnEvent::Received(TerminalMessage::Close)],
        false,
    );
    let report = run_session(
        &mut registry,
        &mut conn,
        &config_with_cwd("/tmp"),
        sample_session("sess-1"),
    );
    assert_eq!(report.phase, SessionPhase::Closed);
    assert!(!report.pty.is_alive());
    assert!(conn.is_closed());
    assert_eq!(registry.len(), 1);
    assert!(registry.get_session(&"other".to_string()).is_some());
    assert!(registry.get_session(&"sess-1".to_string()).is_none());
}

#[test]
fn pwd_round_trip_through_bridge() {
    let mut registry = SessionRegistry::new();
    let mut conn = ScriptedConnection::new(
        "sess-pwd".to_string(),
        ConnectionType::WebSocket,
        vec![
            ConnEvent::Received(TerminalMessage::Text("pwd\n".to_string())),
            ConnEvent::Received(TerminalMessage::Close),
        ],
        false,
    );
    run_session(
        &mut registry,
        &mut conn,
        &config_with_cwd("/tmp"),
        sample_session("sess-pwd"),
    );
    let sent = sent_bytes(&conn);
    assert!(contains(&sent, b"/tmp"));
    assert_eq!(registry.len(), 0);
}

#[test]
fn exit_command_ends_the_session() {
    let mut registry = SessionRegistry::new();
    let mut conn = ScriptedConnection::new(
        "sess-exit".to_string(),
        ConnectionType::WebSocket,
        vec![
            ConnEvent::Received(TerminalMessage::Text("exit\n".to_string())),
            ConnEvent::Received(TerminalMessage::Text("pwd\n".to_string())),
        ],
        false,
    );
    let report = run_session(
        &mut registry,
        &mut conn,
        &config_with_cwd("/tmp"),
        sample_session("sess-exit"),
    );
    assert_eq!(report.phase, SessionPhase::Closed);
    assert!(!report.pty.is_alive());
    assert!(conn.is_closed());
    assert_eq!(registry.len(), 0);
    let sent = sent_bytes(&conn);
    assert!(contains(&sent, b"Exiting Memory PTY..."));
}

#[test]
fn ping_is_answered_with_pong() {
    let mut registry = SessionRegistry::new();
    let mut conn = ScriptedConnection::new(
        "sess-ping".to_string(),
        ConnectionType::WebSocket,
        vec![
            ConnEvent::Received(TerminalMessage::Ping),
            ConnEvent::Received(TerminalMessage::Close),
        ],
        false,
    );
    run_session(
        &mut registry,
        &mut conn,
        &PtyConfig::default(),
        sample_session("sess-ping"),
    );
    let pongs = conn
        .sent_messages()
        .into_iter()
        .filter(|m| matches!(m, TerminalMessage::Text(t) if t == "Pong"))
        .count();
    assert_eq!(pongs, 1);
}

#[test]
fn failing_transport_still_cleans_up() {
    let mut registry = SessionRegistry::new();
    let mut conn = ScriptedConnection::new(
        "sess-fail".to_string(),
        ConnectionType::WebTransport,
        vec![ConnEvent::Received(TerminalMessage::Text("exit\n".to_string()))],
        true,
    );
    let report = run_session(
        &mut registry,
        &mut conn,
        &PtyConfig::default(),
        sample_session("sess-fail"),
    );
    assert_eq!(report.phase, SessionPhase::Closed);
    assert!(!report.pty.is_alive());
    assert!(conn.is_closed());
    assert_eq!(registry.len(), 0);
    assert!(conn.sent_messages().is_empty());
}

#[test]
fn connection_error_event_ends_the_session() {
    let mut registry = SessionRegistry::new();
    let mut conn = ScriptedConnection::new(
        "sess-err".to_string(),
        ConnectionType::WebSocket,
        vec![ConnEvent::Failed("transport reset".to_string())],
        false,
    );
    let report = run_session(
        &mut registry,
        &mut conn,
        &PtyConfig::default(),
        sample_session("sess-err"),
    );
    assert_eq!(report.phase, SessionPhase::Closed);
    assert_eq!(registry.len(), 0);
    assert!(conn.is_closed());
}

#[test]
fn cleanup_runs_all_three_actions() {
    let mut registry = SessionRegistry::new();
    assert!(registry.add_session(sample_session("sess-c")));
    let mut conn = ScriptedConnection::new(
        "sess-c".to_string(),
        ConnectionType::WebSocket,
        Vec::new(),
        true,
    );
    let mut pty = MemoryPty::new(&PtyConfig::default());
    let phase = cleanup_session(&mut registry, &mut conn, &mut pty, &"sess-c".to_string());
    assert_eq!(phase, SessionPhase::Closed);
    assert!(conn.is_closed());
    assert!(!pty.is_alive());
    assert_eq!(registry.len(), 0);
}

#[test]
fn construction_failure_notifies_and_removes() {
    let mut registry = SessionRegistry::new();
    assert!(registry.add_session(sample_session("sess-f")));
    let mut conn = ScriptedConnection::new(
        "sess-f".to_string(),
        ConnectionType::WebSocket,
        Vec::new(),
        false,
    );
    let phase = fail_session(&mut registry, &mut conn, "spawn refused");
    assert_eq!(phase, SessionPhase::Closed);
    assert!(conn.is_closed());
    assert_eq!(registry.len(), 0);
    let sent = sent_bytes(&conn);
    assert!(contains(
        &sent,
        b"Error: Failed to create terminal session: spawn refused"
    ));
}

#[test]
fn hundred_sessions_leave_registry_empty() {
    let mut registry = SessionRegistry::new();
    let mut reports = Vec::new();
    for i in 0..100 {
        let id = format!("sess-{}", i);
        let mut conn = ScriptedConnection::new(
            id.clone(),
            ConnectionType::WebSocket,
            vec![
                ConnEvent::Received(TerminalMessage::Text("echo hi\n".to_string())),
                ConnEvent::Received(TerminalMessage::Close),
            ],
            false,
        );
        let report = run_session(
            &mut registry,
            &mut conn,
            &PtyConfig::default(),
            sample_session(&id),
        );
        reports.push(report);
    }
    assert_eq!(registry.len(), 0);
    assert!(reports.iter().all(|r| !r.pty.is_alive()));
}
