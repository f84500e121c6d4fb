use rs_terminal::{
    build_url, resolve_pty_config, ClientConfig, ConfigLoader, ConnectionType, IoError,
    IoErrorKind, PtyConfig, PtyError, ServiceError, ShellConfig, TerminalConfig, TerminalSize,
    WebTransportConnection,
};

#[test]
fn default_terminal_config_matches_stock_values() {
    let config = TerminalConfig::default();
    assert_eq!(config.default_shell_type, "bash");
    assert_eq!(config.default_size.columns, 80);
    assert_eq!(config.default_size.rows, 24);
    assert_eq!(config.default_working_directory, ".");
    assert_eq!(config.session_timeout, 1_800_000);
    assert_eq!(config.shells.len(), 3);
    let bash = &config.shells.iter().find(|(k, _)| k == "bash").unwrap().1;
    assert_eq!(bash.command, vec!["bash".to_string(), "-l".to_string()]);
    assert!(bash.environment.iter().any(|(k, v)| k == "TERM" && v == "xterm-256color"));
    assert!(bash.environment.iter().any(|(k, _)| k == "PATH"));
    let cmd = &config.shells.iter().find(|(k, _)| k == "cmd").unwrap().1;
    assert_eq!(cmd.command, vec!["cmd.exe".to_string(), "/c".to_string(), "cmd".to_string()]);
    let ps = &config.shells.iter().find(|(k, _)| k == "powershell").unwrap().1;
    assert_eq!(ps.command, vec!["powershell.exe".to_string()]);
}

#[test]
fn load_config_prefers_parsed_content() {
    let loader = ConfigLoader::new();
    let mut parsed = TerminalConfig::default();
    parsed.session_timeout = 7;
    let loaded = loader.load_config(Some(parsed));
    assert_eq!(loaded.session_timeout, 7);
}

#[test]
fn load_config_falls_back_to_default() {
    let loader = ConfigLoader::new();
    let loaded = loader.load_config(None);
    assert_eq!(loaded.default_shell_type, "bash");
    assert_eq!(loaded.session_timeout, 1_800_000);
}

#[test]
fn resolve_splits_command_and_arguments() {
    let config = TerminalConfig::default();
    let pty_config = resolve_pty_config(&config).expect("bash entry exists");
    assert_eq!(pty_config.command, "bash");
    assert_eq!(pty_config.args, vec!["-l".to_string()]);
    assert_eq!((pty_config.cols, pty_config.rows), (80, 24));
    assert!(pty_config.cwd.is_none());
    assert!(pty_config.env.iter().any(|(k, _)| k == "TERM"));
}

#[test]
fn unknown_default_shell_fails_before_backend_selection() {
    // Even though a bash entry exists, an unknown default shell type is a
    // configuration error and must not be papered over with another entry.
    let mut config = TerminalConfig::default();
    config.default_shell_type = "zsh".to_string();
    match resolve_pty_config(&config) {
        Err(PtyError::SpawnFailed(_)) => {}
        other => panic!("expected a spawn failure before backend selection: {:?}", other),
    }
    match rs_terminal::create_pty_from_config(&config) {
        Err(PtyError::SpawnFailed(_)) => {}
        Err(other) => panic!("expected a spawn failure, got: {:?}", other),
        Ok(_) => panic!("expected no backend to be created"),
    }

    let no_shells = TerminalConfig {
        default_shell_type: "zsh".to_string(),
        default_size: TerminalSize { columns: 80, rows: 24 },
        default_working_directory: ".".to_string(),
        session_timeout: 1000,
        shells: Vec::new(),
    };
    match resolve_pty_config(&no_shells) {
        Err(PtyError::SpawnFailed(_)) => {}
        other => panic!("expected a spawn failure before backend selection: {:?}", other),
    }
}

#[test]
fn resolve_uses_shell_specific_size_and_cwd() {
    let mut config = TerminalConfig::default();
    config.shells.push((
        "small".to_string(),
        ShellConfig {
            command: vec!["sh".to_string()],
            working_directory: Some("/var".to_string()),
            size: Some(TerminalSize { columns: 40, rows: 10 }),
            environment: Vec::new(),
        },
    ));
    config.default_shell_type = "small".to_string();
    let pty_config = resolve_pty_config(&config).unwrap();
    assert_eq!(pty_config.command, "sh");
    assert!(pty_config.args.is_empty());
    assert_eq!((pty_config.cols, pty_config.rows), (40, 10));
    assert_eq!(pty_config.cwd.as_deref(), Some("/var"));
}

#[test]
fn default_pty_config_is_bash_80_by_24() {
    let config = PtyConfig::default();
    assert_eq!(config.command, "bash");
    assert!(config.args.is_empty());
    assert_eq!((config.cols, config.rows), (80, 24));
    assert_eq!(config.env, vec![("TERM".to_string(), "xterm-256color".to_string())]);
    assert!(config.cwd.is_none());
}

#[test]
fn pty_error_messages_name_each_reason() {
    assert_eq!(
        PtyError::Io(IoError::new(IoErrorKind::BrokenPipe, "pipe gone")).message(),
        "IO error: pipe gone"
    );
    assert_eq!(
        PtyError::SpawnFailed("no such file".to_string()).message(),
        "Process spawn failed: no such file"
    );
    assert_eq!(PtyError::NotAvailable.message(), "PTY not available");
    assert_eq!(PtyError::ProcessTerminated.message(), "Process already terminated");
    assert_eq!(
        PtyError::ResizeFailed("ioctl".to_string()).message(),
        "Resize failed: ioctl"
    );
}

#[test]
fn service_error_messages_and_conversions() {
    let io = ServiceError::from(IoError::new(IoErrorKind::Other, "disk"));
    assert_eq!(io.message(), "IO error: disk");
    let pty = ServiceError::from(PtyError::NotAvailable);
    assert_eq!(pty.message(), "PTY error: PTY not available");
    assert_eq!(
        ServiceError::Connection("reset".to_string()).message(),
        "Connection error: reset"
    );
    assert_eq!(ServiceError::Other("odd".to_string()).message(), "Other error: odd");
}

#[test]
fn build_url_concatenates_address_and_endpoint() {
    let config = ClientConfig {
        http_address: "http://example:9000".to_string(),
        endpoint: "/file".to_string(),
        interval: 1,
        file_path: "x.txt".to_string(),
    };
    assert_eq!(build_url(&config), "http://example:9000/file");
}

#[test]
fn client_config_default_values() {
    let config = ClientConfig::default();
    assert_eq!(config.http_address, "http://localhost:3000");
    assert_eq!(config.endpoint, "/file");
    assert_eq!(config.interval, 5);
    assert_eq!(config.file_path, "content.txt");
    assert_eq!(build_url(&config), "http://localhost:3000/file");
}

#[test]
fn webtransport_connection_is_an_idle_transport() {
    let mut conn = WebTransportConnection::new("wt-1".to_string());
    assert_eq!(conn.id(), "wt-1");
    assert_eq!(conn.connection_type(), ConnectionType::WebTransport);
    assert!(conn.send_text("hello").is_ok());
    assert!(conn.send_binary(b"data").is_ok());
    assert!(conn.receive().is_none());
    assert!(conn.close().is_ok());
}
