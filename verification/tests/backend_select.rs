use rs_terminal::{
    create_pty, create_pty_from_config, create_pty_with_config, create_pty_with_factory,
    IoErrorKind, MemoryPtyFactory, PtyConfig, PtyFactory, PtyHandle, TerminalConfig,
    UnixPtyFactory,
};

#[test]
fn factory_names_identify_backends() {
    assert_eq!(MemoryPtyFactory.name(), "memory-pty");
    assert_eq!(UnixPtyFactory.name(), "unix-pty");
}

#[test]
fn memory_factory_creates_a_live_backend() {
    let config = PtyConfig::default();
    let mut handle = create_pty_with_factory(&MemoryPtyFactory, &config).unwrap();
    assert!(handle.is_alive());
    assert_eq!(handle.size(), (80, 24));
    assert_eq!(handle.pid(), None);
    handle.kill().unwrap();
    assert!(!handle.is_alive());
    let err = handle.write(b"ls\n").unwrap_err();
    assert_eq!(err.kind, IoErrorKind::BrokenPipe);
}

#[test]
fn handle_dispatch_runs_the_simulated_interpreter() {
    let mut config = PtyConfig::default();
    config.cwd = Some("/tmp".to_string());
    let mut handle = MemoryPtyFactory.create(&config).unwrap();
    // Drain the greeting, then ask for the working directory.
    loop {
        match handle.read(4096) {
            Ok(chunk) if !chunk.is_empty() => continue,
            _ => break,
        }
    }
    handle.write(b"pwd\n").unwrap();
    let out = handle.read(4096).unwrap();
    assert_eq!(out, b"/tmp\r\n".to_vec());
    handle.resize(120, 40).unwrap();
    assert_eq!(handle.size(), (120, 40));
    handle.kill().unwrap();
}

#[test]
fn selection_chain_always_produces_a_backend() {
    let config = PtyConfig::default();
    let mut handle = create_pty_with_config(&config).unwrap();
    assert!(handle.is_alive());
    assert_eq!(handle.size(), (80, 24));
    handle.kill().unwrap();
    assert!(!handle.is_alive());
}

#[test]
fn stock_creation_is_80_by_24() {
    let mut handle = create_pty().unwrap();
    assert!(handle.is_alive());
    assert_eq!(handle.size(), (80, 24));
    handle.kill().unwrap();
}

#[test]
fn creation_from_config_resolves_the_default_shell() {
    let config = TerminalConfig::default();
    let mut handle = create_pty_from_config(&config).unwrap();
    assert!(handle.is_alive());
    if let PtyHandle::Native(_) = handle {
        // The native backend spawned the configured login shell.
    }
    handle.kill().unwrap();
    assert!(!handle.is_alive());
}
