use rs_terminal::{IoErrorKind, NativePty, PtyConfig, PtyError};

fn config_for(command: &str) -> PtyConfig {
    let mut config = PtyConfig::default();
    config.command = command.to_string();
    config.args = Vec::new();
    config.env = vec![("TERM".to_string(), "dumb".to_string())];
    config
}

fn contains(haystack: &[u8], needle: &[u8]) -> bool {
    haystack.windows(needle.len()).any(|w| w == needle)
}

#[test]
fn native_pty_is_alive_after_creation() {
    let mut pty = NativePty::new(&config_for("cat")).expect("a PTY and a child process");
    assert!(pty.is_alive());
    assert_eq!(pty.size(), (80, 24));
    pty.kill().unwrap();
}

#[test]
fn echoed_bytes_come_back_byte_for_byte() {
    let mut pty = NativePty::new(&config_for("cat")).expect("a PTY and a child process");
    let written = pty.write(b"hello roundtrip\n").unwrap();
    assert_eq!(written, b"hello roundtrip\n".len());
    let mut collected: Vec<u8> = Vec::new();
    for _ in 0..64 {
        let chunk = pty.read(4096).expect("reading the PTY master");
        collected.extend_from_slice(&chunk);
        if contains(&collected, b"hello roundtrip") {
            break;
        }
        if chunk.is_empty() {
            break;
        }
    }
    assert!(contains(&collected, b"hello roundtrip"));
    pty.kill().unwrap();
}

#[test]
fn write_after_kill_fails_with_broken_pipe() {
    let mut pty = NativePty::new(&config_for("cat")).expect("a PTY and a child process");
    pty.kill().unwrap();
    assert!(!pty.is_alive());
    let err = pty.write(b"anything").unwrap_err();
    assert_eq!(err.kind, IoErrorKind::BrokenPipe);
}

#[test]
fn kill_is_idempotent_on_native_backend() {
    let mut pty = NativePty::new(&config_for("cat")).expect("a PTY and a child process");
    pty.kill().unwrap();
    pty.kill().unwrap();
    assert!(!pty.is_alive());
}

#[test]
fn try_wait_reports_natural_exit_once() {
    let mut pty = NativePty::new(&config_for("true")).expect("a PTY and a child process");
    let mut status = None;
    for _ in 0..5_000_000 {
        match pty.try_wait().expect("polling the child") {
            Some(s) => {
                status = Some(s);
                break;
            }
            None => continue,
        }
    }
    let status = status.expect("the child exits promptly");
    assert_eq!(status.code, 0);
    assert!(!pty.is_alive());
    assert_eq!(pty.try_wait().unwrap(), None);
    assert_eq!(pty.try_wait().unwrap(), None);
}

#[test]
fn resize_live_pty_reflects_geometry_and_dead_pty_fails() {
    let mut pty = NativePty::new(&config_for("cat")).expect("a PTY and a child process");
    pty.resize(120, 40).expect("resizing a live PTY");
    assert_eq!(pty.size(), (120, 40));
    pty.kill().unwrap();
    match pty.resize(100, 30) {
        Err(PtyError::ProcessTerminated) | Err(PtyError::ResizeFailed(_)) => {}
        other => panic!("resizing a dead PTY must not silently succeed: {:?}", other),
    }
    assert_eq!(pty.size(), (120, 40));
}

#[test]
fn child_receives_args_env_and_cwd_exactly() {
    let mut config = PtyConfig::default();
    config.command = "sh".to_string();
    config.args = vec!["-c".to_string(), "echo marker-$PROBE_VAR-$(pwd)".to_string()];
    config.env = vec![
        ("TERM".to_string(), "dumb".to_string()),
        ("PROBE_VAR".to_string(), "probe-value".to_string()),
    ];
    config.cwd = Some("/tmp".to_string());
    let mut pty = NativePty::new(&config).expect("a PTY and a child process");
    let mut collected: Vec<u8> = Vec::new();
    for _ in 0..64 {
        let chunk = pty.read(4096).expect("reading the PTY master");
        collected.extend_from_slice(&chunk);
        if contains(&collected, b"marker-probe-value-/tmp") {
            break;
        }
        if chunk.is_empty() {
            break;
        }
    }
    assert!(contains(&collected, b"marker-probe-value-/tmp"));
    pty.kill().unwrap();
}

#[test]
fn spawning_a_missing_program_fails_before_bridging() {
    match NativePty::new(&config_for("definitely-not-a-real-program-here")) {
        Err(PtyError::SpawnFailed(_)) => {}
        Ok(mut pty) => {
            // Some platforms only surface the failure on the first status
            // poll; accept that shape as long as the child is gone.
            let mut saw_exit = false;
            for _ in 0..5_000_000 {
                match pty.try_wait() {
                    Ok(Some(status)) => {
                        assert_ne!(status.code, 0);
                        saw_exit = true;
                        break;
                    }
                    Ok(None) => continue,
                    Err(_) => {
                        saw_exit = true;
                        break;
                    }
                }
            }
            assert!(saw_exit);
        }
        Err(other) => panic!("unexpected error kind: {:?}", other),
    }
}
