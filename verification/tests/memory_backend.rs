use rs_terminal::{IoErrorKind, MemoryPty, PtyConfig, PtyError};

fn config_with_cwd(cwd: Option<&str>) -> PtyConfig {
    let mut config = PtyConfig::default();
    config.cwd = cwd.map(|s| s.to_string());
    config
}

fn drain(pty: &mut MemoryPty) -> Vec<u8> {
    let mut out = Vec::new();
    loop {
        match pty.read(64) {
            Ok(chunk) => {
                if chunk.is_empty() {
                    break;
                }
                out.extend_from_slice(&chunk);
            }
            Err(e) => {
                assert_eq!(e.kind, IoErrorKind::WouldBlock);
                break;
            }
        }
    }
    out
}

fn contains(haystack: &[u8], needle: &[u8]) -> bool {
    haystack.windows(needle.len()).any(|w| w == needle)
}

#[test]
fn alive_immediately_after_creation() {
    let pty = MemoryPty::new(&PtyConfig::default());
    assert!(pty.is_alive());
    assert_eq!(pty.pid(), None);
}

#[test]
fn welcome_message_is_buffered() {
    let mut pty = MemoryPty::new(&PtyConfig::default());
    let out = drain(&mut pty);
    assert_eq!(out, b"Memory PTY initialized for command: bash\r\n".to_vec());
}

#[test]
fn read_drains_progressively() {
    let mut pty = MemoryPty::new(&PtyConfig::default());
    let first = pty.read(10).unwrap();
    assert_eq!(first, b"Memory PTY".to_vec());
    let second = pty.read(6).unwrap();
    assert_eq!(second, b" initi".to_vec());
}

#[test]
fn empty_read_would_block_while_alive() {
    let mut pty = MemoryPty::new(&PtyConfig::default());
    drain(&mut pty);
    let err = pty.read(16).unwrap_err();
    assert_eq!(err.kind, IoErrorKind::WouldBlock);
}

#[test]
fn pwd_reports_configured_working_directory() {
    let mut pty = MemoryPty::new(&config_with_cwd(Some("/tmp")));
    drain(&mut pty);
    pty.write(b"pwd\n").unwrap();
    let out = drain(&mut pty);
    assert!(contains(&out, b"/tmp"));
    assert_eq!(out, b"/tmp\r\n".to_vec());
}

#[test]
fn pwd_defaults_to_root_without_working_directory() {
    let mut pty = MemoryPty::new(&config_with_cwd(None));
    drain(&mut pty);
    pty.write(b"pwd\n").unwrap();
    assert_eq!(drain(&mut pty), b"/\r\n".to_vec());
}

#[test]
fn ls_and_dir_list_directory_contents() {
    let mut pty = MemoryPty::new(&PtyConfig::default());
    drain(&mut pty);
    pty.write(b"ls\n").unwrap();
    let listing = drain(&mut pty);
    assert_eq!(
        listing,
        b"Memory PTY Directory Contents:\r\n  README.md\r\n  Cargo.toml\r\n  src/\r\n".to_vec()
    );
    pty.write(b"dir\n").unwrap();
    assert_eq!(drain(&mut pty), listing);
}

#[test]
fn echo_returns_the_text() {
    let mut pty = MemoryPty::new(&PtyConfig::default());
    drain(&mut pty);
    pty.write(b"echo hello there\n").unwrap();
    assert_eq!(drain(&mut pty), b"hello there\r\n".to_vec());
    pty.write(b"echo\n").unwrap();
    assert_eq!(drain(&mut pty), b"\r\n".to_vec());
}

#[test]
fn help_lists_the_command_set() {
    let mut pty = MemoryPty::new(&PtyConfig::default());
    drain(&mut pty);
    pty.write(b"help\n").unwrap();
    let out = drain(&mut pty);
    assert!(contains(&out, b"Memory PTY Commands:"));
    assert!(contains(&out, b"exit - Exit PTY"));
}

#[test]
fn unknown_command_reports_not_found() {
    let mut pty = MemoryPty::new(&PtyConfig::default());
    drain(&mut pty);
    pty.write(b"  frobnicate now  \n").unwrap();
    assert_eq!(drain(&mut pty), b"Command not found: frobnicate now\r\n".to_vec());
}

#[test]
fn blank_lines_produce_no_output() {
    let mut pty = MemoryPty::new(&PtyConfig::default());
    drain(&mut pty);
    pty.write(b"   \r\n\n").unwrap();
    let err = pty.read(16).unwrap_err();
    assert_eq!(err.kind, IoErrorKind::WouldBlock);
}

#[test]
fn ascii_whitespace_padding_is_trimmed() {
    // Vertical-tab and form-feed padding around a command is stripped,
    // so a padded "exit" still exits.
    let mut pty = MemoryPty::new(&PtyConfig::default());
    drain(&mut pty);
    pty.write(b"\x0b exit \x0c\n").unwrap();
    assert!(!pty.is_alive());
}

#[test]
fn exit_flips_liveness_and_write_then_fails() {
    let mut pty = MemoryPty::new(&config_with_cwd(Some("/tmp")));
    drain(&mut pty);
    pty.write(b"exit\n").unwrap();
    assert!(!pty.is_alive());
    let err = pty.write(b"pwd\n").unwrap_err();
    assert_eq!(err.kind, IoErrorKind::BrokenPipe);
}

#[test]
fn write_after_kill_fails_broken_pipe() {
    let mut pty = MemoryPty::new(&PtyConfig::default());
    pty.kill().unwrap();
    assert!(!pty.is_alive());
    let err = pty.write(b"ls\n").unwrap_err();
    assert_eq!(err.kind, IoErrorKind::BrokenPipe);
}

#[test]
fn kill_is_idempotent() {
    let mut pty = MemoryPty::new(&PtyConfig::default());
    pty.kill().unwrap();
    pty.kill().unwrap();
    assert!(!pty.is_alive());
}

#[test]
fn try_wait_reports_exit_status_exactly_once() {
    let mut pty = MemoryPty::new(&PtyConfig::default());
    assert_eq!(pty.try_wait().unwrap(), None);
    pty.kill().unwrap();
    let status = pty.try_wait().unwrap().expect("first poll after death reports the status");
    assert!(status.success());
    assert_eq!(pty.try_wait().unwrap(), None);
    assert_eq!(pty.try_wait().unwrap(), None);
    assert!(!pty.is_alive());
}

#[test]
fn resize_updates_geometry_and_fails_when_dead() {
    let mut pty = MemoryPty::new(&PtyConfig::default());
    assert_eq!(pty.size(), (80, 24));
    pty.resize(120, 40).unwrap();
    assert_eq!(pty.size(), (120, 40));
    pty.kill().unwrap();
    let err = pty.resize(100, 30).unwrap_err();
    assert!(matches!(err, PtyError::ProcessTerminated));
    assert_eq!(pty.size(), (120, 40));
}

#[test]
fn read_after_exit_drains_then_reports_eof() {
    let mut pty = MemoryPty::new(&PtyConfig::default());
    drain(&mut pty);
    pty.write(b"exit\n").unwrap();
    let out = drain(&mut pty);
    assert_eq!(out, b"Exiting Memory PTY...\r\n".to_vec());
    let eof = pty.read(16).unwrap();
    assert!(eof.is_empty());
}

#[test]
fn multiple_commands_in_one_write_reply_in_order() {
    let mut pty = MemoryPty::new(&config_with_cwd(Some("/srv")));
    drain(&mut pty);
    pty.write(b"pwd\necho one\nbogus\n").unwrap();
    let out = drain(&mut pty);
    assert_eq!(out, b"/srv\r\none\r\nCommand not found: bogus\r\n".to_vec());
}
