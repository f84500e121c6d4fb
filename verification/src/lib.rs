//! A terminal-multiplexing backend core: pseudo-terminal abstraction,
//! backend selection with fallback, session metadata and registry, and the
//! per-session bridging engine that shuttles bytes between a connection and
//! a PTY.

mod backend;
mod config;
mod connection;
mod error;
pub mod engine;
mod memory_pty;
mod native_pty;
mod pty;
mod session;
mod sync_client;
pub mod sim;

pub use backend::{
    create_pty, create_pty_from_config, create_pty_with_config, create_pty_with_factory,
    resolve_pty_config, MemoryPtyFactory, PtyFactory, PtyHandle, UnixPtyFactory,
};
pub use config::{ConfigLoader, ShellConfig, TerminalConfig, TerminalSize};
pub use connection::WebTransportConnection;
pub use engine::{ScriptedConnection, SessionPhase, TerminalMessage};
pub use error::ServiceError;
pub use memory_pty::{cwd_bytes_of, welcome_of, MemoryPty};
pub use native_pty::{NativePty, NativePtyReader};
pub use pty::{unique_keys, IoError, IoErrorKind, PtyConfig, PtyError, PtyExitStatus};
pub use session::{
    ConnectionType, CreateSessionRequest, Session, SessionRegistry, SessionStatus,
};
pub use sync_client::{build_url, ClientConfig};
