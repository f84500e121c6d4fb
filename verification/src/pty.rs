//! Core PTY data model: configuration, the error taxonomy shared by every
//! backend, and the exit-status record reported when a child terminates.

use vstd::prelude::*;
use vstd::string::StringExecFns;

verus! {

/// The class of an OS-level I/O failure, modelled after the kinds that the
/// backends distinguish: a write to a dead process (broken pipe), a read
/// with no data available (would block), and everything else.
#[derive(Debug, Clone, Copy, PartialEq, Eq, Structural)]
pub enum IoErrorKind {
    BrokenPipe,
    WouldBlock,
    Other,
}

/// An OS-level I/O failure: its class and a human-readable message.
#[derive(Debug, Clone)]
pub struct IoError {
    pub kind: IoErrorKind,
    pub message: String,
}

impl IoError {
    /// Build an I/O error of the given class from a message literal.
    pub fn new(kind: IoErrorKind, message: &str) -> (r: IoError)
        ensures
            r.kind == kind,
            r.message@ == message@,
    {
        IoError { kind, message: String::from_str(message) }
    }
}

/// Typed failure reasons shared by all PTY backends.
#[derive(Debug, Clone)]
pub enum PtyError {
    /// An OS-level I/O failure.
    Io(IoError),
    /// The child process could not be started.
    SpawnFailed(String),
    /// No PTY backend is available on this platform.
    NotAvailable,
    /// The operation was attempted after the process exited.
    ProcessTerminated,
    /// The terminal geometry could not be changed.
    ResizeFailed(String),
}

impl PtyError {
    /// Whether this error is a broken-pipe-class I/O failure, the class that
    /// a write to an already-dead process reports.
    pub open spec fn is_broken_pipe(self) -> bool {
        self matches PtyError::Io(io) && io.kind == IoErrorKind::BrokenPipe
    }

    /// How each failure reason reads as a message.
    pub open spec fn message_spec(self) -> Seq<char> {
        match self {
            PtyError::Io(io) => "IO error: "@ + io.message@,
            PtyError::SpawnFailed(m) => "Process spawn failed: "@ + m@,
            PtyError::NotAvailable => "PTY not available"@,
            PtyError::ProcessTerminated => "Process already terminated"@,
            PtyError::ResizeFailed(m) => "Resize failed: "@ + m@,
        }
    }

    /// Render the error as a message, mirroring how each reason is described.
    pub fn message(&self) -> (r: String)
        ensures
            r@ == self.message_spec(),
    {
        match self {
            PtyError::Io(io) => String::from_str("IO error: ").concat(io.message.as_str()),
            PtyError::SpawnFailed(m) => String::from_str("Process spawn failed: ").concat(
                m.as_str(),
            ),
            PtyError::NotAvailable => String::from_str("PTY not available"),
            PtyError::ProcessTerminated => String::from_str("Process already terminated"),
            PtyError::ResizeFailed(m) => String::from_str("Resize failed: ").concat(m.as_str()),
        }
    }
}

/// The exit status of a terminated child process.
#[derive(Debug, Clone, Copy, PartialEq, Eq, Structural)]
pub struct PtyExitStatus {
    /// The process return code; 0 means success.
    pub code: u32,
}

impl PtyExitStatus {
    pub fn success(&self) -> (r: bool)
        ensures
            r == (self.code == 0),
    {
        self.code == 0
    }
}

/// Immutable description of how to start a PTY-backed process: command,
/// arguments, initial size, environment, and optional working directory.
#[derive(Debug)]
pub struct PtyConfig {
    pub command: String,
    pub args: Vec<String>,
    pub cols: u16,
    pub rows: u16,
    pub env: Vec<(String, String)>,
    pub cwd: Option<String>,
}

impl PtyConfig {
    /// A valid configuration: a positive initial size and unique
    /// environment-variable names.
    pub open spec fn wf(self) -> bool {
        &&& self.cols >= 1
        &&& self.rows >= 1
        &&& forall|i: int, j: int|
            0 <= i < j < self.env@.len() ==> self.env@[i].0@ != self.env@[j].0@
    }

    /// Decide validity at run time, for callers that received the
    /// configuration from outside.
    pub fn is_valid(&self) -> (r: bool)
        ensures
            r == self.wf(),
    {
        if self.cols < 1 || self.rows < 1 {
            return false;
        }
        unique_keys(&self.env)
    }
}

/// Whether the pairs' names are pairwise distinct.
pub fn unique_keys(pairs: &Vec<(String, String)>) -> (r: bool)
    ensures
        r == (forall|i: int, j: int|
            0 <= i < j < pairs@.len() ==> pairs@[i].0@ != pairs@[j].0@),
{
    let n = pairs.len();
    let mut i: usize = 0;
    while i < n
        invariant
            i <= n,
            n == pairs@.len(),
            forall|a: int, b: int| 0 <= a < b < pairs@.len() && a < i ==> pairs@[a].0@
                != pairs@[b].0@,
        decreases n - i,
    {
        let mut j: usize = i + 1;
        while j < n
            invariant
                i < j <= n,
                n == pairs@.len(),
                forall|b: int| i < b < j ==> pairs@[i as int].0@ != pairs@[b].0@,
            decreases n - j,
        {
            if pairs[i].0 == pairs[j].0 {
                return false;
            }
            j += 1;
        }
        i += 1;
    }
    true
}

impl Default for PtyConfig {
    /// The stock configuration: a login-capable `bash` at 80x24 with a
    /// color-capable TERM, no extra arguments, inheriting the caller's
    /// working directory.
    fn default() -> (r: Self)
        ensures
            r.command@ == "bash"@,
            r.args@.len() == 0,
            r.cols == 80,
            r.rows == 24,
            r.env@.len() == 1,
            r.env@[0].0@ == "TERM"@,
            r.env@[0].1@ == "xterm-256color"@,
            r.cwd is None,
            r.wf(),
    {
        let mut env: Vec<(String, String)> = Vec::new();
        env.push((String::from_str("TERM"), String::from_str("xterm-256color")));
        PtyConfig {
            command: String::from_str("bash"),
            args: Vec::new(),
            cols: 80,
            rows: 24,
            env,
            cwd: None,
        }
    }
}

} // verus!
