//! The simulated in-memory PTY backend: behaves like a PTY without a real
//! OS process, for platforms lacking PTY support and for deterministic
//! testing. It keeps an output buffer, a liveness flag, and the last known
//! geometry; written input runs through the simulated command interpreter.

use vstd::prelude::*;
use vstd::slice::slice_subrange;
use vstd::string::StringSliceAdditionalSpecFns;

use crate::pty::{IoError, IoErrorKind, PtyConfig, PtyError, PtyExitStatus};
use crate::sim;

verus! {

/// The greeting placed in the output buffer when the simulated process
/// starts, as a function of the configured command's characters.
pub open spec fn welcome_of(command: Seq<char>) -> Seq<u8> {
    "Memory PTY initialized for command: ".spec_bytes() + vstd::utf8::encode_utf8(command)
        + "\r\n".spec_bytes()
}

/// The bytes of the simulated working directory: the configured one, or
/// the root directory when none was configured.
pub open spec fn cwd_bytes_of(cwd: Option<String>) -> Seq<u8> {
    match cwd {
        Some(s) => vstd::utf8::encode_utf8(s@),
        None => "/".spec_bytes(),
    }
}

/// A simulated PTY: an output buffer, a liveness flag, the working
/// directory the interpreter reports, whether the exit status has already
/// been handed out, and the last known geometry.
pub struct MemoryPty {
    output: Vec<u8>,
    alive: bool,
    exit_reported: bool,
    cwd: Vec<u8>,
    cols: u16,
    rows: u16,
}

impl MemoryPty {
    /// Unread simulated output.
    pub closed spec fn buffered(self) -> Seq<u8> {
        self.output@
    }

    /// The liveness flag: true until `kill` or a simulated "exit".
    pub closed spec fn alive_spec(self) -> bool {
        self.alive
    }

    /// Whether the exit status has already been reported by `try_wait`.
    pub closed spec fn exit_reported_spec(self) -> bool {
        self.exit_reported
    }

    /// The bytes the interpreter prints for the working directory.
    pub closed spec fn cwd_spec(self) -> Seq<u8> {
        self.cwd@
    }

    /// The last known geometry, columns then rows.
    pub closed spec fn size_spec(self) -> (u16, u16) {
        (self.cols, self.rows)
    }

    /// What `try_wait` does: the successor state and the reported status.
    /// The status is produced exactly once, on the first poll after death.
    pub open spec fn try_wait_spec(self) -> (MemoryPty, Option<PtyExitStatus>) {
        if !self.alive_spec() && !self.exit_reported_spec() {
            (self.with_exit_reported(), Some(PtyExitStatus { code: 0 }))
        } else {
            (self, None)
        }
    }

    /// This state with the exit status marked as already reported.
    pub closed spec fn with_exit_reported(self) -> MemoryPty {
        MemoryPty { exit_reported: true, ..self }
    }

    /// Everything but liveness and exit reporting agrees with `other`.
    pub open spec fn same_io_state(self, other: MemoryPty) -> bool {
        &&& self.buffered() == other.buffered()
        &&& self.cwd_spec() == other.cwd_spec()
        &&& self.size_spec() == other.size_spec()
    }

    /// Start a simulated process: alive, its greeting buffered, sized and
    /// rooted as configured.
    pub fn new(config: &PtyConfig) -> (r: MemoryPty)
        requires
            config.wf(),
        ensures
            r.alive_spec(),
            !r.exit_reported_spec(),
            r.buffered() == welcome_of(config.command@),
            r.cwd_spec() == cwd_bytes_of(config.cwd),
            r.size_spec() == (config.cols, config.rows),
    {
        let mut output: Vec<u8> = Vec::new();
        sim::push_bytes(&mut output, "Memory PTY initialized for command: ".as_bytes());
        sim::push_bytes(&mut output, config.command.as_str().as_bytes());
        sim::push_bytes(&mut output, "\r\n".as_bytes());
        proof {
            assert(output@ =~= welcome_of(config.command@));
        }
        let cwd: Vec<u8> = match &config.cwd {
            Some(s) => {
                let mut c: Vec<u8> = Vec::new();
                sim::push_bytes(&mut c, s.as_str().as_bytes());
                proof {
                    assert(c@ =~= cwd_bytes_of(config.cwd));
                }
                c
            },
            None => {
                let mut c: Vec<u8> = Vec::new();
                sim::push_bytes(&mut c, "/".as_bytes());
                proof {
                    assert(c@ =~= cwd_bytes_of(config.cwd));
                }
                c
            },
        };
        MemoryPty {
            output,
            alive: true,
            exit_reported: false,
            cwd,
            cols: config.cols,
            rows: config.rows,
        }
    }

    /// Cheap, non-blocking snapshot of the liveness flag.
    pub fn is_alive(&self) -> (r: bool)
        ensures
            r == self.alive_spec(),
    {
        self.alive
    }

    /// The simulated process has no OS process id.
    pub fn pid(&self) -> (r: Option<u32>)
        ensures
            r is None,
    {
        None
    }

    /// The last known geometry, columns then rows.
    pub fn size(&self) -> (r: (u16, u16))
        ensures
            r == self.size_spec(),
    {
        (self.cols, self.rows)
    }

    /// Feed input to the simulated process. Fails with a broken-pipe-class
    /// error once the process is dead; otherwise every byte is accepted,
    /// the interpreter's replies are appended to the output buffer, and an
    /// "exit" line ends the process.
    pub fn write(&mut self, data: &[u8]) -> (r: Result<usize, IoError>)
        ensures
            !old(self).alive_spec() ==> (r matches Err(e) && e.kind == IoErrorKind::BrokenPipe
                && *final(self) == *old(self)),
            old(self).alive_spec() ==> {
                &&& r matches Ok(n) && n == data@.len()
                &&& final(self).buffered() == old(self).buffered() + sim::sim_output(
                    data@,
                    old(self).cwd_spec(),
                )
                &&& final(self).alive_spec() == !sim::sim_exits(data@)
                &&& final(self).exit_reported_spec() == old(self).exit_reported_spec()
                &&& final(self).cwd_spec() == old(self).cwd_spec()
                &&& final(self).size_spec() == old(self).size_spec()
            },
    {
        if !self.alive {
            return Err(IoError::new(IoErrorKind::BrokenPipe, "PTY is not alive"));
        }
        let (reply, exits) = sim::simulate_input(data, self.cwd.as_slice());
        sim::push_bytes(&mut self.output, reply.as_slice());
        if exits {
            self.alive = false;
        }
        Ok(data.len())
    }

    /// Drain up to `max` buffered output bytes. With data available, the
    /// longest prefix that fits is removed and returned. With none, a
    /// would-block error is reported while the process lives, and an empty
    /// read — end of output — once it is dead.
    pub fn read(&mut self, max: usize) -> (r: Result<Vec<u8>, IoError>)
        ensures
            old(self).buffered().len() == 0 && old(self).alive_spec() ==> (r matches Err(e)
                && e.kind == IoErrorKind::WouldBlock && *final(self) == *old(self)),
            old(self).buffered().len() == 0 && !old(self).alive_spec() ==> (r matches Ok(v)
                && v@.len() == 0 && *final(self) == *old(self)),
            old(self).buffered().len() > 0 ==> {
                let n = vstd::math::min(max as int, old(self).buffered().len() as int);
                &&& r matches Ok(v) && v@ == old(self).buffered().take(n)
                &&& final(self).buffered() == old(self).buffered().skip(n)
                &&& final(self).alive_spec() == old(self).alive_spec()
                &&& final(self).exit_reported_spec() == old(self).exit_reported_spec()
                &&& final(self).cwd_spec() == old(self).cwd_spec()
                &&& final(self).size_spec() == old(self).size_spec()
            },
    {
        if self.output.len() == 0 {
            if self.alive {
                return Err(IoError::new(IoErrorKind::WouldBlock, "no data available"));
            }
            return Ok(Vec::new());
        }
        let n: usize = if max < self.output.len() {
            max
        } else {
            self.output.len()
        };
        let taken = vstd::slice::slice_to_vec(slice_subrange(self.output.as_slice(), 0, n));
        let rest = vstd::slice::slice_to_vec(
            slice_subrange(self.output.as_slice(), n, self.output.len()),
        );
        proof {
            assert(taken@ =~= old(self).buffered().take(n as int));
            assert(rest@ =~= old(self).buffered().skip(n as int));
        }
        self.output = rest;
        Ok(taken)
    }

    /// Change the simulated geometry. Fails once the process is dead:
    /// resizing a dead PTY never silently succeeds.
    pub fn resize(&mut self, cols: u16, rows: u16) -> (r: Result<(), PtyError>)
        ensures
            !old(self).alive_spec() ==> (r matches Err(e) && e is ProcessTerminated && *final(self)
                == *old(self)),
            old(self).alive_spec() ==> {
                &&& r is Ok
                &&& final(self).size_spec() == (cols, rows)
                &&& final(self).alive_spec() == old(self).alive_spec()
                &&& final(self).exit_reported_spec() == old(self).exit_reported_spec()
                &&& final(self).buffered() == old(self).buffered()
                &&& final(self).cwd_spec() == old(self).cwd_spec()
            },
    {
        if !self.alive {
            return Err(PtyError::ProcessTerminated);
        }
        self.cols = cols;
        self.rows = rows;
        Ok(())
    }

    /// Non-blocking exit poll: reports the exit status exactly once, on the
    /// first call after the process died; before death, and on every call
    /// after the first report, it reports "still running: no status".
    pub fn try_wait(&mut self) -> (r: Result<Option<PtyExitStatus>, PtyError>)
        ensures
            ({
                let (next, status) = old(self).try_wait_spec();
                r == Ok::<Option<PtyExitStatus>, PtyError>(status) && *final(self) == next
            }),
    {
        if !self.alive && !self.exit_reported {
            self.exit_reported = true;
            return Ok(Some(PtyExitStatus { code: 0 }));
        }
        Ok(None)
    }

    /// Request immediate termination. Idempotent: killing an already-dead
    /// simulated process succeeds and changes nothing else.
    pub fn kill(&mut self) -> (r: Result<(), PtyError>)
        ensures
            r is Ok,
            !final(self).alive_spec(),
            final(self).exit_reported_spec() == old(self).exit_reported_spec(),
            final(self).same_io_state(*old(self)),
    {
        self.alive = false;
        Ok(())
    }
}

/// Marking the exit status as reported changes nothing else about the
/// simulated backend's state.
pub proof fn lemma_with_exit_reported(m: MemoryPty)
    ensures
        m.with_exit_reported().buffered() == m.buffered(),
        m.with_exit_reported().alive_spec() == m.alive_spec(),
        m.with_exit_reported().exit_reported_spec(),
        m.with_exit_reported().cwd_spec() == m.cwd_spec(),
        m.with_exit_reported().size_spec() == m.size_spec(),
{
}

/// Law: an exit status is handed out at most once. Whenever a poll reports
/// a status, the state it leaves behind — and every later state reached by
/// polling — reports none.
pub proof fn law_exit_reported_once(m: MemoryPty)
    requires
        m.try_wait_spec().1 is Some,
    ensures
        m.try_wait_spec().0.try_wait_spec().1 is None,
        !m.try_wait_spec().0.alive_spec(),
{
}

} // verus!
