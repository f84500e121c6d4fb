//! The native-process PTY backend: opens a real OS pseudo-terminal pair,
//! spawns the configured command attached to its slave side, and exposes
//! the master side. The OS calls go through the `portable_pty` crate behind
//! trusted wrappers; the liveness and exit-reporting state machine around
//! them is verified.

use std::io::Read;
use std::io::Write;
use vstd::prelude::*;

use crate::pty::{IoError, IoErrorKind, PtyConfig, PtyError, PtyExitStatus};

verus! {

#[verifier::external_type_specification]
#[verifier::external_body]
pub struct ExCommandBuilder(portable_pty::CommandBuilder);

/// The full argument vector a command description holds, program first
/// (the builder's own argv layout).
pub uninterp spec fn cmd_argv_of(cmd: portable_pty::CommandBuilder) -> Seq<Seq<char>>;

/// The environment map a command description holds. A fresh builder is
/// seeded with the platform's base environment — the child inherits it,
/// exactly as the original backend's children did — and the configured
/// variables are applied on top.
pub uninterp spec fn cmd_env_of(cmd: portable_pty::CommandBuilder) -> Map<Seq<char>, Seq<char>>;

/// The working directory a command description holds, when one was set.
pub uninterp spec fn cmd_cwd_of(cmd: portable_pty::CommandBuilder) -> Option<Seq<char>>;

/// The handles of one spawned native PTY: the master side, a reader and a
/// writer cloned from it, and the child process. Opaque to verification;
/// every use goes through the trusted wrappers below.
#[verifier::external_body]
pub struct NativePtyHandles {
    master: Box<dyn portable_pty::MasterPty + Send>,
    reader: Box<dyn std::io::Read + Send>,
    writer: Box<dyn std::io::Write + Send>,
    child: Box<dyn portable_pty::Child + Send + Sync>,
}

/// The argument vector the child behind these handles was spawned with,
/// program first.
pub uninterp spec fn spawned_argv_of(h: NativePtyHandles) -> Seq<Seq<char>>;

/// The environment the child behind these handles was spawned with.
pub uninterp spec fn spawned_env_of(h: NativePtyHandles) -> Map<Seq<char>, Seq<char>>;

/// The working directory the child behind these handles was spawned in,
/// when one was set.
pub uninterp spec fn spawned_cwd_of(h: NativePtyHandles) -> Option<Seq<char>>;

/// The geometry the pseudo-terminal pair behind these handles was opened
/// with.
pub uninterp spec fn spawned_size_of(h: NativePtyHandles) -> (u16, u16);

/// Relies on portable_pty::CommandBuilder::new: starts a command
/// description whose argument vector is just the program, with no working
/// directory set, and with the environment seeded from the platform's
/// base environment.
#[verifier::external_body]
fn command_new(program: &String) -> (r: portable_pty::CommandBuilder)
    ensures
        cmd_argv_of(r) == seq![program@],
        cmd_cwd_of(r) is None,
{
    portable_pty::CommandBuilder::new(program.as_str())
}

/// Relies on portable_pty::CommandBuilder::arg: appends exactly one
/// argument and changes nothing else of the description.
#[verifier::external_body]
fn command_arg(cmd: &mut portable_pty::CommandBuilder, arg: &String)
    ensures
        cmd_argv_of(*final(cmd)) == cmd_argv_of(*old(cmd)).push(arg@),
        cmd_env_of(*final(cmd)) == cmd_env_of(*old(cmd)),
        cmd_cwd_of(*final(cmd)) == cmd_cwd_of(*old(cmd)),
{
    cmd.arg(arg.as_str());
}

/// Relies on portable_pty::CommandBuilder::env: sets exactly one
/// environment variable for the child (overwriting an earlier value for
/// the same name) and changes nothing else of the description.
#[verifier::external_body]
fn command_env(cmd: &mut portable_pty::CommandBuilder, key: &String, value: &String)
    ensures
        cmd_env_of(*final(cmd)) == cmd_env_of(*old(cmd)).insert(key@, value@),
        cmd_argv_of(*final(cmd)) == cmd_argv_of(*old(cmd)),
        cmd_cwd_of(*final(cmd)) == cmd_cwd_of(*old(cmd)),
{
    cmd.env(key.as_str(), value.as_str());
}

/// Relies on portable_pty::CommandBuilder::cwd: sets the child's working
/// directory and changes nothing else of the description.
#[verifier::external_body]
fn command_cwd(cmd: &mut portable_pty::CommandBuilder, dir: &String)
    ensures
        cmd_cwd_of(*final(cmd)) == Some(dir@),
        cmd_argv_of(*final(cmd)) == cmd_argv_of(*old(cmd)),
        cmd_env_of(*final(cmd)) == cmd_env_of(*old(cmd)),
{
    cmd.cwd(dir.as_str());
}

/// Relies on portable_pty: native_pty_system and PtySystem::openpty to
/// allocate a master/slave pair at exactly the requested size,
/// SlavePty::spawn_command to start the child from exactly the given
/// command description, and MasterPty::try_clone_reader / take_writer for
/// the master's streams.
#[verifier::external_body]
fn spawn_in_pty(cmd: portable_pty::CommandBuilder, cols: u16, rows: u16) -> (r: Result<
    NativePtyHandles,
    String,
>)
    ensures
        r matches Ok(h) ==> {
            &&& spawned_argv_of(h) == cmd_argv_of(cmd)
            &&& spawned_env_of(h) == cmd_env_of(cmd)
            &&& spawned_cwd_of(h) == cmd_cwd_of(cmd)
            &&& spawned_size_of(h) == (cols, rows)
        },
{
    let sys = portable_pty::native_pty_system();
    let size = portable_pty::PtySize { rows, cols, pixel_width: 0, pixel_height: 0 };
    let pair = sys.openpty(size).map_err(|e| e.to_string())?;
    let child = pair.slave.spawn_command(cmd).map_err(|e| e.to_string())?;
    let reader = pair.master.try_clone_reader().map_err(|e| e.to_string())?;
    let writer = pair.master.take_writer().map_err(|e| e.to_string())?;
    Ok(NativePtyHandles { master: pair.master, reader, writer, child })
}

/// Relies on std::io::Read::read on the PTY master's reader: on success at
/// most `max` bytes are produced; 0 bytes means end of output.
#[verifier::external_body]
fn handles_read(h: &mut NativePtyHandles, max: usize) -> (r: Result<Vec<u8>, String>)
    ensures
        r matches Ok(v) ==> v@.len() <= max,
        spawned_argv_of(*final(h)) == spawned_argv_of(*old(h)),
        spawned_env_of(*final(h)) == spawned_env_of(*old(h)),
        spawned_cwd_of(*final(h)) == spawned_cwd_of(*old(h)),
        spawned_size_of(*final(h)) == spawned_size_of(*old(h)),
{
    let mut buf: Vec<u8> = vec![0u8; max];
    match h.reader.read(&mut buf) {
        Ok(n) => {
            buf.truncate(n);
            Ok(buf)
        },
        Err(e) => Err(e.to_string()),
    }
}

/// Relies on std::io::Write::write on the PTY master's writer: on success
/// the number of bytes accepted is at most the length handed in.
#[verifier::external_body]
fn handles_write(h: &mut NativePtyHandles, data: &[u8]) -> (r: Result<usize, String>)
    ensures
        r matches Ok(n) ==> n <= data@.len(),
        spawned_argv_of(*final(h)) == spawned_argv_of(*old(h)),
        spawned_env_of(*final(h)) == spawned_env_of(*old(h)),
        spawned_cwd_of(*final(h)) == spawned_cwd_of(*old(h)),
        spawned_size_of(*final(h)) == spawned_size_of(*old(h)),
{
    match h.writer.write(data) {
        Ok(n) => Ok(n),
        Err(e) => Err(e.to_string()),
    }
}

/// Relies on portable_pty::MasterPty::resize: asks the kernel to change
/// the pseudo-terminal's geometry.
#[verifier::external_body]
fn handles_resize(h: &mut NativePtyHandles, cols: u16, rows: u16) -> (r: Result<(), String>)
    ensures
        spawned_argv_of(*final(h)) == spawned_argv_of(*old(h)),
        spawned_env_of(*final(h)) == spawned_env_of(*old(h)),
        spawned_cwd_of(*final(h)) == spawned_cwd_of(*old(h)),
        spawned_size_of(*final(h)) == spawned_size_of(*old(h)),
{
    let size = portable_pty::PtySize { rows, cols, pixel_width: 0, pixel_height: 0 };
    match h.master.resize(size) {
        Ok(x) => Ok(x),
        Err(e) => Err(e.to_string()),
    }
}

/// Relies on portable_pty::Child::try_wait: a non-blocking poll that
/// reports the exit code once the child has terminated and nothing before.
#[verifier::external_body]
fn handles_try_wait(h: &mut NativePtyHandles) -> (r: Result<Option<u32>, String>)
    ensures
        spawned_argv_of(*final(h)) == spawned_argv_of(*old(h)),
        spawned_env_of(*final(h)) == spawned_env_of(*old(h)),
        spawned_cwd_of(*final(h)) == spawned_cwd_of(*old(h)),
        spawned_size_of(*final(h)) == spawned_size_of(*old(h)),
{
    match h.child.try_wait() {
        Ok(Some(status)) => Ok(Some(status.exit_code())),
        Ok(None) => Ok(None),
        Err(e) => Err(e.to_string()),
    }
}

/// Relies on portable_pty::ChildKiller::kill: requests immediate
/// termination of the child.
#[verifier::external_body]
fn handles_kill(h: &mut NativePtyHandles) -> (r: Result<(), String>)
    ensures
        spawned_argv_of(*final(h)) == spawned_argv_of(*old(h)),
        spawned_env_of(*final(h)) == spawned_env_of(*old(h)),
        spawned_cwd_of(*final(h)) == spawned_cwd_of(*old(h)),
        spawned_size_of(*final(h)) == spawned_size_of(*old(h)),
{
    match h.child.kill() {
        Ok(x) => Ok(x),
        Err(e) => Err(e.to_string()),
    }
}

/// Relies on portable_pty::Child::process_id: the child's process id, when
/// the platform exposes one.
#[verifier::external_body]
fn handles_pid(h: &NativePtyHandles) -> (r: Option<u32>) {
    h.child.process_id()
}

/// The reading half of a native PTY, cloned from the master side, so that
/// a dedicated worker can perform the blocking reads while another owner
/// keeps writing, resizing, polling, and killing.
#[verifier::external_body]
pub struct NativePtyReader {
    reader: Box<dyn std::io::Read + Send>,
}

/// Relies on portable_pty::MasterPty::try_clone_reader: another readable
/// handle onto the same master stream.
#[verifier::external_body]
fn handles_clone_reader(h: &NativePtyHandles) -> (r: Result<NativePtyReader, String>) {
    match h.master.try_clone_reader() {
        Ok(reader) => Ok(NativePtyReader { reader }),
        Err(e) => Err(e.to_string()),
    }
}

/// Relies on std::io::Read::read on the cloned reader: on success at most
/// `max` bytes are produced; 0 bytes means end of output.
#[verifier::external_body]
fn reader_read(r: &mut NativePtyReader, max: usize) -> (out: Result<Vec<u8>, String>)
    ensures
        out matches Ok(v) ==> v@.len() <= max,
{
    let mut buf: Vec<u8> = vec![0u8; max];
    match r.reader.read(&mut buf) {
        Ok(n) => {
            buf.truncate(n);
            Ok(buf)
        },
        Err(e) => Err(e.to_string()),
    }
}

impl NativePtyReader {
    /// Read up to `max` bytes of child output. An empty result means end
    /// of output. May block until the child produces output.
    pub fn read(&mut self, max: usize) -> (r: Result<Vec<u8>, IoError>)
        ensures
            r matches Ok(v) ==> v@.len() <= max,
    {
        match reader_read(self, max) {
            Ok(v) => Ok(v),
            Err(message) => Err(IoError { kind: IoErrorKind::Other, message }),
        }
    }
}

/// A native PTY with its verified liveness state machine: the last known
/// liveness flag (which may lag true OS state until `try_wait` is polled)
/// and the last known geometry.
pub struct NativePty {
    handles: NativePtyHandles,
    alive: bool,
    cols: u16,
    rows: u16,
}

impl NativePty {
    /// Last known liveness: true from creation until `kill` succeeds or
    /// `try_wait` observes the exit.
    pub closed spec fn alive_spec(self) -> bool {
        self.alive
    }

    /// The last known geometry, columns then rows.
    pub closed spec fn size_spec(self) -> (u16, u16) {
        (self.cols, self.rows)
    }

    /// The argument vector the child was spawned with, program first.
    pub closed spec fn spawned_argv(self) -> Seq<Seq<char>> {
        spawned_argv_of(self.handles)
    }

    /// The environment the child was spawned with: the platform's base
    /// environment with the configured variables applied on top.
    pub closed spec fn spawned_env(self) -> Map<Seq<char>, Seq<char>> {
        spawned_env_of(self.handles)
    }

    /// The working directory the child was spawned in, when one was set.
    pub closed spec fn spawned_cwd(self) -> Option<Seq<char>> {
        spawned_cwd_of(self.handles)
    }

    /// The geometry the pseudo-terminal pair was opened with.
    pub closed spec fn spawned_pty_size(self) -> (u16, u16) {
        spawned_size_of(self.handles)
    }

    /// Open a PTY pair sized exactly to the configuration, build the child
    /// command with the argument list, environment, and working directory
    /// exactly as given — nothing is injected beyond the builder's base
    /// environment — and spawn it. A freshly created backend is alive,
    /// carries the configured geometry, and its child was spawned from
    /// exactly the configured description.
    pub fn new(config: &PtyConfig) -> (r: Result<NativePty, PtyError>)
        requires
            config.wf(),
        ensures
            r matches Ok(p) ==> {
                &&& p.alive_spec()
                &&& p.size_spec() == (config.cols, config.rows)
                &&& p.spawned_argv() == seq![config.command@] + config.args@.map_values(
                    |a: String| a@,
                )
                &&& forall|i: int|
                    0 <= i < config.env@.len() ==> p.spawned_env().contains_key(
                        (#[trigger] config.env@[i]).0@,
                    ) && p.spawned_env()[config.env@[i].0@] == config.env@[i].1@
                &&& p.spawned_cwd() == (match config.cwd {
                    Some(d) => Some(d@),
                    None => None::<Seq<char>>,
                })
                &&& p.spawned_pty_size() == (config.cols, config.rows)
            },
            r matches Err(e) ==> e is SpawnFailed,
    {
        let mut cmd = command_new(&config.command);
        proof {
            assert(cmd_argv_of(cmd) =~= seq![config.command@] + config.args@.subrange(
                0,
                0,
            ).map_values(|a: String| a@));
        }
        let mut i: usize = 0;
        while i < config.args.len()
            invariant
                i <= config.args@.len(),
                cmd_argv_of(cmd) == seq![config.command@] + config.args@.subrange(
                    0,
                    i as int,
                ).map_values(|a: String| a@),
                cmd_cwd_of(cmd) is None,
            decreases config.args@.len() - i,
        {
            command_arg(&mut cmd, &config.args[i]);
            proof {
                assert((seq![config.command@] + config.args@.subrange(0, i as int).map_values(
                    |a: String| a@,
                )).push(config.args@[i as int]@) =~= seq![config.command@]
                    + config.args@.subrange(0, i + 1).map_values(|a: String| a@));
            }
            i += 1;
        }
        proof {
            assert(config.args@.subrange(0, config.args@.len() as int) =~= config.args@);
        }
        let mut j: usize = 0;
        while j < config.env.len()
            invariant
                j <= config.env@.len(),
                cmd_argv_of(cmd) == seq![config.command@] + config.args@.map_values(
                    |a: String| a@,
                ),
                cmd_cwd_of(cmd) is None,
                forall|i: int, k: int|
                    0 <= i < k < config.env@.len() ==> config.env@[i].0@ != config.env@[k].0@,
                forall|k: int|
                    0 <= k < j ==> cmd_env_of(cmd).contains_key(
                        (#[trigger] config.env@[k]).0@,
                    ) && cmd_env_of(cmd)[config.env@[k].0@] == config.env@[k].1@,
            decreases config.env@.len() - j,
        {
            command_env(&mut cmd, &config.env[j].0, &config.env[j].1);
            proof {
                assert forall|k: int|
                    0 <= k < j + 1 implies cmd_env_of(cmd).contains_key(
                        (#[trigger] config.env@[k]).0@,
                    ) && cmd_env_of(cmd)[config.env@[k].0@] == config.env@[k].1@ by {
                    if k < j {
                        assert(config.env@[k].0@ != config.env@[j as int].0@);
                    }
                }
            }
            j += 1;
        }
        match &config.cwd {
            Some(dir) => command_cwd(&mut cmd, dir),
            None => (),
        }
        match spawn_in_pty(cmd, config.cols, config.rows) {
            Ok(handles) => Ok(
                NativePty { handles, alive: true, cols: config.cols, rows: config.rows },
            ),
            Err(message) => Err(PtyError::SpawnFailed(message)),
        }
    }

    /// Cheap, non-blocking snapshot of last-known liveness.
    pub fn is_alive(&self) -> (r: bool)
        ensures
            r == self.alive_spec(),
    {
        self.alive
    }

    /// A separate reading handle onto the PTY master, so blocking reads
    /// can run on a dedicated worker while this handle keeps serving
    /// writes, resizes, status polls, and kill.
    pub fn clone_reader(&self) -> (r: Result<NativePtyReader, PtyError>)
        ensures
            r matches Err(e) ==> e is Io,
    {
        match handles_clone_reader(&self.handles) {
            Ok(reader) => Ok(reader),
            Err(message) => Err(PtyError::Io(IoError { kind: IoErrorKind::Other, message })),
        }
    }

    /// Best-effort process id of the child.
    pub fn pid(&self) -> Option<u32> {
        handles_pid(&self.handles)
    }

    /// The last known geometry, columns then rows.
    pub fn size(&self) -> (r: (u16, u16))
        ensures
            r == self.size_spec(),
    {
        (self.cols, self.rows)
    }

    /// Write bytes to the child through the PTY master. Once the process is
    /// known dead this fails with a broken-pipe-class error without touching
    /// the OS; otherwise whatever the OS reports is passed on, and at most
    /// `data`'s length is ever reported written.
    pub fn write(&mut self, data: &[u8]) -> (r: Result<usize, IoError>)
        ensures
            !old(self).alive_spec() ==> (r matches Err(e) && e.kind == IoErrorKind::BrokenPipe
                && *final(self) == *old(self)),
            old(self).alive_spec() ==> (r matches Err(e) ==> e.kind == IoErrorKind::Other),
            r matches Ok(n) ==> n <= data@.len(),
            final(self).alive_spec() == old(self).alive_spec(),
            final(self).size_spec() == old(self).size_spec(),
    {
        if !self.alive {
            return Err(IoError::new(IoErrorKind::BrokenPipe, "PTY process has terminated"));
        }
        match handles_write(&mut self.handles, data) {
            Ok(n) => Ok(n),
            Err(message) => Err(IoError { kind: IoErrorKind::Other, message }),
        }
    }

    /// Read up to `max` bytes of child output from the PTY master. An empty
    /// result means end of output; once the process is known dead, end of
    /// output is reported without touching the OS. May block until the
    /// child produces output; callers that must not block run it on a
    /// dedicated worker.
    pub fn read(&mut self, max: usize) -> (r: Result<Vec<u8>, IoError>)
        ensures
            r matches Ok(v) ==> v@.len() <= max,
            !old(self).alive_spec() ==> (r matches Ok(v) && v@.len() == 0),
            final(self).alive_spec() == old(self).alive_spec(),
            final(self).size_spec() == old(self).size_spec(),
    {
        if !self.alive {
            return Ok(Vec::new());
        }
        match handles_read(&mut self.handles, max) {
            Ok(v) => Ok(v),
            Err(message) => Err(IoError { kind: IoErrorKind::Other, message }),
        }
    }

    /// Ask the kernel to change the terminal geometry. Fails with
    /// ProcessTerminated once the process is known dead and with
    /// ResizeFailed when the kernel call fails; the local geometry record
    /// is updated exactly when the call succeeds.
    pub fn resize(&mut self, cols: u16, rows: u16) -> (r: Result<(), PtyError>)
        ensures
            !old(self).alive_spec() ==> (r matches Err(e) && e is ProcessTerminated && *final(self)
                == *old(self)),
            old(self).alive_spec() ==> {
                &&& r is Ok ==> final(self).size_spec() == (cols, rows)
                &&& r matches Err(e) ==> e is ResizeFailed && final(self).size_spec() == old(
                    self,
                ).size_spec()
            },
            final(self).alive_spec() == old(self).alive_spec(),
    {
        if !self.alive {
            return Err(PtyError::ProcessTerminated);
        }
        match handles_resize(&mut self.handles, cols, rows) {
            Ok(_) => {
                self.cols = cols;
                self.rows = rows;
                Ok(())
            },
            Err(message) => Err(PtyError::ResizeFailed(message)),
        }
    }

    /// Non-blocking poll of the child's status. The first poll that
    /// observes termination flips liveness to false and is the only one
    /// that reports a status: once liveness is false, every poll reports
    /// "still running: no status".
    pub fn try_wait(&mut self) -> (r: Result<Option<PtyExitStatus>, PtyError>)
        ensures
            !old(self).alive_spec() ==> (r == Ok::<Option<PtyExitStatus>, PtyError>(None)
                && *final(self) == *old(self)),
            r matches Ok(s) && s is Some ==> !final(self).alive_spec(),
            r matches Ok(s) && s is None ==> final(self).alive_spec() == old(self).alive_spec(),
            r is Err ==> final(self).alive_spec() == old(self).alive_spec() && (r matches Err(e)
                && e is Io),
            final(self).size_spec() == old(self).size_spec(),
    {
        if !self.alive {
            return Ok(None);
        }
        match handles_try_wait(&mut self.handles) {
            Ok(Some(code)) => {
                self.alive = false;
                Ok(Some(PtyExitStatus { code }))
            },
            Ok(None) => Ok(None),
            Err(message) => Err(PtyError::Io(IoError { kind: IoErrorKind::Other, message })),
        }
    }

    /// Request immediate termination. Idempotent: once the process is known
    /// dead this succeeds without touching the OS. On success liveness is
    /// false; a failed kill leaves the liveness record unchanged.
    pub fn kill(&mut self) -> (r: Result<(), PtyError>)
        ensures
            !old(self).alive_spec() ==> (r is Ok && *final(self) == *old(self)),
            r is Ok ==> !final(self).alive_spec(),
            r is Err ==> final(self).alive_spec() == old(self).alive_spec() && (r matches Err(e)
                && e is Io),
            final(self).size_spec() == old(self).size_spec(),
    {
        if !self.alive {
            return Ok(());
        }
        match handles_kill(&mut self.handles) {
            Ok(_) => {
                self.alive = false;
                Ok(())
            },
            Err(message) => Err(PtyError::Io(IoError { kind: IoErrorKind::Other, message })),
        }
    }
}

} // verus!
