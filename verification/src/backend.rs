//! Backend dispatch and selection: the `PtyHandle` that hides the
//! difference between the native-process and simulated backends, the
//! factory abstraction, and the platform-ordered selection with fallback
//! to the simulated backend.

use vstd::prelude::*;
use vstd::string::StringExecFns;

use crate::config::TerminalConfig;
use crate::memory_pty::MemoryPty;
use crate::native_pty::NativePty;
use crate::pty::{IoError, IoErrorKind, PtyConfig, PtyError, PtyExitStatus};
use crate::sim;

verus! {

/// A live PTY backend instance: either a native OS process attached to a
/// real pseudo-terminal, or the simulated in-memory backend.
pub enum PtyHandle {
    Native(NativePty),
    Memory(MemoryPty),
}

impl PtyHandle {
    /// Last-known liveness of whichever backend this is.
    pub open spec fn alive_spec(self) -> bool {
        match self {
            PtyHandle::Native(p) => p.alive_spec(),
            PtyHandle::Memory(p) => p.alive_spec(),
        }
    }

    /// Last-known geometry of whichever backend this is.
    pub open spec fn size_spec(self) -> (u16, u16) {
        match self {
            PtyHandle::Native(p) => p.size_spec(),
            PtyHandle::Memory(p) => p.size_spec(),
        }
    }

    /// Cheap, non-blocking snapshot of last-known liveness.
    pub fn is_alive(&self) -> (r: bool)
        ensures
            r == self.alive_spec(),
    {
        match self {
            PtyHandle::Native(p) => p.is_alive(),
            PtyHandle::Memory(p) => p.is_alive(),
        }
    }

    /// Best-effort process id; the simulated backend has none.
    pub fn pid(&self) -> (r: Option<u32>)
        ensures
            *self is Memory ==> r is None,
    {
        match self {
            PtyHandle::Native(p) => p.pid(),
            PtyHandle::Memory(p) => p.pid(),
        }
    }

    /// The last known geometry, columns then rows.
    pub fn size(&self) -> (r: (u16, u16))
        ensures
            r == self.size_spec(),
    {
        match self {
            PtyHandle::Native(p) => p.size(),
            PtyHandle::Memory(p) => p.size(),
        }
    }

    /// Write bytes to the backend. Writing to a dead backend always fails
    /// with a broken-pipe-class error; a simulated backend accepts every
    /// byte, runs it through the interpreter, and dies on an "exit" line.
    pub fn write(&mut self, data: &[u8]) -> (r: Result<usize, IoError>)
        ensures
            !old(self).alive_spec() ==> (r matches Err(e) && e.kind == IoErrorKind::BrokenPipe
                && *final(self) == *old(self)),
            r matches Ok(n) ==> n <= data@.len(),
            final(self).size_spec() == old(self).size_spec(),
            *old(self) matches PtyHandle::Native(_) ==> final(self).alive_spec() == old(
                self,
            ).alive_spec() && *final(self) is Native,
            *old(self) matches PtyHandle::Memory(m) ==> (m.alive_spec() ==> {
                &&& r matches Ok(n)
                &&& n == data@.len()
                &&& *final(self) matches PtyHandle::Memory(m2)
                &&& m2.buffered() == m.buffered() + sim::sim_output(data@, m.cwd_spec())
                &&& m2.alive_spec() == !sim::sim_exits(data@)
                &&& m2.cwd_spec() == m.cwd_spec()
            }),
    {
        match self {
            PtyHandle::Native(p) => p.write(data),
            PtyHandle::Memory(p) => p.write(data),
        }
    }

    /// Read up to `max` bytes of backend output. An empty result means end
    /// of output; a simulated backend with nothing buffered reports
    /// would-block while alive.
    pub fn read(&mut self, max: usize) -> (r: Result<Vec<u8>, IoError>)
        ensures
            r matches Ok(v) ==> v@.len() <= max,
            final(self).alive_spec() == old(self).alive_spec(),
            final(self).size_spec() == old(self).size_spec(),
            *old(self) matches PtyHandle::Native(n) && !n.alive_spec() ==> (r matches Ok(v)
                && v@.len() == 0),
            *old(self) matches PtyHandle::Memory(m) ==> *final(self) matches PtyHandle::Memory(m2)
                && {
                let n = vstd::math::min(max as int, m.buffered().len() as int);
                &&& m.buffered().len() == 0 && m.alive_spec() ==> (r matches Err(e) && e.kind
                    == IoErrorKind::WouldBlock && *final(self) == *old(self))
                &&& m.buffered().len() == 0 && !m.alive_spec() ==> (r matches Ok(v) && v@.len()
                    == 0 && *final(self) == *old(self))
                &&& m.buffered().len() > 0 ==> (r matches Ok(v) && v@ == m.buffered().take(n)
                    && m2.buffered() == m.buffered().skip(n) && m2.cwd_spec() == m.cwd_spec())
            },
    {
        match self {
            PtyHandle::Native(p) => p.read(max),
            PtyHandle::Memory(p) => p.read(max),
        }
    }

    /// Change the terminal geometry. Resizing a dead backend fails with
    /// ProcessTerminated; a failing kernel call reports ResizeFailed; the
    /// recorded geometry changes exactly when the call succeeds.
    pub fn resize(&mut self, cols: u16, rows: u16) -> (r: Result<(), PtyError>)
        ensures
            !old(self).alive_spec() ==> (r matches Err(e) && e is ProcessTerminated && *final(self)
                == *old(self)),
            old(self).alive_spec() ==> {
                &&& r is Ok ==> final(self).size_spec() == (cols, rows)
                &&& r matches Err(e) ==> e is ResizeFailed && final(self).size_spec() == old(
                    self,
                ).size_spec()
            },
            *old(self) matches PtyHandle::Memory(m) && m.alive_spec() ==> r is Ok,
            final(self).alive_spec() == old(self).alive_spec(),
    {
        match self {
            PtyHandle::Native(p) => p.resize(cols, rows),
            PtyHandle::Memory(p) => p.resize(cols, rows),
        }
    }

    /// Non-blocking exit poll. A status is reported at most once per
    /// backend: whenever a status comes back, liveness is false afterwards,
    /// and a backend whose liveness is already false at the call reports
    /// nothing further.
    pub fn try_wait(&mut self) -> (r: Result<Option<PtyExitStatus>, PtyError>)
        ensures
            final(self).size_spec() == old(self).size_spec(),
            r matches Ok(s) && s is Some ==> !final(self).alive_spec(),
            *old(self) matches PtyHandle::Memory(m) ==> ({
                let (next, status) = m.try_wait_spec();
                r == Ok::<Option<PtyExitStatus>, PtyError>(status) && *final(self)
                    == PtyHandle::Memory(next)
            }),
            *old(self) matches PtyHandle::Native(n) ==> {
                &&& *final(self) is Native
                &&& !n.alive_spec() ==> (r == Ok::<Option<PtyExitStatus>, PtyError>(None)
                    && *final(self) == *old(self))
                &&& ((r matches Ok(s) && s is None) ==> final(self).alive_spec() == old(
                    self,
                ).alive_spec())
                &&& r is Err ==> final(self).alive_spec() == old(self).alive_spec()
            },
    {
        let r = match self {
            PtyHandle::Native(p) => p.try_wait(),
            PtyHandle::Memory(p) => p.try_wait(),
        };
        proof {
            match *old(self) {
                PtyHandle::Memory(m) => {
                    crate::memory_pty::lemma_with_exit_reported(m);
                    assert(*self is Memory);
                },
                PtyHandle::Native(_) => {
                    assert(*self is Native);
                },
            }
        }
        r
    }

    /// Request immediate termination. Idempotent: killing an already-dead
    /// backend succeeds; on success liveness is false.
    pub fn kill(&mut self) -> (r: Result<(), PtyError>)
        ensures
            !old(self).alive_spec() ==> r is Ok,
            r is Ok ==> !final(self).alive_spec(),
            r is Err ==> final(self).alive_spec() == old(self).alive_spec(),
            final(self).size_spec() == old(self).size_spec(),
            *old(self) is Memory ==> r is Ok,
    {
        match self {
            PtyHandle::Native(p) => p.kill(),
            PtyHandle::Memory(p) => p.kill(),
        }
    }
}

/// The uniform construction entry point every backend factory offers: a
/// successfully created backend is alive and carries the configured
/// geometry.
pub trait PtyFactory: Sized {
    fn create(&self, config: &PtyConfig) -> (r: Result<PtyHandle, PtyError>)
        requires
            config.wf(),
        ensures
            r matches Ok(p) ==> p.alive_spec() && p.size_spec() == (config.cols, config.rows),
    ;

    fn name(&self) -> (r: &'static str);
}

/// Factory for the simulated in-memory backend; creation never fails.
pub struct MemoryPtyFactory;

impl PtyFactory for MemoryPtyFactory {
    fn create(&self, config: &PtyConfig) -> (r: Result<PtyHandle, PtyError>)
        ensures
            r is Ok,
            r matches Ok(p) ==> p matches PtyHandle::Memory(m) && m.alive_spec()
                && !m.exit_reported_spec() && m.buffered() == crate::memory_pty::welcome_of(
                config.command@,
            ) && m.cwd_spec() == crate::memory_pty::cwd_bytes_of(config.cwd) && m.size_spec() == (
            config.cols,
            config.rows,
            ),
    {
        Ok(PtyHandle::Memory(MemoryPty::new(config)))
    }

    fn name(&self) -> (r: &'static str) {
        "memory-pty"
    }
}

/// Factory for the native-process backend on a real OS pseudo-terminal.
pub struct UnixPtyFactory;

impl PtyFactory for UnixPtyFactory {
    fn create(&self, config: &PtyConfig) -> (r: Result<PtyHandle, PtyError>)
        ensures
            r matches Err(e) ==> e is SpawnFailed,
            r matches Ok(p) ==> (p matches PtyHandle::Native(n) && n.spawned_argv() == seq![
                config.command@,
            ] + config.args@.map_values(|a: String| a@) && (forall|i: int|
                0 <= i < config.env@.len() ==> n.spawned_env().contains_key(
                    (#[trigger] config.env@[i]).0@,
                ) && n.spawned_env()[config.env@[i].0@] == config.env@[i].1@)
                && n.spawned_cwd() == (match config.cwd {
                Some(d) => Some(d@),
                None => None::<Seq<char>>,
            }) && n.spawned_pty_size() == (config.cols, config.rows)),
    {
        match NativePty::new(config) {
            Ok(p) => Ok(PtyHandle::Native(p)),
            Err(e) => Err(e),
        }
    }

    fn name(&self) -> (r: &'static str) {
        "unix-pty"
    }
}

/// Create a backend through one specific factory.
pub fn create_pty_with_factory<F: PtyFactory>(factory: &F, config: &PtyConfig) -> (r: Result<
    PtyHandle,
    PtyError,
>)
    requires
        config.wf(),
    ensures
        r matches Ok(p) ==> p.alive_spec() && p.size_spec() == (config.cols, config.rows),
{
    factory.create(config)
}

/// Create a backend for this configuration, trying the platform's backends
/// in order: the native backend first, then the simulated backend as a
/// fallback. Because the simulated backend always constructs, the chain
/// never fails, and whichever backend comes back was built from exactly
/// this configuration: a native child spawned from the configured command
/// description, or a simulated backend greeting the configured command in
/// the configured working directory.
pub fn create_pty_with_config(config: &PtyConfig) -> (r: Result<PtyHandle, PtyError>)
    requires
        config.wf(),
    ensures
        r is Ok,
        r matches Ok(p) ==> p.alive_spec() && p.size_spec() == (config.cols, config.rows),
        r matches Ok(p) ==> (p matches PtyHandle::Memory(m) ==> !m.exit_reported_spec()
            && m.buffered() == crate::memory_pty::welcome_of(config.command@) && m.cwd_spec()
            == crate::memory_pty::cwd_bytes_of(config.cwd)),
        r matches Ok(p) ==> (p matches PtyHandle::Native(n) ==> n.spawned_argv() == seq![
            config.command@,
        ] + config.args@.map_values(|a: String| a@) && (forall|i: int|
            0 <= i < config.env@.len() ==> n.spawned_env().contains_key(
                (#[trigger] config.env@[i]).0@,
            ) && n.spawned_env()[config.env@[i].0@] == config.env@[i].1@) && n.spawned_cwd() == (
        match config.cwd {
            Some(d) => Some(d@),
            None => None::<Seq<char>>,
        }) && n.spawned_pty_size() == (config.cols, config.rows)),
{
    match NativePty::new(config) {
        Ok(p) => Ok(PtyHandle::Native(p)),
        Err(_) => Ok(PtyHandle::Memory(MemoryPty::new(config))),
    }
}

/// Create a backend with the stock interactive configuration: `bash` at
/// 80x24 with a color-capable terminal environment and no working
/// directory of its own. The result was built from exactly that
/// configuration: a native child spawned as plain `bash` with TERM and
/// COLORTERM set, or the simulated backend greeting `bash` at the root
/// directory.
pub fn create_pty() -> (r: Result<PtyHandle, PtyError>)
    ensures
        r is Ok,
        r matches Ok(p) ==> p.alive_spec() && p.size_spec() == (80u16, 24u16),
        r matches Ok(p) ==> (p matches PtyHandle::Memory(m) ==> !m.exit_reported_spec()
            && m.buffered() == crate::memory_pty::welcome_of("bash"@) && m.cwd_spec()
            == crate::memory_pty::cwd_bytes_of(None::<String>)),
        r matches Ok(p) ==> (p matches PtyHandle::Native(n) ==> n.spawned_argv() == seq!["bash"@]
            && n.spawned_env().contains_key("TERM"@) && n.spawned_env()["TERM"@]
            == "xterm-256color"@ && n.spawned_env().contains_key("COLORTERM"@)
            && n.spawned_env()["COLORTERM"@] == "truecolor"@ && n.spawned_cwd() is None
            && n.spawned_pty_size() == (80u16, 24u16)),
{
    let mut env: Vec<(String, String)> = Vec::new();
    env.push((String::from_str("TERM"), String::from_str("xterm-256color")));
    env.push((String::from_str("COLORTERM"), String::from_str("truecolor")));
    let config = PtyConfig {
        command: String::from_str("bash"),
        args: Vec::new(),
        cols: 80,
        rows: 24,
        env,
        cwd: None,
    };
    proof {
        reveal_strlit("TERM");
        reveal_strlit("COLORTERM");
        assert("TERM"@.len() == 4);
        assert("COLORTERM"@.len() == 9);
        assert(config.wf());
    }
    let r = create_pty_with_config(&config);
    proof {
        assert(config.args@.map_values(|a: String| a@) =~= Seq::<Seq<char>>::empty());
        assert(seq![config.command@] + config.args@.map_values(|a: String| a@) =~= seq![
            "bash"@,
        ]);
        assert(config.env@[0].0@ == "TERM"@ && config.env@[0].1@ == "xterm-256color"@);
        assert(config.env@[1].0@ == "COLORTERM"@ && config.env@[1].1@ == "truecolor"@);
    }
    r
}

/// The index of the first shell entry whose name is `key`, or the table's
/// length if there is none.
pub open spec fn find_shell(shells: Seq<(String, crate::config::ShellConfig)>, key: Seq<char>) -> nat
    decreases shells.len(),
{
    if shells.len() == 0 {
        0
    } else if shells[0].0@ == key {
        0
    } else {
        1 + find_shell(shells.drop_first(), key)
    }
}

/// A position scanned to by "first entry whose name matches, else the
/// length" is exactly `find_shell`.
proof fn lemma_find_shell_unique(
    shells: Seq<(String, crate::config::ShellConfig)>,
    key: Seq<char>,
    k: int,
)
    requires
        0 <= k <= shells.len(),
        forall|j: int| 0 <= j < k ==> (#[trigger] shells[j]).0@ != key,
        k < shells.len() ==> shells[k].0@ == key,
    ensures
        find_shell(shells, key) == k,
    decreases shells.len(),
{
    if shells.len() == 0 {
    } else if shells[0].0@ == key {
        assert(k == 0);
    } else {
        assert(k >= 1);
        assert forall|j: int| 0 <= j < k - 1 implies (#[trigger] shells.drop_first()[j]).0@
            != key by {
            assert(shells.drop_first()[j] == shells[j + 1]);
        }
        if k - 1 < shells.drop_first().len() {
            assert(shells.drop_first()[k - 1] == shells[k]);
        }
        lemma_find_shell_unique(shells.drop_first(), key, k - 1);
    }
}

fn find_shell_index(shells: &Vec<(String, crate::config::ShellConfig)>, key: &String) -> (r: usize)
    ensures
        r == find_shell(shells@, key@),
{
    let mut i: usize = 0;
    while i < shells.len()
        invariant
            i <= shells@.len(),
            forall|j: int| 0 <= j < i ==> (#[trigger] shells@[j]).0@ != key@,
        decreases shells@.len() - i,
    {
        if shells[i].0 == *key {
            proof {
                lemma_find_shell_unique(shells@, key@, i as int);
            }
            return i;
        }
        i += 1;
    }
    proof {
        lemma_find_shell_unique(shells@, key@, shells@.len() as int);
    }
    shells.len()
}

/// The shell entry the configuration selects: the configured default shell
/// where the table has it, else none: an unknown default shell type is a
/// configuration error, never silently papered over with another entry.
pub open spec fn chosen_shell(c: TerminalConfig) -> int {
    let i = find_shell(c.shells@, c.default_shell_type@);
    if i < c.shells@.len() {
        i as int
    } else {
        -1
    }
}

/// What the selected shell entry dictates for the spawned PTY: the first
/// command element as the program, the rest as arguments, the entry's own
/// environment and working directory, and its size where it has one, the
/// configured default size where not.
pub open spec fn resolved_from(pc: PtyConfig, c: TerminalConfig, idx: int) -> bool {
    let shell = c.shells@[idx].1;
    &&& pc.command == shell.command@[0]
    &&& pc.args@ == shell.command@.skip(1)
    &&& (shell.size matches Some(s) ==> pc.cols == s.columns && pc.rows == s.rows)
    &&& (shell.size is None ==> pc.cols == c.default_size.columns && pc.rows
        == c.default_size.rows)
    &&& pc.env@ == shell.environment@
    &&& pc.cwd == shell.working_directory
}

/// Resolve the application configuration to a PTY configuration: pick the
/// default shell's entry, then carry its command line, environment,
/// working directory, and size over exactly as given — nothing else is
/// injected. An unknown default shell type fails here, before any backend
/// is selected, so the backend fallback can never mask it.
pub fn resolve_pty_config(config: &TerminalConfig) -> (r: Result<PtyConfig, PtyError>)
    requires
        config.wf(),
    ensures
        chosen_shell(*config) == -1 <==> (r matches Err(e) && e is SpawnFailed),
        chosen_shell(*config) >= 0 ==> (r matches Ok(pc) && resolved_from(
            pc,
            *config,
            chosen_shell(*config),
        ) && pc.wf()),
{
    let idx = find_shell_index(&config.shells, &config.default_shell_type);
    if idx >= config.shells.len() {
        return Err(
            PtyError::SpawnFailed(String::from_str("no shell configuration found")),
        );
    }
    let shell = &config.shells[idx].1;
    let command = shell.command[0].clone();
    let mut args: Vec<String> = Vec::new();
    let mut i: usize = 1;
    while i < shell.command.len()
        invariant
            1 <= i <= shell.command@.len(),
            args@ == shell.command@.subrange(1, i as int),
        decreases shell.command@.len() - i,
    {
        args.push(shell.command[i].clone());
        proof {
            assert(shell.command@.subrange(1, i as int).push(shell.command@[i as int])
                =~= shell.command@.subrange(1, i + 1));
        }
        i += 1;
    }
    let mut env: Vec<(String, String)> = Vec::new();
    let mut j: usize = 0;
    while j < shell.environment.len()
        invariant
            j <= shell.environment@.len(),
            env@ == shell.environment@.subrange(0, j as int),
        decreases shell.environment@.len() - j,
    {
        env.push((shell.environment[j].0.clone(), shell.environment[j].1.clone()));
        proof {
            assert(shell.environment@.subrange(0, j as int).push(shell.environment@[j as int])
                =~= shell.environment@.subrange(0, j + 1));
        }
        j += 1;
    }
    let cwd: Option<String> = match &shell.working_directory {
        Some(d) => Some(d.clone()),
        None => None,
    };
    let (cols, rows): (u16, u16) = match &shell.size {
        Some(s) => (s.columns, s.rows),
        None => (config.default_size.columns, config.default_size.rows),
    };
    proof {
        assert(args@ =~= shell.command@.skip(1));
        assert(env@ =~= shell.environment@);
    }
    Ok(PtyConfig { command, args, cols, rows, env, cwd })
}

/// Create a backend as the application configuration dictates: resolve
/// the default shell's entry — failing right here when its type is
/// unknown — then run the backend selection chain on the result. On
/// success the backend was built from exactly the resolved entry: its
/// size (the entry's own, else the configured default), a native child
/// spawned with the entry's full command vector, environment, and working
/// directory, or the simulated backend greeting the entry's program in
/// the entry's working directory.
pub fn create_pty_from_config(config: &TerminalConfig) -> (r: Result<PtyHandle, PtyError>)
    requires
        config.wf(),
    ensures
        chosen_shell(*config) == -1 <==> (r matches Err(e) && e is SpawnFailed),
        chosen_shell(*config) >= 0 ==> (r matches Ok(p) && p.alive_spec() && ({
            let shell = config.shells@[chosen_shell(*config)].1;
            let size = (match shell.size {
                Some(s) => (s.columns, s.rows),
                None => (config.default_size.columns, config.default_size.rows),
            });
            &&& p.size_spec() == size
            &&& (p matches PtyHandle::Memory(m) ==> !m.exit_reported_spec() && m.buffered()
                == crate::memory_pty::welcome_of(shell.command@[0]@) && m.cwd_spec()
                == crate::memory_pty::cwd_bytes_of(shell.working_directory))
            &&& (p matches PtyHandle::Native(n) ==> n.spawned_argv()
                == shell.command@.map_values(|a: String| a@) && (forall|i: int|
                0 <= i < shell.environment@.len() ==> n.spawned_env().contains_key(
                    (#[trigger] shell.environment@[i]).0@,
                ) && n.spawned_env()[shell.environment@[i].0@] == shell.environment@[i].1@)
                && n.spawned_cwd() == (match shell.working_directory {
                Some(d) => Some(d@),
                None => None::<Seq<char>>,
            }) && n.spawned_pty_size() == size)
        })),
{
    match resolve_pty_config(config) {
        Ok(pc) => {
            let r = create_pty_with_config(&pc);
            proof {
                let shell = config.shells@[chosen_shell(*config)].1;
                assert(seq![pc.command@] + pc.args@.map_values(|a: String| a@)
                    =~= shell.command@.map_values(|a: String| a@));
            }
            r
        },
        Err(e) => Err(e),
    }
}

} // verus!
