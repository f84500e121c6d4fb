//! Configuration data model: terminal defaults, per-shell settings, and
//! the loader that falls back to the stock configuration.

use vstd::prelude::*;
use vstd::string::StringExecFns;

verus! {

/// Terminal geometry in character cells.
#[derive(Debug, Clone, Copy, PartialEq, Eq, Structural)]
pub struct TerminalSize {
    pub columns: u16,
    pub rows: u16,
}

/// How one shell is started: its command line, optional working directory
/// and size, and environment variables.
#[derive(Debug)]
pub struct ShellConfig {
    /// The command and its arguments; the first element is the program.
    pub command: Vec<String>,
    pub working_directory: Option<String>,
    pub size: Option<TerminalSize>,
    pub environment: Vec<(String, String)>,
}

impl ShellConfig {
    /// A usable shell entry: a non-empty command line and unique
    /// environment-variable names.
    pub open spec fn wf(self) -> bool {
        &&& self.command@.len() > 0
        &&& forall|i: int, j: int|
            0 <= i < j < self.environment@.len() ==> self.environment@[i].0@
                != self.environment@[j].0@
    }
}

/// The terminal service's configuration: the default shell, default
/// geometry and working directory, the idle-session timeout in
/// milliseconds, and the table of configured shells.
#[derive(Debug)]
pub struct TerminalConfig {
    pub default_shell_type: String,
    pub default_size: TerminalSize,
    pub default_working_directory: String,
    pub session_timeout: u64,
    pub shells: Vec<(String, ShellConfig)>,
}

impl TerminalConfig {
    /// A usable configuration: positive default geometry, unique shell
    /// names, and every shell entry usable (with positive geometry where
    /// one is given).
    pub open spec fn wf(self) -> bool {
        &&& self.default_size.columns >= 1
        &&& self.default_size.rows >= 1
        &&& forall|i: int, j: int|
            0 <= i < j < self.shells@.len() ==> self.shells@[i].0@ != self.shells@[j].0@
        &&& forall|i: int|
            0 <= i < self.shells@.len() ==> (#[trigger] self.shells@[i].1).wf()
        &&& forall|i: int|
            0 <= i < self.shells@.len() ==> match (#[trigger] self.shells@[i].1).size {
                Some(s) => s.columns >= 1 && s.rows >= 1,
                None => true,
            }
    }

    /// Decide validity at run time, for configurations read from outside.
    pub fn is_valid(&self) -> (r: bool)
        ensures
            r == self.wf(),
    {
        if self.default_size.columns < 1 || self.default_size.rows < 1 {
            return false;
        }
        if !unique_shell_names(&self.shells) {
            return false;
        }
        let n = self.shells.len();
        let mut i: usize = 0;
        while i < n
            invariant
                i <= n,
                n == self.shells@.len(),
                forall|k: int| 0 <= k < i ==> (#[trigger] self.shells@[k].1).wf(),
                forall|k: int|
                    0 <= k < i ==> match (#[trigger] self.shells@[k].1).size {
                        Some(s) => s.columns >= 1 && s.rows >= 1,
                        None => true,
                    },
            decreases n - i,
        {
            let shell = &self.shells[i].1;
            if shell.command.len() == 0 {
                proof {
                    assert(!self.shells@[i as int].1.wf());
                }
                return false;
            }
            if !crate::pty::unique_keys(&shell.environment) {
                proof {
                    assert(!self.shells@[i as int].1.wf());
                }
                return false;
            }
            match &shell.size {
                Some(ts) => {
                    if ts.columns < 1 || ts.rows < 1 {
                        return false;
                    }
                },
                None => (),
            }
            i += 1;
        }
        true
    }
}

/// Whether the shell entries' names are pairwise distinct.
fn unique_shell_names(shells: &Vec<(String, ShellConfig)>) -> (r: bool)
    ensures
        r == (forall|i: int, j: int|
            0 <= i < j < shells@.len() ==> shells@[i].0@ != shells@[j].0@),
{
    let n = shells.len();
    let mut i: usize = 0;
    while i < n
        invariant
            i <= n,
            n == shells@.len(),
            forall|a: int, b: int| 0 <= a < b < shells@.len() && a < i ==> shells@[a].0@
                != shells@[b].0@,
        decreases n - i,
    {
        let mut j: usize = i + 1;
        while j < n
            invariant
                i < j <= n,
                n == shells@.len(),
                forall|b: int| i < b < j ==> shells@[i as int].0@ != shells@[b].0@,
            decreases n - j,
        {
            if shells[i].0 == shells[j].0 {
                return false;
            }
            j += 1;
        }
        i += 1;
    }
    true
}

/// The stock configuration, spelled out: `bash` as the default shell at
/// 80x24, a 30-minute session timeout, and entries for `bash`, `cmd`, and
/// `powershell`.
pub open spec fn is_default_config(c: TerminalConfig) -> bool {
    &&& c.default_shell_type@ == "bash"@
    &&& c.default_size == TerminalSize { columns: 80, rows: 24 }
    &&& c.default_working_directory@ == "."@
    &&& c.session_timeout == 1800000
    &&& c.shells@.len() == 3
    &&& c.shells@[0].0@ == "bash"@
    &&& c.shells@[0].1.command@.len() == 2
    &&& c.shells@[0].1.command@[0]@ == "bash"@
    &&& c.shells@[0].1.command@[1]@ == "-l"@
    &&& c.shells@[0].1.working_directory is None
    &&& c.shells@[0].1.size is None
    &&& c.shells@[0].1.environment@.len() == 2
    &&& c.shells@[0].1.environment@[0].0@ == "TERM"@
    &&& c.shells@[0].1.environment@[0].1@ == "xterm-256color"@
    &&& c.shells@[0].1.environment@[1].0@ == "PATH"@
    &&& c.shells@[0].1.environment@[1].1@
        == "/usr/local/sbin:/usr/local/bin:/usr/sbin:/usr/bin:/sbin:/bin"@
    &&& c.shells@[1].0@ == "cmd"@
    &&& c.shells@[1].1.command@.len() == 3
    &&& c.shells@[1].1.command@[0]@ == "cmd.exe"@
    &&& c.shells@[1].1.command@[1]@ == "/c"@
    &&& c.shells@[1].1.command@[2]@ == "cmd"@
    &&& c.shells@[1].1.working_directory is None
    &&& c.shells@[1].1.size is None
    &&& c.shells@[1].1.environment@.len() == 1
    &&& c.shells@[1].1.environment@[0].0@ == "TERM"@
    &&& c.shells@[1].1.environment@[0].1@ == "xterm-256color"@
    &&& c.shells@[2].0@ == "powershell"@
    &&& c.shells@[2].1.command@.len() == 1
    &&& c.shells@[2].1.command@[0]@ == "powershell.exe"@
    &&& c.shells@[2].1.working_directory is None
    &&& c.shells@[2].1.size is None
    &&& c.shells@[2].1.environment@.len() == 1
    &&& c.shells@[2].1.environment@[0].0@ == "TERM"@
    &&& c.shells@[2].1.environment@[0].1@ == "xterm-256color"@
}

impl Default for TerminalConfig {
    fn default() -> (r: Self)
        ensures
            is_default_config(r),
            r.wf(),
    {
        let mut bash_cmd: Vec<String> = Vec::new();
        bash_cmd.push(String::from_str("bash"));
        bash_cmd.push(String::from_str("-l"));
        let mut bash_env: Vec<(String, String)> = Vec::new();
        bash_env.push((String::from_str("TERM"), String::from_str("xterm-256color")));
        bash_env.push(
            (
                String::from_str("PATH"),
                String::from_str("/usr/local/sbin:/usr/local/bin:/usr/sbin:/usr/bin:/sbin:/bin"),
            ),
        );
        let bash = ShellConfig {
            command: bash_cmd,
            working_directory: None,
            size: None,
            environment: bash_env,
        };

        let mut cmd_cmd: Vec<String> = Vec::new();
        cmd_cmd.push(String::from_str("cmd.exe"));
        cmd_cmd.push(String::from_str("/c"));
        cmd_cmd.push(String::from_str("cmd"));
        let mut cmd_env: Vec<(String, String)> = Vec::new();
        cmd_env.push((String::from_str("TERM"), String::from_str("xterm-256color")));
        let cmd = ShellConfig {
            command: cmd_cmd,
            working_directory: None,
            size: None,
            environment: cmd_env,
        };

        let mut ps_cmd: Vec<String> = Vec::new();
        ps_cmd.push(String::from_str("powershell.exe"));
        let mut ps_env: Vec<(String, String)> = Vec::new();
        ps_env.push((String::from_str("TERM"), String::from_str("xterm-256color")));
        let powershell = ShellConfig {
            command: ps_cmd,
            working_directory: None,
            size: None,
            environment: ps_env,
        };

        let mut shells: Vec<(String, ShellConfig)> = Vec::new();
        shells.push((String::from_str("bash"), bash));
        shells.push((String::from_str("cmd"), cmd));
        shells.push((String::from_str("powershell"), powershell));

        let r = TerminalConfig {
            default_shell_type: String::from_str("bash"),
            default_size: TerminalSize { columns: 80, rows: 24 },
            default_working_directory: String::from_str("."),
            session_timeout: 1800000,
            shells,
        };
        proof {
            reveal_strlit("TERM");
            reveal_strlit("PATH");
            reveal_strlit("bash");
            reveal_strlit("cmd");
            reveal_strlit("powershell");
            assert("TERM"@[0] == 'T');
            assert("PATH"@[0] == 'P');
            assert("bash"@.len() == 4);
            assert("cmd"@.len() == 3);
            assert("powershell"@.len() == 10);
            assert(r.shells@[0].1.environment@[0].0@ != r.shells@[0].1.environment@[1].0@);
            assert(r.shells@[0].0@ != r.shells@[1].0@);
            assert(r.shells@[0].0@ != r.shells@[2].0@);
            assert(r.shells@[1].0@ != r.shells@[2].0@);
        }
        r
    }
}

/// Loads a configuration: hands back the parsed one when a file was read
/// and parsed, and the stock configuration otherwise (no file given, the
/// file unreadable, or its contents rejected by the parser).
pub struct ConfigLoader;

impl ConfigLoader {
    pub fn new() -> (r: ConfigLoader) {
        ConfigLoader
    }

    /// `parsed` is the file's contents if a configuration file was found
    /// and understood; otherwise the stock configuration is used.
    pub fn load_config(&self, parsed: Option<TerminalConfig>) -> (r: TerminalConfig)
        ensures
            parsed matches Some(c) ==> r == c,
            parsed is None ==> is_default_config(r) && r.wf(),
    {
        match parsed {
            Some(c) => c,
            None => TerminalConfig::default(),
        }
    }
}

} // verus!
