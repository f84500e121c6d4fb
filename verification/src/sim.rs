//! The simulated terminal's command interpreter, specified over byte
//! sequences and implemented as a verified function.
//!
//! Input is processed line by line (split on line feeds). Each line is
//! trimmed of surrounding blanks and matched against a tiny fixed command
//! set: list directory, print working directory, echo text, exit, and help;
//! any other non-empty line yields a "command not found" reply. The reply to
//! every line is appended to one output, and an "exit" line requests the end
//! of the simulated process.

use vstd::prelude::*;
use vstd::slice::{slice_subrange, slice_to_vec};
use vstd::string::StringSliceAdditionalSpecFns;

verus! {

pub const LF: u8 = 10;

/// Bytes that are stripped from both ends of a command line: the ASCII
/// whitespace bytes (space, horizontal and vertical tab, form feed,
/// carriage return). The interpreter works on raw bytes, so multi-byte
/// whitespace is not stripped and arbitrary bytes pass through unchanged.
pub open spec fn is_blank(b: u8) -> bool {
    b == 32 || b == 9 || b == 11 || b == 12 || b == 13
}

pub open spec fn trim_start_bytes(s: Seq<u8>) -> Seq<u8>
    decreases s.len(),
{
    if s.len() > 0 && is_blank(s[0]) {
        trim_start_bytes(s.drop_first())
    } else {
        s
    }
}

pub open spec fn trim_end_bytes(s: Seq<u8>) -> Seq<u8>
    decreases s.len(),
{
    if s.len() > 0 && is_blank(s.last()) {
        trim_end_bytes(s.drop_last())
    } else {
        s
    }
}

/// A command line with surrounding blanks removed.
pub open spec fn trim_bytes(s: Seq<u8>) -> Seq<u8> {
    trim_end_bytes(trim_start_bytes(s))
}

/// The index of the first line feed in `s`, or `s.len()` if there is none.
pub open spec fn line_end(s: Seq<u8>) -> nat
    decreases s.len(),
{
    if s.len() == 0 {
        0
    } else if s[0] == LF {
        0
    } else {
        1 + line_end(s.drop_first())
    }
}

pub open spec fn crlf() -> Seq<u8> {
    "\r\n".spec_bytes()
}

pub open spec fn ls_reply() -> Seq<u8> {
    "Memory PTY Directory Contents:\r\n  README.md\r\n  Cargo.toml\r\n  src/\r\n".spec_bytes()
}

pub open spec fn exit_reply() -> Seq<u8> {
    "Exiting Memory PTY...\r\n".spec_bytes()
}

pub open spec fn help_reply() -> Seq<u8> {
    "Memory PTY Commands:\r\n  ls/dir - List directory contents\r\n  pwd/cd - Show current directory\r\n  echo - Echo text\r\n  exit - Exit PTY\r\n  help - Show this help\r\n".spec_bytes()
}

/// The reply that one trimmed-and-matched command line produces, where
/// `cwd` is the bytes of the simulated working directory.
pub open spec fn line_response(line: Seq<u8>, cwd: Seq<u8>) -> Seq<u8> {
    let t = trim_bytes(line);
    if t == "ls".spec_bytes() || t == "dir".spec_bytes() {
        ls_reply()
    } else if t == "pwd".spec_bytes() {
        cwd + crlf()
    } else if t == "echo".spec_bytes() {
        crlf()
    } else if t.len() > 5 && t.take(5) == "echo ".spec_bytes() {
        trim_bytes(t.skip(5)) + crlf()
    } else if t == "exit".spec_bytes() {
        exit_reply()
    } else if t == "help".spec_bytes() {
        help_reply()
    } else if t.len() == 0 {
        Seq::<u8>::empty()
    } else {
        "Command not found: ".spec_bytes() + t + crlf()
    }
}

/// Whether one line asks the simulated process to exit.
pub open spec fn line_exits(line: Seq<u8>) -> bool {
    trim_bytes(line) == "exit".spec_bytes()
}

/// The output that a whole chunk of input produces: the concatenation of
/// the replies to each of its lines.
pub open spec fn sim_output(input: Seq<u8>, cwd: Seq<u8>) -> Seq<u8>
    decreases input.len(),
{
    if input.len() == 0 {
        Seq::<u8>::empty()
    } else {
        let e = line_end(input);
        if e >= input.len() {
            line_response(input, cwd)
        } else {
            line_response(input.take(e as int), cwd) + sim_output(input.skip(e + 1 as int), cwd)
        }
    }
}

/// Whether any line of the input asks the simulated process to exit.
pub open spec fn sim_exits(input: Seq<u8>) -> bool
    decreases input.len(),
{
    if input.len() == 0 {
        false
    } else {
        let e = line_end(input);
        if e >= input.len() {
            line_exits(input)
        } else {
            line_exits(input.take(e as int)) || sim_exits(input.skip(e + 1 as int))
        }
    }
}

/// A position scanned to by "first index whose byte is LF, else the length"
/// is exactly `line_end`.
pub proof fn lemma_line_end_unique(s: Seq<u8>, k: int)
    requires
        0 <= k <= s.len(),
        forall|j: int| 0 <= j < k ==> s[j] != LF,
        k < s.len() ==> s[k] == LF,
    ensures
        line_end(s) == k,
    decreases s.len(),
{
    if s.len() == 0 {
    } else if s[0] == LF {
        assert(k == 0);
    } else {
        assert(k >= 1);
        assert forall|j: int| 0 <= j < k - 1 implies s.drop_first()[j] != LF by {
            assert(s.drop_first()[j] == s[j + 1]);
        }
        if k - 1 < s.drop_first().len() {
            assert(s.drop_first()[k - 1] == s[k]);
        }
        lemma_line_end_unique(s.drop_first(), k - 1);
    }
}

/// Dropping a scanned prefix of blanks is exactly `trim_start_bytes`.
proof fn lemma_trim_start_skip(s: Seq<u8>, k: int)
    requires
        0 <= k <= s.len(),
        forall|j: int| 0 <= j < k ==> is_blank(s[j]),
        k < s.len() ==> !is_blank(s[k]),
    ensures
        trim_start_bytes(s) == s.skip(k),
    decreases k,
{
    if k == 0 {
        assert(s.skip(0) =~= s);
    } else {
        assert(is_blank(s[0]));
        assert forall|j: int| 0 <= j < k - 1 implies is_blank(s.drop_first()[j]) by {
            assert(s.drop_first()[j] == s[j + 1]);
        }
        if k - 1 < s.drop_first().len() {
            assert(s.drop_first()[k - 1] == s[k]);
        }
        lemma_trim_start_skip(s.drop_first(), k - 1);
        assert(s.drop_first().skip(k - 1) =~= s.skip(k));
    }
}

/// Dropping a scanned suffix of blanks is exactly `trim_end_bytes`.
proof fn lemma_trim_end_take(s: Seq<u8>, k: int)
    requires
        0 <= k <= s.len(),
        forall|j: int| k <= j < s.len() ==> is_blank(s[j]),
        k > 0 ==> !is_blank(s[k - 1]),
    ensures
        trim_end_bytes(s) == s.take(k),
    decreases s.len() - k,
{
    if k == s.len() {
        if s.len() > 0 {
            assert(!is_blank(s.last()));
        }
        assert(s.take(k) =~= s);
    } else {
        assert(is_blank(s.last()));
        assert forall|j: int| k <= j < s.drop_last().len() implies is_blank(
            s.drop_last()[j],
        ) by {
            assert(s.drop_last()[j] == s[j]);
        }
        if k > 0 {
            assert(s.drop_last()[k - 1] == s[k - 1]);
        }
        lemma_trim_end_take(s.drop_last(), k);
        assert(s.drop_last().take(k) =~= s.take(k));
    }
}

fn is_blank_byte(b: u8) -> (r: bool)
    ensures
        r == is_blank(b),
{
    b == 32 || b == 9 || b == 11 || b == 12 || b == 13
}

/// Byte-for-byte equality of two slices.
pub fn bytes_eq(a: &[u8], b: &[u8]) -> (r: bool)
    ensures
        r == (a@ == b@),
{
    if a.len() != b.len() {
        return false;
    }
    let mut i: usize = 0;
    while i < a.len()
        invariant
            i <= a@.len(),
            a@.len() == b@.len(),
            forall|j: int| 0 <= j < i ==> a@[j] == b@[j],
        decreases a@.len() - i,
    {
        if a[i] != b[i] {
            return false;
        }
        i += 1;
    }
    proof {
        assert(a@ =~= b@);
    }
    true
}

/// Append a byte slice to a growing output buffer.
pub fn push_bytes(out: &mut Vec<u8>, b: &[u8])
    ensures
        final(out)@ == old(out)@ + b@,
{
    let mut i: usize = 0;
    while i < b.len()
        invariant
            i <= b@.len(),
            out@ == old(out)@ + b@.take(i as int),
        decreases b@.len() - i,
    {
        out.push(b[i]);
        proof {
            assert(old(out)@ + b@.take(i as int) + seq![b@[i as int]] =~= old(out)@ + b@.take(
                i + 1,
            ));
        }
        i += 1;
    }
    proof {
        assert(b@.take(b@.len() as int) =~= b@);
    }
}

/// Strip blanks from both ends of a line.
fn trim(line: &[u8]) -> (r: Vec<u8>)
    ensures
        r@ == trim_bytes(line@),
{
    let mut lo: usize = 0;
    while lo < line.len() && is_blank_byte(line[lo])
        invariant
            lo <= line@.len(),
            forall|j: int| 0 <= j < lo ==> is_blank(line@[j]),
        decreases line@.len() - lo,
    {
        lo += 1;
    }
    proof {
        lemma_trim_start_skip(line@, lo as int);
    }
    let mut hi: usize = line.len();
    while hi > lo && is_blank_byte(line[hi - 1])
        invariant
            lo <= hi <= line@.len(),
            forall|j: int| hi <= j < line@.len() ==> is_blank(line@[j]),
        decreases hi,
    {
        hi -= 1;
    }
    proof {
        let t = line@.skip(lo as int);
        assert forall|j: int| hi - lo <= j < t.len() implies is_blank(t[j]) by {
            assert(t[j] == line@[j + lo]);
        }
        if hi > lo {
            assert(t[hi - lo - 1] == line@[hi - 1]);
        }
        lemma_trim_end_take(t, hi - lo);
        assert(t.take(hi - lo) =~= line@.subrange(lo as int, hi as int));
    }
    slice_to_vec(slice_subrange(line, lo, hi))
}

/// Append the reply for one line to `out` and report whether the line asks
/// the simulated process to exit.
fn line_reply(line: &[u8], cwd: &[u8], out: &mut Vec<u8>) -> (exits: bool)
    ensures
        final(out)@ == old(out)@ + line_response(line@, cwd@),
        exits == line_exits(line@),
{
    let t = trim(line);
    let ts = t.as_slice();
    let exits = bytes_eq(ts, "exit".as_bytes());
    if bytes_eq(ts, "ls".as_bytes()) || bytes_eq(ts, "dir".as_bytes()) {
        push_bytes(out, "Memory PTY Directory Contents:\r\n  README.md\r\n  Cargo.toml\r\n  src/\r\n".as_bytes());
    } else if bytes_eq(ts, "pwd".as_bytes()) {
        push_bytes(out, cwd);
        push_bytes(out, "\r\n".as_bytes());
        proof {
            assert(old(out)@ + cwd@ + crlf() =~= old(out)@ + (cwd@ + crlf()));
        }
    } else if bytes_eq(ts, "echo".as_bytes()) {
        push_bytes(out, "\r\n".as_bytes());
    } else if t.len() > 5 && bytes_eq(slice_subrange(ts, 0, 5), "echo ".as_bytes()) {
        proof {
            assert(t@.subrange(0, 5) =~= t@.take(5));
        }
        let rest = trim(slice_subrange(ts, 5, t.len()));
        proof {
            assert(t@.subrange(5, t@.len() as int) =~= t@.skip(5));
        }
        push_bytes(out, rest.as_slice());
        push_bytes(out, "\r\n".as_bytes());
        proof {
            assert(old(out)@ + trim_bytes(t@.skip(5)) + crlf() =~= old(out)@ + (trim_bytes(
                t@.skip(5),
            ) + crlf()));
        }
    } else if exits {
        push_bytes(out, "Exiting Memory PTY...\r\n".as_bytes());
    } else if bytes_eq(ts, "help".as_bytes()) {
        push_bytes(out, "Memory PTY Commands:\r\n  ls/dir - List directory contents\r\n  pwd/cd - Show current directory\r\n  echo - Echo text\r\n  exit - Exit PTY\r\n  help - Show this help\r\n".as_bytes());
    } else if t.len() == 0 {
    } else {
        push_bytes(out, "Command not found: ".as_bytes());
        push_bytes(out, ts);
        push_bytes(out, "\r\n".as_bytes());
        proof {
            assert(old(out)@ + "Command not found: ".spec_bytes() + t@ + crlf() =~= old(out)@ + (
            "Command not found: ".spec_bytes() + t@ + crlf()));
        }
    }
    exits
}

/// Run a chunk of input through the simulated interpreter: returns the
/// produced output and whether any line asked the process to exit.
pub fn simulate_input(input: &[u8], cwd: &[u8]) -> (r: (Vec<u8>, bool))
    ensures
        r.0@ == sim_output(input@, cwd@),
        r.1 == sim_exits(input@),
{
    let ghost full = input@;
    let mut out: Vec<u8> = Vec::new();
    let mut exits = false;
    let mut pos: usize = 0;
    proof {
        assert(full.skip(0) =~= full);
        assert(out@ + sim_output(full, cwd@) =~= sim_output(full, cwd@));
    }
    while pos < input.len()
        invariant
            pos <= input@.len(),
            sim_output(full, cwd@) == out@ + sim_output(full.skip(pos as int), cwd@),
            sim_exits(full) == (exits || sim_exits(full.skip(pos as int))),
            full == input@,
        decreases input@.len() - pos,
    {
        let ghost rest = full.skip(pos as int);
        let mut e: usize = pos;
        while e < input.len() && input[e] != LF
            invariant
                pos <= e <= input@.len(),
                forall|j: int| pos <= j < e ==> input@[j] != LF,
                full == input@,
            decreases input@.len() - e,
        {
            e += 1;
        }
        proof {
            assert forall|j: int| 0 <= j < e - pos implies rest[j] != LF by {
                assert(rest[j] == full[j + pos]);
            }
            if (e as int) - (pos as int) < rest.len() {
                assert(rest[e - pos] == full[e as int]);
            }
            lemma_line_end_unique(rest, e - pos);
        }
        let line = slice_subrange(input, pos, e);
        proof {
            assert(line@ =~= rest.take(e - pos));
        }
        let exit_line = line_reply(line, cwd, &mut out);
        if exit_line {
            exits = true;
        }
        if e < input.len() {
            proof {
                assert(rest.skip((e - pos) + 1) =~= full.skip(e + 1));
                assert((out@ + line_response(line@, cwd@)) + sim_output(full.skip(e + 1), cwd@)
                    =~= out@ + (line_response(line@, cwd@) + sim_output(full.skip(e + 1), cwd@)));
            }
            pos = e + 1;
        } else {
            proof {
                assert(rest.take(e - pos) =~= rest);
                assert(full.skip(full.len() as int) =~= Seq::<u8>::empty());
                assert(out@ + line_response(rest, cwd@) + sim_output(
                    full.skip(full.len() as int),
                    cwd@,
                ) =~= out@ + line_response(rest, cwd@));
            }
            pos = e;
        }
    }
    proof {
        assert(full.skip(full.len() as int) =~= Seq::<u8>::empty());
        assert(out@ + Seq::<u8>::empty() =~= out@);
    }
    (out, exits)
}

} // verus!
