//! The shell tools: run any command, or run one of a list of read-only
//! commands.

use vstd::prelude::*;
use vstd::utf8::*;
use vstd::string::StringSliceAdditionalSpecFns;
use crate::mcp::{ToolInput, ToolRegistry};
use crate::text::{chars_of, occurs_at, string_of_range, white_space, is_white_space, lemma_encode_concat, lemma_byte_prefix, lemma_last_cut, last_cut, last_cut_at, byte_len, byte_count, byte_prefix, cut_fits, signed_decimal, starts_with, trim_start, str_trim_start, str_starts_with, i32_to_decimal};
use crate::tools::{
    Tool, ToolRequest, RequestView, required, require_str, outcome_view, registers, define_all,
    shell_tools, opt_view, planned,
};

verus! {

broadcast use vstd::utf8::encode_utf8_decode_utf8, vstd::utf8::encode_utf8_valid_utf8;

/// Registers the shell tools.
pub fn register(registry: &mut ToolRegistry)
    ensures
        registers(old(registry).entries(), final(registry).entries(), shell_tools()),
{
    let mut tools: Vec<Tool> = Vec::new();
    tools.push(Tool::ShellRun);
    tools.push(Tool::ShellRunSafe);
    assert(tools@ =~= shell_tools());
    define_all(registry, &tools);
}

/// The read-only commands that `shell.run_safe` runs, as the words they are
/// called by.
pub open spec fn safe_prefixes() -> Seq<Seq<char>> {
    seq![
        "ls"@, "cat"@, "head"@, "tail"@, "git status"@, "git log"@, "git diff"@, "pwd"@,
        "whoami"@, "df"@, "du"@, "uname"@, "date"@, "which"@, "wc"@, "file"@, "echo"@, "env"@,
        "printenv"@,
    ]
}

/// The position of `env` in the safe list: with arguments it runs another
/// command, so it is safe only alone.
pub open spec fn env_index() -> int {
    17
}

/// The characters with which the shell chains, redirects, substitutes or
/// starts other commands.
pub open spec fn is_shell_metachar(c: char) -> bool {
    c == ';' || c == '&' || c == '|' || c == '<' || c == '>' || c == '`' || c == '$' || c == '('
        || c == ')' || c == '\n' || c == '\r'
}

/// `t` calls the command `p`: it is `p`, or `p` followed by white space.
pub open spec fn calls(t: Seq<char>, p: Seq<char>) -> bool {
    starts_with(t, p) && (t.len() == p.len() || is_white_space(t[p.len() as int]))
}

/// `t` calls the safe command at position `i`, with arguments only where
/// that command reads them as its own.
pub open spec fn calls_safe(t: Seq<char>, i: int) -> bool {
    &&& calls(t, safe_prefixes()[i])
    &&& i == env_index() ==> trim_start(t.skip(safe_prefixes()[i].len() as int)).len() == 0
}

/// A command counts as safe when it holds no shell metacharacter and, after
/// its leading white space, calls one of the safe commands.
pub open spec fn is_safe_command(command: Seq<char>) -> bool {
    &&& forall|k: int| 0 <= k < command.len() ==> !is_shell_metachar(#[trigger] command[k])
    &&& exists|i: int| 0 <= i < safe_prefixes().len() && #[trigger] calls_safe(trim_start(command), i)
}

fn safe_prefix(i: usize) -> (p: &'static str)
    requires
        i < 19,
    ensures
        p@ == safe_prefixes()[i as int],
{
    match i {
        0 => "ls",
        1 => "cat",
        2 => "head",
        3 => "tail",
        4 => "git status",
        5 => "git log",
        6 => "git diff",
        7 => "pwd",
        8 => "whoami",
        9 => "df",
        10 => "du",
        11 => "uname",
        12 => "date",
        13 => "which",
        14 => "wc",
        15 => "file",
        16 => "echo",
        17 => "env",
        _ => "printenv",
    }
}

fn shell_metachar(c: char) -> (b: bool)
    ensures
        b == is_shell_metachar(c),
{
    c == ';' || c == '&' || c == '|' || c == '<' || c == '>' || c == '`' || c == '$' || c == '('
        || c == ')' || c == '\n' || c == '\r'
}

/// Whether `t` calls the safe command at position `i`.
fn calls_safe_at(t: &Vec<char>, i: usize) -> (b: bool)
    requires
        i < 19,
    ensures
        b == calls_safe(t@, i as int),
{
    let pv = chars_of(safe_prefix(i));
    if pv.len() > t.len() {
        return false;
    }
    assert(t@.skip(0) =~= t@);
    if !occurs_at(t, 0, &pv) {
        return false;
    }
    let n = pv.len();
    if n < t.len() && !white_space(t[n]) {
        return false;
    }
    if i == 17 {
        let rest = string_of_range(t, n, t.len());
        assert(t@.subrange(n as int, t@.len() as int) =~= t@.skip(n as int));
        let tail = str_trim_start(rest.as_str());
        return chars_of(tail.as_str()).len() == 0;
    }
    true
}

/// Whether `shell.run_safe` runs `command`.
pub fn is_safe(command: &str) -> (b: bool)
    ensures
        b == is_safe_command(command@),
{
    let all = chars_of(command);
    let mut k: usize = 0;
    while k < all.len()
        invariant
            all@ == command@,
            k <= all@.len(),
            forall|j: int| 0 <= j < k ==> !is_shell_metachar(#[trigger] command@[j]),
        decreases all.len() - k,
    {
        if shell_metachar(all[k]) {
            return false;
        }
        k = k + 1;
    }
    let trimmed = str_trim_start(command);
    let t = chars_of(trimmed.as_str());
    let mut i: usize = 0;
    while i < 19
        invariant
            i <= 19,
            t@ == trim_start(command@),
            forall|j: int| 0 <= j < command@.len() ==> !is_shell_metachar(#[trigger] command@[j]),
            forall|j: int| 0 <= j < i ==> !#[trigger] calls_safe(t@, j),
        decreases 19 - i,
    {
        if calls_safe_at(&t, i) {
            return true;
        }
        i = i + 1;
    }
    false
}

/// The refusal of a command that is not on the safe list.
pub open spec fn unsafe_refusal(command: Seq<char>) -> Seq<char> {
    "Command '"@ + command + "' is not in the safe list. Use shell.run for arbitrary commands."@
}

/// What a shell tool asks for, given its input.
pub open spec fn plan_spec(tool: Tool, input: ToolInput) -> Result<RequestView, Seq<char>> {
    match required(input, "command"@) {
        Err(e) => Err(e),
        Ok(command) => if tool == Tool::ShellRun {
            Ok(RequestView::RunShell { command, cwd: input.str_field("cwd"@) })
        } else if !is_safe_command(command) {
            Err(unsafe_refusal(command))
        } else {
            Ok(RequestView::RunSafeShell { command, cwd: input.str_field("cwd"@) })
        },
    }
}

/// Checks the input of a shell tool and says what it asks for.
pub fn plan(tool: Tool, input: &ToolInput) -> (r: Result<ToolRequest, String>)
    requires
        tool == Tool::ShellRun || tool == Tool::ShellRunSafe,
    ensures
        outcome_view(r) == plan_spec(tool, *input),
{
    let command = require_str(input, "command")?;
    if tool == Tool::ShellRun {
        let cwd = input.get_str("cwd");
        assert(opt_view(cwd) == input.str_field("cwd"@));
        Ok(ToolRequest::RunShell { command, cwd })
    } else if !is_safe(command.as_str()) {
        let mut e = String::from_str("Command '");
        e.append(command.as_str());
        e.append("' is not in the safe list. Use shell.run for arbitrary commands.");
        Err(e)
    } else {
        let cwd = input.get_str("cwd");
        assert(opt_view(cwd) == input.str_field("cwd"@));
        Ok(ToolRequest::RunSafeShell { command, cwd })
    }
}

/// What a finished command left: its exit code (none when a signal ended
/// it) and its output, decoded lossily.
#[derive(Debug)]
pub struct ProcessOutput {
    pub code: Option<i32>,
    pub stdout: String,
    pub stderr: String,
}

/// The report of `shell.run`: the exit code (-1 when there is none), then the
/// standard output and the standard error, each only when not empty.
pub open spec fn report(code: Option<i32>, stdout: Seq<char>, stderr: Seq<char>) -> Seq<char> {
    let c: int = match code {
        Some(c) => c as int,
        None => -1,
    };
    let head = "Exit code: "@ + signed_decimal(c) + "\n"@;
    let out = if stdout.len() > 0 {
        "STDOUT:\n"@ + stdout + "\n"@
    } else {
        Seq::<char>::empty()
    };
    let err = if stderr.len() > 0 {
        "STDERR:\n"@ + stderr + "\n"@
    } else {
        Seq::<char>::empty()
    };
    head + out + err
}

/// The largest report `shell.run` returns whole, in bytes.
pub open spec fn report_limit() -> nat {
    50000
}

/// A report longer than 50 000 bytes, cut to the whole characters that fit in
/// 50 000 bytes and marked.
pub open spec fn truncated(report: Seq<char>) -> Seq<char> {
    if byte_len(report) > report_limit() {
        byte_prefix(report, last_cut(report, report_limit())) + "\n...[truncated]"@
    } else {
        report
    }
}

/// The report of `shell.run` on a finished command, uncut.
pub fn run_report(output: &ProcessOutput) -> (r: String)
    ensures
        r@ == report(output.code, output.stdout@, output.stderr@),
{
    let code: i32 = match output.code {
        Some(c) => c,
        None => -1,
    };
    let mut r = String::from_str("Exit code: ");
    let digits = i32_to_decimal(code);
    r.append(digits.as_str());
    r.append("\n");
    if !output.stdout.as_str().is_empty() {
        r.append("STDOUT:\n");
        r.append(output.stdout.as_str());
        r.append("\n");
    }
    if !output.stderr.as_str().is_empty() {
        r.append("STDERR:\n");
        r.append(output.stderr.as_str());
        r.append("\n");
    }
    r
}

/// Cuts a report longer than 50 000 bytes to the whole characters that fit
/// in 50 000 bytes, and marks it.
pub fn truncate_report(report: String) -> (r: String)
    ensures
        r@ == truncated(report@),
{
    if byte_count(report.as_str()) > 50000 {
        let cut = last_cut_at(report.as_str(), 50000);
        proof {
            lemma_last_cut(report@, report_limit());
        }
        let (head, _tail) = report.as_str().split_at(cut);
        let mut r = head.to_owned();
        proof {
            let bytes = encode_utf8(report@);
            assert(head.spec_bytes() =~= bytes.take(cut as int));
            assert(head@ == decode_utf8(encode_utf8(head@)));
        }
        r.append("\n...[truncated]");
        r
    } else {
        report
    }
}

/// `Failed to run: <error>`.
pub open spec fn run_failure(error: Seq<char>) -> Seq<char> {
    "Failed to run: "@ + error
}

fn run_failure_text(e: &str) -> (m: String)
    ensures
        m@ == run_failure(e@),
{
    let mut m = String::from_str("Failed to run: ");
    m.append(e);
    m
}

/// The result of `shell.run`, given what running the command gave.
pub fn run_result(ran: Result<ProcessOutput, String>) -> (r: Result<String, String>)
    ensures
        match ran {
            Ok(o) => r matches Ok(s) && s@ == truncated(report(o.code, o.stdout@, o.stderr@)),
            Err(e) => r matches Err(m) && m@ == run_failure(e@),
        },
{
    match ran {
        Err(e) => Err(run_failure_text(e.as_str())),
        Ok(o) => Ok(truncate_report(run_report(&o))),
    }
}

/// The result of `shell.run_safe`, given what running the command gave: its
/// standard output alone.
pub fn run_safe_result(ran: Result<ProcessOutput, String>) -> (r: Result<String, String>)
    ensures
        match ran {
            Ok(o) => r matches Ok(s) && s@ == o.stdout@,
            Err(e) => r matches Err(m) && m@ == run_failure(e@),
        },
{
    match ran {
        Err(e) => Err(run_failure_text(e.as_str())),
        Ok(o) => Ok(o.stdout),
    }
}


/// A long report keeps exactly its bytes up to the last character boundary
/// within 50 000 bytes and gains the mark; a short one is returned whole.
/// Either way it never exceeds 50 000 bytes and the mark.
pub proof fn lemma_truncated_report(report: Seq<char>)
    ensures
        byte_len(report) <= report_limit() ==> truncated(report) == report,
        byte_len(report) > report_limit() ==> {
            let cut = last_cut(report, report_limit());
            &&& cut <= report_limit()
            &&& cut_fits(report, cut)
            &&& encode_utf8(truncated(report)) == encode_utf8(report).take(cut as int)
                + encode_utf8("\n...[truncated]"@)
        },
        byte_len(truncated(report)) <= report_limit() + byte_len("\n...[truncated]"@),
{
    if byte_len(report) > report_limit() {
        let cut = last_cut(report, report_limit());
        lemma_last_cut(report, report_limit());
        lemma_byte_prefix(report, cut);
        lemma_encode_concat(byte_prefix(report, cut), "\n...[truncated]"@);
    }
}


/// `shell.run_safe` never asks to run a command that is not on the safe list:
/// such a call is refused with the command named.
pub proof fn lemma_unsafe_command_refused(input: ToolInput, command: Seq<char>)
    requires
        input.str_field("command"@) == Some(command),
        !is_safe_command(command),
    ensures
        plan_spec(Tool::ShellRunSafe, input) == Err::<RequestView, Seq<char>>(
            unsafe_refusal(command),
        ),
{
}

/// `shell.run` runs the input's `command` field in the directory its `cwd`
/// field names: there exactly when the input has one.
pub proof fn lemma_run_request(input: ToolInput, command: Seq<char>)
    requires
        input.str_field("command"@) == Some(command),
    ensures
        planned(Tool::ShellRun, input) == Ok::<RequestView, Seq<char>>(
            RequestView::RunShell { command, cwd: input.str_field("cwd"@) },
        ),
{
}

/// `shell.run_safe` runs a command of the safe list as it was given, in the
/// directory the input's `cwd` field names: there exactly when the input has
/// one.
pub proof fn lemma_safe_command_runs_in_cwd(input: ToolInput, command: Seq<char>)
    requires
        input.str_field("command"@) == Some(command),
        is_safe_command(command),
    ensures
        planned(Tool::ShellRunSafe, input) == Ok::<RequestView, Seq<char>>(
            RequestView::RunSafeShell { command, cwd: input.str_field("cwd"@) },
        ),
{
}

} // verus!
