//! The tools the daemon offers: their definitions, how a call's input becomes
//! a checked request for the machine, and how the machine's answer becomes
//! the call's result.

pub mod desktop;
pub mod filesystem;
pub mod shell;
pub mod system;

use vstd::prelude::*;
use crate::host::{expand_tilde, system_home_dir, tilde_outcome, under_home};
use crate::mcp::{ToolDefinition, ToolInput, ToolRegistry, RegisteredTool};

verus! {

/// The handler of a tool.
#[derive(Debug, Clone, Copy, PartialEq, Eq, Structural)]
pub enum Tool {
    FsList,
    FsRead,
    FsWrite,
    FsDelete,
    FsMove,
    FsSearch,
    ShellRun,
    ShellRunSafe,
    SystemInfo,
    SystemClipboard,
    SystemSetClipboard,
    DesktopOpenApp,
    DesktopCloseApp,
    DesktopNotify,
}

/// The name each tool is registered under.
pub open spec fn tool_name(t: Tool) -> Seq<char> {
    match t {
        Tool::FsList => "fs.list"@,
        Tool::FsRead => "fs.read"@,
        Tool::FsWrite => "fs.write"@,
        Tool::FsDelete => "fs.delete"@,
        Tool::FsMove => "fs.move"@,
        Tool::FsSearch => "fs.search"@,
        Tool::ShellRun => "shell.run"@,
        Tool::ShellRunSafe => "shell.run_safe"@,
        Tool::SystemInfo => "system.info"@,
        Tool::SystemClipboard => "system.clipboard"@,
        Tool::SystemSetClipboard => "system.set_clipboard"@,
        Tool::DesktopOpenApp => "desktop.open_app"@,
        Tool::DesktopCloseApp => "desktop.close_app"@,
        Tool::DesktopNotify => "desktop.notify"@,
    }
}

/// The work a tool call asks of the machine, with its arguments checked.
#[derive(Debug)]
pub enum ToolRequest {
    /// List the directory `path`, and its sub-directories when `recursive`.
    ListDir { path: String, recursive: bool },
    /// Read the file `path`, keeping at most `max_bytes` bytes of it.
    ReadFile { path: String, max_bytes: u64 },
    /// Write `content` to the file `path`.
    WriteFile { path: String, content: String },
    /// Delete the file or directory `path`.
    Delete { path: String },
    /// Move `from` to `to`.
    Move { from: String, to: String },
    /// Find the paths that match the glob pattern `pattern` inside `dir`.
    Search { dir: String, pattern: String },
    /// Run `command` in the system shell, in `cwd` when given.
    RunShell { command: String, cwd: Option<String> },
    /// Run the read-only `command` in the system shell, in `cwd` when given.
    RunSafeShell { command: String, cwd: Option<String> },
    /// Tell the operating system, host name and home directory.
    SystemInfo,
    /// Read the clipboard text.
    ReadClipboard,
    /// Put `text` on the clipboard.
    WriteClipboard { text: String },
    /// Open the application or file `target`.
    OpenApp { target: String },
    /// Quit the application `name`.
    CloseApp { name: String },
    /// Nothing to do on the machine: the call's result is `text`.
    Reply { text: String },
}

/// A request by the characters of its arguments.
pub enum RequestView {
    ListDir { path: Seq<char>, recursive: bool },
    ReadFile { path: Seq<char>, max_bytes: u64 },
    WriteFile { path: Seq<char>, content: Seq<char> },
    Delete { path: Seq<char> },
    Move { from: Seq<char>, to: Seq<char> },
    Search { dir: Seq<char>, pattern: Seq<char> },
    RunShell { command: Seq<char>, cwd: Option<Seq<char>> },
    RunSafeShell { command: Seq<char>, cwd: Option<Seq<char>> },
    SystemInfo,
    ReadClipboard,
    WriteClipboard { text: Seq<char> },
    OpenApp { target: Seq<char> },
    CloseApp { name: Seq<char> },
    Reply { text: Seq<char> },
}

/// An optional string by its characters.
pub open spec fn opt_view(o: Option<String>) -> Option<Seq<char>> {
    match o {
        Some(s) => Some(s@),
        None => None,
    }
}

impl View for ToolRequest {
    type V = RequestView;

    open spec fn view(&self) -> RequestView {
        match self {
            ToolRequest::ListDir { path, recursive } => RequestView::ListDir {
                path: path@,
                recursive: *recursive,
            },
            ToolRequest::ReadFile { path, max_bytes } => RequestView::ReadFile {
                path: path@,
                max_bytes: *max_bytes,
            },
            ToolRequest::WriteFile { path, content } => RequestView::WriteFile {
                path: path@,
                content: content@,
            },
            ToolRequest::Delete { path } => RequestView::Delete { path: path@ },
            ToolRequest::Move { from, to } => RequestView::Move { from: from@, to: to@ },
            ToolRequest::Search { dir, pattern } => RequestView::Search {
                dir: dir@,
                pattern: pattern@,
            },
            ToolRequest::RunShell { command, cwd } => RequestView::RunShell {
                command: command@,
                cwd: opt_view(*cwd),
            },
            ToolRequest::RunSafeShell { command, cwd } => RequestView::RunSafeShell {
                command: command@,
                cwd: opt_view(*cwd),
            },
            ToolRequest::SystemInfo => RequestView::SystemInfo,
            ToolRequest::ReadClipboard => RequestView::ReadClipboard,
            ToolRequest::WriteClipboard { text } => RequestView::WriteClipboard { text: text@ },
            ToolRequest::OpenApp { target } => RequestView::OpenApp { target: target@ },
            ToolRequest::CloseApp { name } => RequestView::CloseApp { name: name@ },
            ToolRequest::Reply { text } => RequestView::Reply { text: text@ },
        }
    }
}

/// A planning outcome by the characters of its request or error.
pub open spec fn outcome_view(r: Result<ToolRequest, String>) -> Result<RequestView, Seq<char>> {
    match r {
        Ok(q) => Ok(q@),
        Err(e) => Err(e@),
    }
}

/// A string field that the tool cannot do without: its value, or the error
/// `Missing <key>`.
pub open spec fn required(input: ToolInput, key: Seq<char>) -> Result<Seq<char>, Seq<char>> {
    match input.str_field(key) {
        Some(s) => Ok(s),
        None => Err("Missing "@ + key),
    }
}

/// Reads the string field `key`, or tells that it is missing.
pub fn require_str(input: &ToolInput, key: &str) -> (r: Result<String, String>)
    ensures
        match r {
            Ok(s) => required(*input, key@) == Ok::<Seq<char>, Seq<char>>(s@),
            Err(e) => required(*input, key@) == Err::<Seq<char>, Seq<char>>(e@),
        },
{
    match input.get_str(key) {
        Some(s) => Ok(s),
        None => {
            let mut e = String::from_str("Missing ");
            e.append(key);
            Err(e)
        },
    }
}


/// The safety class of a tool that only reads.
pub const READ: &'static str = "read";

/// The safety class of a tool that changes things.
pub const WRITE: &'static str = "write";

/// The safety class of a tool that may destroy data.
pub const DESTRUCTIVE: &'static str = "destructive";

/// What `fs.list` does.
pub const FS_LIST_DESCRIPTION: &'static str = "List files and directories at a path with metadata (size, modified date)";

/// The JSON schema of the input of `fs.list`.
pub const FS_LIST_SCHEMA: &'static str = r#"{"type":"object","properties":{"path":{"type":"string","description":"Directory path to list"},"recursive":{"type":"boolean","description":"List recursively","default":false}},"required":["path"]}"#;

/// What `fs.read` does.
pub const FS_READ_DESCRIPTION: &'static str = "Read the contents of a file";

/// The JSON schema of the input of `fs.read`.
pub const FS_READ_SCHEMA: &'static str = r#"{"type":"object","properties":{"path":{"type":"string","description":"File path to read"},"max_bytes":{"type":"integer","description":"Max bytes to read (default 100000)","default":100000}},"required":["path"]}"#;

/// What `fs.write` does.
pub const FS_WRITE_DESCRIPTION: &'static str = "Write content to a file (creates or overwrites)";

/// The JSON schema of the input of `fs.write`.
pub const FS_WRITE_SCHEMA: &'static str = r#"{"type":"object","properties":{"path":{"type":"string","description":"File path to write"},"content":{"type":"string","description":"Content to write"}},"required":["path","content"]}"#;

/// What `fs.delete` does.
pub const FS_DELETE_DESCRIPTION: &'static str = "Delete a file or directory";

/// The JSON schema of the input of `fs.delete`.
pub const FS_DELETE_SCHEMA: &'static str = r#"{"type":"object","properties":{"path":{"type":"string","description":"Path to delete"}},"required":["path"]}"#;

/// What `fs.move` does.
pub const FS_MOVE_DESCRIPTION: &'static str = "Move or rename a file or directory";

/// The JSON schema of the input of `fs.move`.
pub const FS_MOVE_SCHEMA: &'static str = r#"{"type":"object","properties":{"from":{"type":"string","description":"Source path"},"to":{"type":"string","description":"Destination path"}},"required":["from","to"]}"#;

/// What `fs.search` does.
pub const FS_SEARCH_DESCRIPTION: &'static str = "Search for files by glob pattern in a directory";

/// The JSON schema of the input of `fs.search`.
pub const FS_SEARCH_SCHEMA: &'static str = r#"{"type":"object","properties":{"path":{"type":"string","description":"Directory to search in"},"pattern":{"type":"string","description":"Glob pattern (e.g., *.txt)"}},"required":["path","pattern"]}"#;

/// What `shell.run` does.
pub const SHELL_RUN_DESCRIPTION: &'static str = "Execute a shell command and return its output (stdout, stderr, exit code)";

/// The JSON schema of the input of `shell.run`.
pub const SHELL_RUN_SCHEMA: &'static str = r#"{"type":"object","properties":{"command":{"type":"string","description":"Shell command to execute"},"cwd":{"type":"string","description":"Working directory (optional)"}},"required":["command"]}"#;

/// What `shell.run_safe` does.
pub const SHELL_RUN_SAFE_DESCRIPTION: &'static str = "Run a safe, read-only shell command (ls, cat, head, tail, git status, git log, git diff, pwd, whoami, df, du, uname, date, which, wc, file, echo, env, printenv)";

/// The JSON schema of the input of `shell.run_safe`.
pub const SHELL_RUN_SAFE_SCHEMA: &'static str = r#"{"type":"object","properties":{"command":{"type":"string","description":"Safe shell command to execute"},"cwd":{"type":"string","description":"Working directory (optional)"}},"required":["command"]}"#;

/// What `system.info` does.
pub const SYSTEM_INFO_DESCRIPTION: &'static str = "Return OS name, hostname, and home directory";

/// The JSON schema of the input of `system.info`.
pub const SYSTEM_INFO_SCHEMA: &'static str = r#"{"type":"object","properties":{}}"#;

/// What `system.clipboard` does.
pub const SYSTEM_CLIPBOARD_DESCRIPTION: &'static str = "Read the current clipboard text";

/// The JSON schema of the input of `system.clipboard`.
pub const SYSTEM_CLIPBOARD_SCHEMA: &'static str = r#"{"type":"object","properties":{}}"#;

/// What `system.set_clipboard` does.
pub const SYSTEM_SET_CLIPBOARD_DESCRIPTION: &'static str = "Set the clipboard text";

/// The JSON schema of the input of `system.set_clipboard`.
pub const SYSTEM_SET_CLIPBOARD_SCHEMA: &'static str = r#"{"type":"object","properties":{"text":{"type":"string","description":"Text to copy to clipboard"}},"required":["text"]}"#;

/// What `desktop.open_app` does.
pub const DESKTOP_OPEN_APP_DESCRIPTION: &'static str = "Open an application by name or file path";

/// The JSON schema of the input of `desktop.open_app`.
pub const DESKTOP_OPEN_APP_SCHEMA: &'static str = r#"{"type":"object","properties":{"app":{"type":"string","description":"Application name or path to open (e.g. 'Safari', '/Applications/TextEdit.app')"}},"required":["app"]}"#;

/// What `desktop.close_app` does.
pub const DESKTOP_CLOSE_APP_DESCRIPTION: &'static str = "Quit an application by name (graceful AppleScript on macOS, killall fallback)";

/// The JSON schema of the input of `desktop.close_app`.
pub const DESKTOP_CLOSE_APP_SCHEMA: &'static str = r#"{"type":"object","properties":{"app":{"type":"string","description":"Application name (e.g. 'Zed', 'Safari')"}},"required":["app"]}"#;

/// What `desktop.notify` does.
pub const DESKTOP_NOTIFY_DESCRIPTION: &'static str = "Show a desktop notification with a title and message";

/// The JSON schema of the input of `desktop.notify`.
pub const DESKTOP_NOTIFY_SCHEMA: &'static str = r#"{"type":"object","properties":{"title":{"type":"string","description":"Notification title"},"message":{"type":"string","description":"Notification body text"}},"required":["title","message"]}"#;

/// What each tool does.
pub open spec fn tool_description(t: Tool) -> Seq<char> {
    match t {
        Tool::FsList => FS_LIST_DESCRIPTION@,
        Tool::FsRead => FS_READ_DESCRIPTION@,
        Tool::FsWrite => FS_WRITE_DESCRIPTION@,
        Tool::FsDelete => FS_DELETE_DESCRIPTION@,
        Tool::FsMove => FS_MOVE_DESCRIPTION@,
        Tool::FsSearch => FS_SEARCH_DESCRIPTION@,
        Tool::ShellRun => SHELL_RUN_DESCRIPTION@,
        Tool::ShellRunSafe => SHELL_RUN_SAFE_DESCRIPTION@,
        Tool::SystemInfo => SYSTEM_INFO_DESCRIPTION@,
        Tool::SystemClipboard => SYSTEM_CLIPBOARD_DESCRIPTION@,
        Tool::SystemSetClipboard => SYSTEM_SET_CLIPBOARD_DESCRIPTION@,
        Tool::DesktopOpenApp => DESKTOP_OPEN_APP_DESCRIPTION@,
        Tool::DesktopCloseApp => DESKTOP_CLOSE_APP_DESCRIPTION@,
        Tool::DesktopNotify => DESKTOP_NOTIFY_DESCRIPTION@,
    }
}

/// The JSON schema of each tool's input, as JSON text.
pub open spec fn tool_schema(t: Tool) -> Seq<char> {
    match t {
        Tool::FsList => FS_LIST_SCHEMA@,
        Tool::FsRead => FS_READ_SCHEMA@,
        Tool::FsWrite => FS_WRITE_SCHEMA@,
        Tool::FsDelete => FS_DELETE_SCHEMA@,
        Tool::FsMove => FS_MOVE_SCHEMA@,
        Tool::FsSearch => FS_SEARCH_SCHEMA@,
        Tool::ShellRun => SHELL_RUN_SCHEMA@,
        Tool::ShellRunSafe => SHELL_RUN_SAFE_SCHEMA@,
        Tool::SystemInfo => SYSTEM_INFO_SCHEMA@,
        Tool::SystemClipboard => SYSTEM_CLIPBOARD_SCHEMA@,
        Tool::SystemSetClipboard => SYSTEM_SET_CLIPBOARD_SCHEMA@,
        Tool::DesktopOpenApp => DESKTOP_OPEN_APP_SCHEMA@,
        Tool::DesktopCloseApp => DESKTOP_CLOSE_APP_SCHEMA@,
        Tool::DesktopNotify => DESKTOP_NOTIFY_SCHEMA@,
    }
}

/// How much each tool may change.
pub open spec fn tool_safety(t: Tool) -> Seq<char> {
    match t {
        Tool::FsList => READ@,
        Tool::FsRead => READ@,
        Tool::FsWrite => WRITE@,
        Tool::FsDelete => DESTRUCTIVE@,
        Tool::FsMove => WRITE@,
        Tool::FsSearch => READ@,
        Tool::ShellRun => DESTRUCTIVE@,
        Tool::ShellRunSafe => WRITE@,
        Tool::SystemInfo => READ@,
        Tool::SystemClipboard => READ@,
        Tool::SystemSetClipboard => WRITE@,
        Tool::DesktopOpenApp => WRITE@,
        Tool::DesktopCloseApp => WRITE@,
        Tool::DesktopNotify => READ@,
    }
}

/// `e` is the registration of tool `t`: its handler and its definition.
pub open spec fn describes(e: RegisteredTool, t: Tool) -> bool {
    &&& e.handler == t
    &&& e.definition.name@ == tool_name(t)
    &&& e.definition.description@ == tool_description(t)
    &&& e.definition.input_schema@ == tool_schema(t)
    &&& e.definition.safety@ == tool_safety(t)
}

/// The definition of tool `t`.
pub fn definition_of(t: Tool) -> (d: ToolDefinition)
    ensures
        d.name@ == tool_name(t),
        d.description@ == tool_description(t),
        d.input_schema@ == tool_schema(t),
        d.safety@ == tool_safety(t),
{
    match t {

        Tool::FsList => make_definition("fs.list", FS_LIST_DESCRIPTION, FS_LIST_SCHEMA, READ),
        Tool::FsRead => make_definition("fs.read", FS_READ_DESCRIPTION, FS_READ_SCHEMA, READ),
        Tool::FsWrite => make_definition("fs.write", FS_WRITE_DESCRIPTION, FS_WRITE_SCHEMA, WRITE),
        Tool::FsDelete => make_definition("fs.delete", FS_DELETE_DESCRIPTION, FS_DELETE_SCHEMA, DESTRUCTIVE),
        Tool::FsMove => make_definition("fs.move", FS_MOVE_DESCRIPTION, FS_MOVE_SCHEMA, WRITE),
        Tool::FsSearch => make_definition("fs.search", FS_SEARCH_DESCRIPTION, FS_SEARCH_SCHEMA, READ),
        Tool::ShellRun => make_definition("shell.run", SHELL_RUN_DESCRIPTION, SHELL_RUN_SCHEMA, DESTRUCTIVE),
        Tool::ShellRunSafe => make_definition("shell.run_safe", SHELL_RUN_SAFE_DESCRIPTION, SHELL_RUN_SAFE_SCHEMA, WRITE),
        Tool::SystemInfo => make_definition("system.info", SYSTEM_INFO_DESCRIPTION, SYSTEM_INFO_SCHEMA, READ),
        Tool::SystemClipboard => make_definition("system.clipboard", SYSTEM_CLIPBOARD_DESCRIPTION, SYSTEM_CLIPBOARD_SCHEMA, READ),
        Tool::SystemSetClipboard => make_definition("system.set_clipboard", SYSTEM_SET_CLIPBOARD_DESCRIPTION, SYSTEM_SET_CLIPBOARD_SCHEMA, WRITE),
        Tool::DesktopOpenApp => make_definition("desktop.open_app", DESKTOP_OPEN_APP_DESCRIPTION, DESKTOP_OPEN_APP_SCHEMA, WRITE),
        Tool::DesktopCloseApp => make_definition("desktop.close_app", DESKTOP_CLOSE_APP_DESCRIPTION, DESKTOP_CLOSE_APP_SCHEMA, WRITE),
        Tool::DesktopNotify => make_definition("desktop.notify", DESKTOP_NOTIFY_DESCRIPTION, DESKTOP_NOTIFY_SCHEMA, READ),
    }
}

/// A definition made of the given texts.
fn make_definition(name: &str, description: &str, schema: &str, safety: &str) -> (d: ToolDefinition)
    ensures
        d.name@ == name@,
        d.description@ == description@,
        d.input_schema@ == schema@,
        d.safety@ == safety@,
{
    ToolDefinition {
        name: String::from_str(name),
        description: String::from_str(description),
        input_schema: String::from_str(schema),
        safety: String::from_str(safety),
    }
}


/// No two tools share a name.
pub proof fn lemma_tool_names_distinct(a: Tool, b: Tool)
    requires
        a != b,
    ensures
        tool_name(a) != tool_name(b),
{
    reveal_strlit("fs.list");
    reveal_strlit("fs.read");
    reveal_strlit("fs.write");
    reveal_strlit("fs.delete");
    reveal_strlit("fs.move");
    reveal_strlit("fs.search");
    reveal_strlit("shell.run");
    reveal_strlit("shell.run_safe");
    reveal_strlit("system.info");
    reveal_strlit("system.clipboard");
    reveal_strlit("system.set_clipboard");
    reveal_strlit("desktop.open_app");
    reveal_strlit("desktop.close_app");
    reveal_strlit("desktop.notify");
    if tool_name(a).len() == tool_name(b).len() {
        assert(tool_name(a)[3] != tool_name(b)[3] || tool_name(a)[4] != tool_name(b)[4]
            || tool_name(a)[8] != tool_name(b)[8] || tool_name(a)[10] != tool_name(b)[10]);
    }
}


/// `after` holds every tool of `tools` under its name with its definition,
/// and every other name as `before` held it.
pub open spec fn registers(
    before: Map<Seq<char>, RegisteredTool>,
    after: Map<Seq<char>, RegisteredTool>,
    tools: Seq<Tool>,
) -> bool {
    &&& forall|i: int|
        0 <= i < tools.len() ==> #[trigger] after.contains_key(tool_name(tools[i])) && describes(
            after[tool_name(tools[i])],
            tools[i],
        )
    &&& forall|k: Seq<char>|
        (forall|i: int| 0 <= i < tools.len() ==> tool_name(tools[i]) != k) ==> (
        #[trigger] after.contains_key(k) == before.contains_key(k) && (before.contains_key(k)
            ==> after[k] == before[k]))
}

/// Registers tool `t` under its name, with its definition.
pub fn define(registry: &mut ToolRegistry, t: Tool)
    ensures
        registers(old(registry).entries(), final(registry).entries(), seq![t]),
{
    registry.register(definition_of(t), t);
    assert(seq![t][0] == t);
    assert(registry.entries().contains_key(tool_name(t)));
}

/// Registering the tools of `first` and then those of `second` registers
/// all of them.
pub proof fn lemma_registers_concat(
    m0: Map<Seq<char>, RegisteredTool>,
    m1: Map<Seq<char>, RegisteredTool>,
    m2: Map<Seq<char>, RegisteredTool>,
    first: Seq<Tool>,
    second: Seq<Tool>,
)
    requires
        registers(m0, m1, first),
        registers(m1, m2, second),
        forall|i: int, j: int|
            0 <= i < first.len() && 0 <= j < second.len() ==> first[i] != second[j],
    ensures
        registers(m0, m2, first + second),
{
    let all = first + second;
    assert forall|i: int| 0 <= i < all.len() implies #[trigger] m2.contains_key(tool_name(all[i]))
        && describes(m2[tool_name(all[i])], all[i]) by {
        if i < first.len() {
            assert(all[i] == first[i]);
            assert(m1.contains_key(tool_name(first[i])));
            assert forall|j: int| 0 <= j < second.len() implies tool_name(second[j]) != tool_name(
                first[i],
            ) by {
                lemma_tool_names_distinct(second[j], first[i]);
            }
            let k = tool_name(first[i]);
            assert(m2.contains_key(k) == m1.contains_key(k));
            assert(m2[k] == m1[k]);
            assert(describes(m1[k], first[i]));
        } else {
            assert(all[i] == second[i - first.len()]);
            assert(m2.contains_key(tool_name(second[i - first.len()])));
        }
    }
    assert forall|k: Seq<char>|
        (forall|i: int| 0 <= i < all.len() ==> tool_name(all[i]) != k) implies (
        #[trigger] m2.contains_key(k) == m0.contains_key(k) && (m0.contains_key(k) ==> m2[k]
            == m0[k])) by {
        assert forall|i: int| 0 <= i < first.len() implies tool_name(first[i]) != k by {
            assert(all[i] == first[i]);
        }
        assert forall|j: int| 0 <= j < second.len() implies tool_name(second[j]) != k by {
            assert(all[first.len() + j] == second[j]);
        }
    }
}

/// Registers the tools of `tools`, in order.
pub fn define_all(registry: &mut ToolRegistry, tools: &Vec<Tool>)
    requires
        forall|i: int, j: int|
            0 <= i < tools@.len() && 0 <= j < tools@.len() && i != j ==> tools@[i] != tools@[j],
    ensures
        registers(old(registry).entries(), final(registry).entries(), tools@),
{
    let ghost start = registry.entries();
    let n = tools.len();
    let mut i: usize = 0;
    assert(tools@.take(0) =~= Seq::<Tool>::empty());
    while i < n
        invariant
            n == tools@.len(),
            i <= n,
            forall|a: int, b: int|
                0 <= a < tools@.len() && 0 <= b < tools@.len() && a != b ==> tools@[a] != tools@[b],
            registers(start, registry.entries(), tools@.take(i as int)),
        decreases n - i,
    {
        let ghost before = registry.entries();
        define(registry, tools[i]);
        proof {
            lemma_registers_concat(start, before, registry.entries(), tools@.take(i as int), seq![tools@[i as int]]);
            assert(tools@.take(i as int) + seq![tools@[i as int]] =~= tools@.take(i + 1));
        }
        i = i + 1;
    }
    assert(tools@.take(n as int) =~= tools@);
}

/// The file-system tools, the shell tools, the system tools and the desktop
/// tools, in the order they are registered.
pub open spec fn filesystem_tools() -> Seq<Tool> {
    seq![Tool::FsList, Tool::FsRead, Tool::FsWrite, Tool::FsDelete, Tool::FsMove, Tool::FsSearch]
}

pub open spec fn shell_tools() -> Seq<Tool> {
    seq![Tool::ShellRun, Tool::ShellRunSafe]
}

pub open spec fn system_tools() -> Seq<Tool> {
    seq![Tool::SystemInfo, Tool::SystemClipboard, Tool::SystemSetClipboard]
}

pub open spec fn desktop_tools() -> Seq<Tool> {
    seq![Tool::DesktopOpenApp, Tool::DesktopCloseApp, Tool::DesktopNotify]
}

/// Every tool the daemon offers.
pub open spec fn all_tools() -> Seq<Tool> {
    filesystem_tools() + shell_tools() + system_tools() + desktop_tools()
}

/// Registers every tool the daemon offers.
pub fn register_all(registry: &mut ToolRegistry)
    ensures
        registers(old(registry).entries(), final(registry).entries(), all_tools()),
{
    let ghost m0 = registry.entries();
    filesystem::register(registry);
    let ghost m1 = registry.entries();
    shell::register(registry);
    let ghost m2 = registry.entries();
    system::register(registry);
    let ghost m3 = registry.entries();
    desktop::register(registry);
    proof {
        lemma_registers_concat(m0, m1, m2, filesystem_tools(), shell_tools());
        lemma_registers_concat(m0, m2, m3, filesystem_tools() + shell_tools(), system_tools());
        lemma_registers_concat(
            m0,
            m3,
            registry.entries(),
            filesystem_tools() + shell_tools() + system_tools(),
            desktop_tools(),
        );
    }
}


/// What a call of `tool` with `input` asks for, before tilde expansion.
pub open spec fn planned(tool: Tool, input: ToolInput) -> Result<RequestView, Seq<char>> {
    match tool {
        Tool::FsList | Tool::FsRead | Tool::FsWrite | Tool::FsDelete | Tool::FsMove
        | Tool::FsSearch => filesystem::plan_spec(tool, input),
        Tool::ShellRun | Tool::ShellRunSafe => shell::plan_spec(tool, input),
        Tool::SystemInfo | Tool::SystemClipboard | Tool::SystemSetClipboard => system::plan_spec(
            tool,
            input,
        ),
        _ => desktop::plan_spec(tool, input),
    }
}

/// Checks a call's input and says what it asks for, before tilde expansion.
pub fn plan(tool: Tool, input: &ToolInput) -> (r: Result<ToolRequest, String>)
    ensures
        outcome_view(r) == planned(tool, *input),
{
    match tool {
        Tool::FsList | Tool::FsRead | Tool::FsWrite | Tool::FsDelete | Tool::FsMove
        | Tool::FsSearch => filesystem::plan(tool, input),
        Tool::ShellRun | Tool::ShellRunSafe => shell::plan(tool, input),
        Tool::SystemInfo | Tool::SystemClipboard | Tool::SystemSetClipboard => system::plan(
            tool,
            input,
        ),
        _ => desktop::plan(tool, input),
    }
}

/// A working directory after tilde expansion against `home`: none stays none.
pub open spec fn cwd_outcome(
    before: Option<Seq<char>>,
    after: Option<Seq<char>>,
    home: Option<Seq<char>>,
) -> bool {
    match before {
        Some(b) => after matches Some(a) && tilde_outcome(b, a, home),
        None => after is None,
    }
}

/// `after` is `before` with its paths tilde-expanded against the home
/// directory `home`, and all else the same.
pub open spec fn expanded(before: RequestView, after: RequestView, home: Option<Seq<char>>) -> bool {
    match before {
        RequestView::ListDir { path, recursive } => after matches RequestView::ListDir {
            path: p,
            recursive: r,
        } && tilde_outcome(path, p, home) && r == recursive,
        RequestView::ReadFile { path, max_bytes } => after matches RequestView::ReadFile {
            path: p,
            max_bytes: m,
        } && tilde_outcome(path, p, home) && m == max_bytes,
        RequestView::WriteFile { path, content } => after matches RequestView::WriteFile {
            path: p,
            content: c,
        } && tilde_outcome(path, p, home) && c == content,
        RequestView::Delete { path } => after matches RequestView::Delete { path: p }
            && tilde_outcome(path, p, home),
        RequestView::Move { from, to } => after matches RequestView::Move { from: f, to: t }
            && tilde_outcome(from, f, home) && tilde_outcome(to, t, home),
        RequestView::Search { dir, pattern } => after matches RequestView::Search {
            dir: d,
            pattern: p,
        } && tilde_outcome(dir, d, home) && p == pattern,
        RequestView::RunShell { command, cwd } => after matches RequestView::RunShell {
            command: c,
            cwd: w,
        } && c == command && cwd_outcome(cwd, w, home),
        RequestView::RunSafeShell { command, cwd } => after matches RequestView::RunSafeShell {
            command: c,
            cwd: w,
        } && c == command && cwd_outcome(cwd, w, home),
        _ => after == before,
    }
}

fn expand_cwd(cwd: Option<String>, home: &Option<String>) -> (r: Option<String>)
    ensures
        cwd_outcome(opt_view(cwd), opt_view(r), opt_view(*home)),
{
    match cwd {
        Some(d) => Some(expand_tilde(d.as_str(), home)),
        None => None,
    }
}

/// Expands a leading `~` in every path of the request to the home
/// directory `home`; with no home directory the request stays as it is.
pub fn expand_paths_with(q: ToolRequest, home: &Option<String>) -> (r: ToolRequest)
    ensures
        expanded(q@, r@, opt_view(*home)),
{
    match q {
        ToolRequest::ListDir { path, recursive } => ToolRequest::ListDir {
            path: expand_tilde(path.as_str(), home),
            recursive,
        },
        ToolRequest::ReadFile { path, max_bytes } => ToolRequest::ReadFile {
            path: expand_tilde(path.as_str(), home),
            max_bytes,
        },
        ToolRequest::WriteFile { path, content } => ToolRequest::WriteFile {
            path: expand_tilde(path.as_str(), home),
            content,
        },
        ToolRequest::Delete { path } => ToolRequest::Delete {
            path: expand_tilde(path.as_str(), home),
        },
        ToolRequest::Move { from, to } => ToolRequest::Move {
            from: expand_tilde(from.as_str(), home),
            to: expand_tilde(to.as_str(), home),
        },
        ToolRequest::Search { dir, pattern } => ToolRequest::Search {
            dir: expand_tilde(dir.as_str(), home),
            pattern,
        },
        ToolRequest::RunShell { command, cwd } => ToolRequest::RunShell {
            command,
            cwd: expand_cwd(cwd, home),
        },
        ToolRequest::RunSafeShell { command, cwd } => ToolRequest::RunSafeShell {
            command,
            cwd: expand_cwd(cwd, home),
        },
        other => other,
    }
}

/// Expands a leading `~` in every path of the request to this user's home
/// directory. Which directory that is, and whether there is one, is the
/// environment's: the request is expanded against one home directory or,
/// when there is none, stays as it is.
pub fn expand_paths(q: ToolRequest) -> (r: ToolRequest)
    ensures
        exists|home: Option<Seq<char>>| expanded(q@, r@, home),
{
    let home = system_home_dir();
    let r = expand_paths_with(q, &home);
    assert(expanded(q@, r@, opt_view(home)));
    r
}

/// `after` is `before` with a leading `~` resolved against the home directory
/// `home`: `~` alone gives `home`, `~/rest` gives `home` followed by `/rest`,
/// and a path that does not start with `~` is kept.
pub open spec fn rooted_at(before: Seq<char>, after: Seq<char>, home: Seq<char>) -> bool {
    &&& before.len() == 1 && before[0] == '~' ==> after == home
    &&& before.len() >= 2 && before[0] == '~' && before[1] == '/' ==> after == home + before.subrange(
        1,
        before.len() as int,
    )
    &&& before.len() == 0 || before[0] != '~' ==> after == before
}

/// A working directory, when there is one, resolved as `rooted_at` says.
pub open spec fn cwd_rooted_at(
    before: Option<Seq<char>>,
    after: Option<Seq<char>>,
    home: Seq<char>,
) -> bool {
    match before {
        Some(b) => after matches Some(a) && rooted_at(b, a, home),
        None => after is None,
    }
}

proof fn lemma_tilde_outcome_rooted(path: Seq<char>, out: Seq<char>, home: Seq<char>)
    requires
        tilde_outcome(path, out, Some(home)),
    ensures
        rooted_at(path, out, home),
{
    if path.len() == 1 && path[0] == '~' {
        assert(under_home(path));
        assert(path.drop_first() =~= Seq::<char>::empty());
        assert(home + path.drop_first() =~= home);
    }
}

/// With a home directory known, every path of a request that is `~` or
/// starts with `~/` becomes that directory followed by the rest of the path,
/// a path that does not start with `~` is kept, and the other arguments
/// are kept as they are.
pub proof fn lemma_paths_expand_to_home(q: RequestView, r: RequestView, home: Seq<char>)
    requires
        expanded(q, r, Some(home)),
    ensures
        q matches RequestView::ReadFile { path, max_bytes } ==> r matches RequestView::ReadFile {
            path: p,
            max_bytes: m,
        } && m == max_bytes && rooted_at(path, p, home),
        q matches RequestView::ListDir { path, recursive } ==> r matches RequestView::ListDir {
            path: p,
            recursive: b,
        } && b == recursive && rooted_at(path, p, home),
        q matches RequestView::WriteFile { path, content } ==> r matches RequestView::WriteFile {
            path: p,
            content: c,
        } && c == content && rooted_at(path, p, home),
        q matches RequestView::Delete { path } ==> r matches RequestView::Delete { path: p }
            && rooted_at(path, p, home),
        q matches RequestView::Move { from, to } ==> r matches RequestView::Move { from: f, to: t }
            && rooted_at(from, f, home) && rooted_at(to, t, home),
        q matches RequestView::Search { dir, pattern } ==> r matches RequestView::Search {
            dir: d,
            pattern: p,
        } && p == pattern && rooted_at(dir, d, home),
        q matches RequestView::RunShell { command, cwd } ==> r matches RequestView::RunShell {
            command: c,
            cwd: w,
        } && c == command && cwd_rooted_at(cwd, w, home),
        q matches RequestView::RunSafeShell { command, cwd } ==> r
            matches RequestView::RunSafeShell { command: c, cwd: w } && c == command
            && cwd_rooted_at(cwd, w, home),
{
    match q {
        RequestView::ListDir { path, .. } | RequestView::ReadFile { path, .. }
        | RequestView::WriteFile { path, .. } | RequestView::Delete { path } => {
            let p = match r {
                RequestView::ListDir { path: p, .. } | RequestView::ReadFile { path: p, .. }
                | RequestView::WriteFile { path: p, .. } | RequestView::Delete { path: p } => p,
                _ => path,
            };
            lemma_tilde_outcome_rooted(path, p, home);
        },
        RequestView::Move { from, to } => {
            if let RequestView::Move { from: f, to: t } = r {
                lemma_tilde_outcome_rooted(from, f, home);
                lemma_tilde_outcome_rooted(to, t, home);
            }
        },
        RequestView::Search { dir, .. } => {
            if let RequestView::Search { dir: d, .. } = r {
                lemma_tilde_outcome_rooted(dir, d, home);
            }
        },
        RequestView::RunShell { cwd: Some(c), .. } => {
            if let RequestView::RunShell { cwd: Some(w), .. } = r {
                lemma_tilde_outcome_rooted(c, w, home);
            }
        },
        RequestView::RunSafeShell { cwd: Some(c), .. } => {
            if let RequestView::RunSafeShell { cwd: Some(w), .. } = r {
                lemma_tilde_outcome_rooted(c, w, home);
            }
        },
        _ => {},
    }
}

/// After `register_all` every tool of the daemon is reachable under its name,
/// with its own handler and definition.
pub proof fn lemma_every_tool_registered(
    before: Map<Seq<char>, RegisteredTool>,
    after: Map<Seq<char>, RegisteredTool>,
    t: Tool,
)
    requires
        registers(before, after, all_tools()),
    ensures
        after.contains_key(tool_name(t)),
        describes(after[tool_name(t)], t),
        after[tool_name(t)].handler == t,
{
    let all = all_tools();
    assert(all.len() == 14);
    let i: int = match t {
        Tool::FsList => 0,
        Tool::FsRead => 1,
        Tool::FsWrite => 2,
        Tool::FsDelete => 3,
        Tool::FsMove => 4,
        Tool::FsSearch => 5,
        Tool::ShellRun => 6,
        Tool::ShellRunSafe => 7,
        Tool::SystemInfo => 8,
        Tool::SystemClipboard => 9,
        Tool::SystemSetClipboard => 10,
        Tool::DesktopOpenApp => 11,
        Tool::DesktopCloseApp => 12,
        Tool::DesktopNotify => 13,
    };
    assert(all[i] == t);
    assert(after.contains_key(tool_name(all[i])));
}


/// Every tool is classed as reading, writing or destructive.
pub proof fn lemma_safety_classes(t: Tool)
    ensures
        tool_safety(t) == READ@ || tool_safety(t) == WRITE@ || tool_safety(t) == DESTRUCTIVE@,
{
}


/// The string fields that each tool's input schema marks as required.
pub open spec fn required_fields(t: Tool) -> Seq<Seq<char>> {
    match t {
        Tool::FsList | Tool::FsRead | Tool::FsDelete => seq!["path"@],
        Tool::FsWrite => seq!["path"@, "content"@],
        Tool::FsMove => seq!["from"@, "to"@],
        Tool::FsSearch => seq!["path"@, "pattern"@],
        Tool::ShellRun | Tool::ShellRunSafe => seq!["command"@],
        Tool::SystemInfo | Tool::SystemClipboard => Seq::<Seq<char>>::empty(),
        Tool::SystemSetClipboard => seq!["text"@],
        Tool::DesktopOpenApp | Tool::DesktopCloseApp => seq!["app"@],
        Tool::DesktopNotify => seq!["title"@, "message"@],
    }
}

/// A call whose input lacks a string field that the tool's schema requires
/// is refused: it asks nothing of the machine.
pub proof fn lemma_missing_required_field_refused(t: Tool, input: ToolInput, i: int)
    requires
        0 <= i < required_fields(t).len(),
        input.str_field(required_fields(t)[i]) is None,
    ensures
        planned(t, input) is Err,
{
}

} // verus!
