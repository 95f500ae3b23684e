//! The system tools: what the machine is, and its clipboard.

use vstd::prelude::*;
use crate::host::{or_fallback, system_hostname, system_home_dir};
use crate::mcp::{ToolInput, ToolRegistry};
use crate::text::{decimal, chars_of, u64_to_decimal};
use crate::tools::{
    Tool, ToolRequest, RequestView, required, require_str, outcome_view, registers, define_all,
    system_tools, planned,
};

verus! {

/// Registers the system tools.
pub fn register(registry: &mut ToolRegistry)
    ensures
        registers(old(registry).entries(), final(registry).entries(), system_tools()),
{
    let mut tools: Vec<Tool> = Vec::new();
    tools.push(Tool::SystemInfo);
    tools.push(Tool::SystemClipboard);
    tools.push(Tool::SystemSetClipboard);
    assert(tools@ =~= system_tools());
    define_all(registry, &tools);
}

/// What a system tool asks for, given its input.
pub open spec fn plan_spec(tool: Tool, input: ToolInput) -> Result<RequestView, Seq<char>> {
    match tool {
        Tool::SystemInfo => Ok(RequestView::SystemInfo),
        Tool::SystemClipboard => Ok(RequestView::ReadClipboard),
        _ => match required(input, "text"@) {
            Err(e) => Err(e),
            Ok(text) => Ok(RequestView::WriteClipboard { text }),
        },
    }
}

/// Checks the input of a system tool and says what it asks for.
pub fn plan(tool: Tool, input: &ToolInput) -> (r: Result<ToolRequest, String>)
    requires
        tool == Tool::SystemInfo || tool == Tool::SystemClipboard || tool
            == Tool::SystemSetClipboard,
    ensures
        outcome_view(r) == plan_spec(tool, *input),
{
    match tool {
        Tool::SystemInfo => Ok(ToolRequest::SystemInfo),
        Tool::SystemClipboard => Ok(ToolRequest::ReadClipboard),
        _ => {
            let text = require_str(input, "text")?;
            Ok(ToolRequest::WriteClipboard { text })
        },
    }
}

/// The report of `system.info`.
pub open spec fn info_text(os: Seq<char>, host: Seq<char>, home: Seq<char>) -> Seq<char> {
    "OS: "@ + os + "\nHostname: "@ + host + "\nHome: "@ + home
}

/// The report of `system.info` from what the machine told; what it did not
/// tell reads "unknown".
pub fn format_info(os: &str, host: Option<String>, home: Option<String>) -> (r: String)
    ensures
        r@ == info_text(
            os@,
            match host {
                Some(h) => h@,
                None => "unknown"@,
            },
            match home {
                Some(h) => h@,
                None => "unknown"@,
            },
        ),
{
    let host = or_fallback(host, "unknown");
    let home = or_fallback(home, "unknown");
    let mut r = String::from_str("OS: ");
    r.append(os);
    r.append("\nHostname: ");
    r.append(host.as_str());
    r.append("\nHome: ");
    r.append(home.as_str());
    r
}

/// The report of `system.info` on the operating system `os`, with this
/// machine's host name and the user's home directory as the system reports
/// them (`unknown` for one it does not tell). What the system reports is the
/// machine's and is not stated here; `format_info` states the report for
/// each answer.
pub fn system_info(os: &str) -> (r: String)
    ensures
        exists|host: Seq<char>, home: Seq<char>| r@ == info_text(os@, host, home),
{
    format_info(os, system_hostname(), system_home_dir())
}

/// What reading the clipboard came to.
#[derive(Debug)]
pub enum ClipboardRead {
    /// The clipboard could not be opened.
    Unavailable(String),
    /// The clipboard holds no text that could be read.
    Failed(String),
    /// The text on the clipboard.
    Text(String),
}

/// The result of `system.clipboard`.
pub fn clipboard_result(read: ClipboardRead) -> (r: Result<String, String>)
    ensures
        match read {
            ClipboardRead::Unavailable(e) => r matches Err(m) && m@ == "Cannot access clipboard: "@
                + e@,
            ClipboardRead::Failed(e) => r matches Err(m) && m@ == "Cannot read clipboard: "@ + e@,
            ClipboardRead::Text(t) => r matches Ok(s) && s@ == t@,
        },
{
    match read {
        ClipboardRead::Unavailable(e) => {
            let mut m = String::from_str("Cannot access clipboard: ");
            m.append(e.as_str());
            Err(m)
        },
        ClipboardRead::Failed(e) => {
            let mut m = String::from_str("Cannot read clipboard: ");
            m.append(e.as_str());
            Err(m)
        },
        ClipboardRead::Text(t) => Ok(t),
    }
}

/// What writing the clipboard came to.
#[derive(Debug)]
pub enum ClipboardWrite {
    /// The clipboard could not be opened.
    Unavailable(String),
    /// The text could not be set.
    Failed(String),
    /// The text is on the clipboard.
    Done,
}

/// The result of `system.set_clipboard` with `text`; the count is of characters.
pub fn set_clipboard_result(text: &str, written: ClipboardWrite) -> (r: Result<String, String>)
    ensures
        match written {
            ClipboardWrite::Unavailable(e) => r matches Err(m) && m@ == "Cannot access clipboard: "@
                + e@,
            ClipboardWrite::Failed(e) => r matches Err(m) && m@ == "Cannot set clipboard: "@ + e@,
            ClipboardWrite::Done => r matches Ok(s) && s@ == "Copied "@ + decimal(text@.len())
                + " chars to clipboard"@,
        },
{
    match written {
        ClipboardWrite::Unavailable(e) => {
            let mut m = String::from_str("Cannot access clipboard: ");
            m.append(e.as_str());
            Err(m)
        },
        ClipboardWrite::Failed(e) => {
            let mut m = String::from_str("Cannot set clipboard: ");
            m.append(e.as_str());
            Err(m)
        },
        ClipboardWrite::Done => {
            let n = chars_of(text).len();
            let mut s = String::from_str("Copied ");
            let digits = u64_to_decimal(n as u64);
            s.append(digits.as_str());
            s.append(" chars to clipboard");
            Ok(s)
        },
    }
}

/// `system.set_clipboard` puts the input's `text` field on the clipboard.
pub proof fn lemma_set_clipboard_request(input: ToolInput, text: Seq<char>)
    requires
        input.str_field("text"@) == Some(text),
    ensures
        planned(Tool::SystemSetClipboard, input) == Ok::<RequestView, Seq<char>>(
            RequestView::WriteClipboard { text },
        ),
{
}

} // verus!
