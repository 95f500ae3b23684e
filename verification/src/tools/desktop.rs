//! The desktop tools: open an application, quit one, show a notification.

use vstd::prelude::*;
use crate::mcp::{ToolInput, ToolRegistry};
use crate::text::{
    lemma_trim_end_matches_done, lemma_trim_end_matches_repeats, ends_with, repeated,
    trim_end_matches, str_trim_end_matches, str_ends_with,
};
use crate::tools::{
    Tool, ToolRequest, RequestView, required, require_str, outcome_view, registers, define_all,
    desktop_tools, planned,
};

verus! {

/// Registers the desktop tools.
pub fn register(registry: &mut ToolRegistry)
    ensures
        registers(old(registry).entries(), final(registry).entries(), desktop_tools()),
{
    let mut tools: Vec<Tool> = Vec::new();
    tools.push(Tool::DesktopOpenApp);
    tools.push(Tool::DesktopCloseApp);
    tools.push(Tool::DesktopNotify);
    assert(tools@ =~= desktop_tools());
    define_all(registry, &tools);
}

/// The application name to quit: what was asked, without trailing `.app`s.
pub open spec fn app_name(app: Seq<char>) -> Seq<char> {
    trim_end_matches(app, ".app"@)
}

/// The text of a notification.
pub open spec fn notification(title: Seq<char>, message: Seq<char>) -> Seq<char> {
    "Notification shown — "@ + title + ": "@ + message
}

/// What a desktop tool asks for, given its input.
pub open spec fn plan_spec(tool: Tool, input: ToolInput) -> Result<RequestView, Seq<char>> {
    match tool {
        Tool::DesktopOpenApp => match required(input, "app"@) {
            Err(e) => Err(e),
            Ok(target) => Ok(RequestView::OpenApp { target }),
        },
        Tool::DesktopCloseApp => match required(input, "app"@) {
            Err(e) => Err(e),
            Ok(app) => Ok(RequestView::CloseApp { name: app_name(app) }),
        },
        _ => match required(input, "title"@) {
            Err(e) => Err(e),
            Ok(title) => match required(input, "message"@) {
                Err(e) => Err(e),
                Ok(message) => Ok(RequestView::Reply { text: notification(title, message) }),
            },
        },
    }
}

/// Checks the input of a desktop tool and says what it asks for.
pub fn plan(tool: Tool, input: &ToolInput) -> (r: Result<ToolRequest, String>)
    requires
        tool == Tool::DesktopOpenApp || tool == Tool::DesktopCloseApp || tool
            == Tool::DesktopNotify,
    ensures
        outcome_view(r) == plan_spec(tool, *input),
{
    match tool {
        Tool::DesktopOpenApp => {
            let target = require_str(input, "app")?;
            Ok(ToolRequest::OpenApp { target })
        },
        Tool::DesktopCloseApp => {
            let app = require_str(input, "app")?;
            proof {
                reveal_strlit(".app");
            }
            let name = str_trim_end_matches(app.as_str(), ".app");
            Ok(ToolRequest::CloseApp { name })
        },
        _ => {
            let title = require_str(input, "title")?;
            let message = require_str(input, "message")?;
            let mut text = String::from_str("Notification shown — ");
            text.append(title.as_str());
            text.append(": ");
            text.append(message.as_str());
            Ok(ToolRequest::Reply { text })
        },
    }
}

/// The result of `desktop.open_app` on `app`, given what opening it gave.
pub fn open_result(app: &str, opened: Result<(), String>) -> (r: Result<String, String>)
    ensures
        match opened {
            Ok(()) => r matches Ok(s) && s@ == "Opened '"@ + app@ + "'"@,
            Err(e) => r matches Err(m) && m@ == "Cannot open '"@ + app@ + "': "@ + e@,
        },
{
    match opened {
        Err(e) => {
            let mut m = String::from_str("Cannot open '");
            m.append(app);
            m.append("': ");
            m.append(e.as_str());
            Err(m)
        },
        Ok(()) => {
            let mut s = String::from_str("Opened '");
            s.append(app);
            s.append("'");
            Ok(s)
        },
    }
}

/// The AppleScript that asks application `name` to quit.
pub fn quit_script(name: &str) -> (s: String)
    ensures
        s@ == "tell application \""@ + name@ + "\" to quit"@,
{
    let mut s = String::from_str("tell application \"");
    s.append(name);
    s.append("\" to quit");
    s
}

/// The result of `desktop.close_app` once the AppleScript ran: done when it
/// succeeded, else `None` and the caller falls back to `killall`.
pub fn after_quit_script(name: &str, succeeded: bool) -> (r: Option<String>)
    ensures
        succeeded ==> (r matches Some(s) && s@ == "Quit '"@ + name@ + "' (AppleScript)"@),
        !succeeded ==> r is None,
{
    if succeeded {
        let mut s = String::from_str("Quit '");
        s.append(name);
        s.append("' (AppleScript)");
        Some(s)
    } else {
        None
    }
}

/// What running a helper program came to.
#[derive(Debug)]
pub enum ProcessRun {
    /// The program could not be started.
    SpawnFailed(String),
    /// The program ran; whether it succeeded, and its standard error.
    Exited { success: bool, stderr: String },
}

/// The result of `desktop.close_app` from `killall name` on macOS.
pub fn killall_result(name: &str, run: ProcessRun) -> (r: Result<String, String>)
    ensures
        match run {
            ProcessRun::SpawnFailed(e) => r matches Err(m) && m@ == "killall failed: "@ + e@,
            ProcessRun::Exited { success, stderr } => if success {
                r matches Ok(s) && s@ == "Killed '"@ + name@ + "' (killall)"@
            } else {
                r matches Err(m) && m@ == "Could not close '"@ + name@ + "' — "@ + stderr@
            },
        },
{
    match run {
        ProcessRun::SpawnFailed(e) => {
            let mut m = String::from_str("killall failed: ");
            m.append(e.as_str());
            Err(m)
        },
        ProcessRun::Exited { success, stderr } => {
            if success {
                let mut s = String::from_str("Killed '");
                s.append(name);
                s.append("' (killall)");
                Ok(s)
            } else {
                let mut m = String::from_str("Could not close '");
                m.append(name);
                m.append("' — ");
                m.append(stderr.as_str());
                Err(m)
            }
        },
    }
}

/// The image name that `taskkill` is given on Windows: `name`, with `.exe`
/// added unless it ends so already.
pub open spec fn image_name(name: Seq<char>) -> Seq<char> {
    if ends_with(name, ".exe"@) {
        name
    } else {
        name + ".exe"@
    }
}

/// The image name that `taskkill` is given on Windows.
pub fn windows_image_name(name: &str) -> (s: String)
    ensures
        s@ == image_name(name@),
{
    if str_ends_with(name, ".exe") {
        String::from_str(name)
    } else {
        let mut s = String::from_str(name);
        s.append(".exe");
        s
    }
}

/// The result of `desktop.close_app` from `program` (`taskkill` on Windows,
/// `pkill` elsewhere) run on `name`.
pub fn kill_result(program: &str, name: &str, run: ProcessRun) -> (r: Result<String, String>)
    ensures
        match run {
            ProcessRun::SpawnFailed(e) => r matches Err(m) && m@ == program@ + " failed: "@ + e@,
            ProcessRun::Exited { success, stderr } => if success {
                r matches Ok(s) && s@ == "Closed '"@ + name@ + "'"@
            } else {
                r matches Err(m) && m@ == stderr@
            },
        },
{
    match run {
        ProcessRun::SpawnFailed(e) => {
            let mut m = String::from_str(program);
            m.append(" failed: ");
            m.append(e.as_str());
            Err(m)
        },
        ProcessRun::Exited { success, stderr } => {
            if success {
                let mut s = String::from_str("Closed '");
                s.append(name);
                s.append("'");
                Ok(s)
            } else {
                Err(stderr)
            }
        },
    }
}


/// The name handed to the quitting programs never ends with `.app`.
pub proof fn lemma_app_name_has_no_bundle_suffix(app: Seq<char>)
    ensures
        !ends_with(app_name(app), ".app"@),
{
    reveal_strlit(".app");
    lemma_trim_end_matches_done(app, ".app"@);
}

/// `desktop.open_app` opens exactly what the input's `app` field names, a
/// bundle path such as `/Applications/TextEdit.app` included.
pub proof fn lemma_open_app_request(input: ToolInput, app: Seq<char>)
    requires
        input.str_field("app"@) == Some(app),
    ensures
        planned(Tool::DesktopOpenApp, input) == Ok::<RequestView, Seq<char>>(
            RequestView::OpenApp { target: app },
        ),
{
}

/// `desktop.close_app` quits the application that the input's `app` field
/// names: that name with its trailing `.app`s taken off, and nothing else.
pub proof fn lemma_close_app_request(input: ToolInput, app: Seq<char>)
    requires
        input.str_field("app"@) == Some(app),
    ensures
        planned(Tool::DesktopCloseApp, input) matches Ok(RequestView::CloseApp { name })
            && !ends_with(name, ".app"@) && exists|k: nat| app == name + #[trigger] repeated(
            ".app"@,
            k,
        ),
{
    reveal_strlit(".app");
    lemma_trim_end_matches_done(app, ".app"@);
    lemma_trim_end_matches_repeats(app, ".app"@);
}

/// `desktop.notify` shows the input's `title` and `message` fields and
/// answers with them.
pub proof fn lemma_notify_request(input: ToolInput, title: Seq<char>, message: Seq<char>)
    requires
        input.str_field("title"@) == Some(title),
        input.str_field("message"@) == Some(message),
    ensures
        planned(Tool::DesktopNotify, input) == Ok::<RequestView, Seq<char>>(
            RequestView::Reply { text: "Notification shown — "@ + title + ": "@ + message },
        ),
{
}

} // verus!
