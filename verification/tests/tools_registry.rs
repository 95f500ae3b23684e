use flash_desktop::mcp::{InputField, JsonValue, ToolInput, ToolRegistry};
use flash_desktop::tools::desktop::{
    after_quit_script, kill_result, killall_result, open_result, quit_script,
    windows_image_name, ProcessRun,
};
use flash_desktop::tools::filesystem::{
    child_name, delete_result, descends_into, list_result, move_result, read_result, search_pattern, search_result,
    write_result, DeleteOutcome, DirEntryInfo, EntryMetadata,
};
use flash_desktop::tools::shell::{
    is_safe, run_report, run_result, run_safe_result, truncate_report, ProcessOutput,
};
use flash_desktop::tools::system::{
    clipboard_result, format_info, set_clipboard_result, system_info, ClipboardRead, ClipboardWrite,
};
use flash_desktop::tools::{register_all, Tool, ToolRequest};

fn input(pairs: Vec<(&str, JsonValue)>) -> ToolInput {
    ToolInput {
        fields: pairs
            .into_iter()
            .map(|(k, v)| InputField { key: k.to_string(), value: v })
            .collect(),
    }
}

fn s(v: &str) -> JsonValue {
    JsonValue::Str(v.to_string())
}

fn full_registry() -> ToolRegistry {
    let mut r = ToolRegistry::new();
    register_all(&mut r);
    r
}

#[test]
fn all_tools_are_defined() {
    let r = full_registry();
    let defs = r.definitions();
    assert_eq!(defs.len(), 14);
    let mut names: Vec<String> = defs.iter().map(|d| d.name.clone()).collect();
    names.sort();
    let mut expected = vec![
        "fs.list", "fs.read", "fs.write", "fs.delete", "fs.move", "fs.search", "shell.run",
        "shell.run_safe", "system.info", "system.clipboard", "system.set_clipboard",
        "desktop.open_app", "desktop.close_app", "desktop.notify",
    ];
    expected.sort();
    assert_eq!(names, expected);
    for d in &defs {
        assert!(d.safety == "read" || d.safety == "write" || d.safety == "destructive");
        assert!(d.input_schema.starts_with("{\"type\":\"object\""));
    }
    let shell = defs.iter().find(|d| d.name == "shell.run").unwrap();
    assert_eq!(shell.safety, "destructive");
    assert_eq!(r.handler_of("fs.move"), Some(Tool::FsMove));
}

#[test]
fn registering_again_replaces() {
    let mut r = ToolRegistry::new();
    register_all(&mut r);
    register_all(&mut r);
    assert_eq!(r.definitions().len(), 14);
    let mut one = ToolRegistry::new();
    let def = flash_desktop::tools::definition_of(Tool::FsList);
    one.register(def, Tool::FsRead);
    assert_eq!(one.handler_of("fs.list"), Some(Tool::FsRead));
    one.register(flash_desktop::tools::definition_of(Tool::FsList), Tool::FsList);
    assert_eq!(one.handler_of("fs.list"), Some(Tool::FsList));
    assert_eq!(one.definitions().len(), 1);
}

#[test]
fn unknown_tool_is_refused() {
    let r = full_registry();
    match r.call("fs.nope", &input(vec![])) {
        Err(e) => assert_eq!(e, "Unknown tool: fs.nope"),
        Ok(_) => panic!("expected an error"),
    }
    let empty = ToolRegistry::new();
    assert!(empty.call("fs.list", &input(vec![])).is_err());
}

#[test]
fn missing_arguments_are_named() {
    let r = full_registry();
    let cases = [
        ("fs.list", "Missing path"),
        ("fs.read", "Missing path"),
        ("fs.write", "Missing path"),
        ("fs.delete", "Missing path"),
        ("fs.move", "Missing from"),
        ("fs.search", "Missing path"),
        ("shell.run", "Missing command"),
        ("shell.run_safe", "Missing command"),
        ("system.set_clipboard", "Missing text"),
        ("desktop.open_app", "Missing app"),
        ("desktop.close_app", "Missing app"),
    ];
    for (tool, msg) in cases {
        match r.call(tool, &input(vec![])) {
            Err(e) => assert_eq!(e, msg),
            Ok(q) => panic!("{} gave {:?}", tool, q),
        }
    }
    match r.call("fs.write", &input(vec![("path", s("/tmp/x"))])) {
        Err(e) => assert_eq!(e, "Missing content"),
        Ok(q) => panic!("{:?}", q),
    }
    match r.call("fs.move", &input(vec![("from", s("/a"))])) {
        Err(e) => assert_eq!(e, "Missing to"),
        Ok(q) => panic!("{:?}", q),
    }
    match r.call("fs.search", &input(vec![("path", s("/a"))])) {
        Err(e) => assert_eq!(e, "Missing pattern"),
        Ok(q) => panic!("{:?}", q),
    }
    match r.call("fs.list", &input(vec![("path", JsonValue::UInt(3))])) {
        Err(e) => assert_eq!(e, "Missing path"),
        Ok(q) => panic!("{:?}", q),
    }
}

#[test]
fn planned_requests() {
    let r = full_registry();
    match r.call("fs.read", &input(vec![("path", s("/etc/hosts"))])) {
        Ok(ToolRequest::ReadFile { path, max_bytes }) => {
            assert_eq!(path, "/etc/hosts");
            assert_eq!(max_bytes, 100000);
        }
        other => panic!("{:?}", other),
    }
    match r.call("fs.read", &input(vec![("path", s("/x")), ("max_bytes", JsonValue::UInt(10))])) {
        Ok(ToolRequest::ReadFile { max_bytes, .. }) => assert_eq!(max_bytes, 10),
        other => panic!("{:?}", other),
    }
    match r.call("fs.read", &input(vec![("path", s("/x")), ("max_bytes", s("10"))])) {
        Ok(ToolRequest::ReadFile { max_bytes, .. }) => assert_eq!(max_bytes, 100000),
        other => panic!("{:?}", other),
    }
    match r.call("desktop.close_app", &input(vec![("app", s("Safari.app"))])) {
        Ok(ToolRequest::CloseApp { name }) => assert_eq!(name, "Safari"),
        other => panic!("{:?}", other),
    }
    match r.call("desktop.notify", &input(vec![("message", s("hi"))])) {
        Err(e) => assert_eq!(e, "Missing title"),
        other => panic!("{:?}", other),
    }
    match r.call("desktop.notify", &input(vec![("title", s("T"))])) {
        Err(e) => assert_eq!(e, "Missing message"),
        other => panic!("{:?}", other),
    }
    match r.call("desktop.notify", &input(vec![("title", s("T")), ("message", s("M"))])) {
        Ok(ToolRequest::Reply { text }) => assert_eq!(text, "Notification shown — T: M"),
        other => panic!("{:?}", other),
    }
    match r.call("shell.run", &input(vec![("command", s("echo hi")), ("cwd", s("/tmp"))])) {
        Ok(ToolRequest::RunShell { command, cwd }) => {
            assert_eq!(command, "echo hi");
            assert_eq!(cwd, Some("/tmp".to_string()));
        }
        other => panic!("{:?}", other),
    }
    match r.call("system.info", &input(vec![])) {
        Ok(ToolRequest::SystemInfo) => {}
        other => panic!("{:?}", other),
    }
    match r.call("fs.list", &input(vec![("path", s("~"))])) {
        Ok(ToolRequest::ListDir { path, recursive }) => {
            assert!(!recursive);
            if let Some(home) = dirs::home_dir() {
                assert_eq!(path, home.to_string_lossy());
            }
        }
        other => panic!("{:?}", other),
    }
    match r.call("fs.list", &input(vec![("path", s("/d")), ("recursive", JsonValue::Bool(true))])) {
        Ok(ToolRequest::ListDir { path, recursive }) => {
            assert_eq!(path, "/d");
            assert!(recursive);
        }
        other => panic!("{:?}", other),
    }
    match r.call("fs.list", &input(vec![("path", s("~bob/x"))])) {
        Ok(ToolRequest::ListDir { path, .. }) => assert_eq!(path, "~bob/x"),
        other => panic!("{:?}", other),
    }
}

#[test]
fn safe_list() {
    assert!(is_safe("ls -la"));
    assert!(is_safe("   git status"));
    assert!(is_safe("printenv HOME"));
    assert!(!is_safe("rm -rf /"));
    assert!(!is_safe("git push"));
    assert!(!is_safe("ls; rm -rf ~/x"));
    assert!(!is_safe("env rm -rf ~/x"));
    assert!(is_safe("env"));
    assert!(is_safe("env  "));
    assert!(!is_safe("lsblk"));
    assert!(!is_safe("cat a | sh"));
    assert!(!is_safe("echo $HOME"));
    assert!(!is_safe("echo hi > f"));
    assert!(is_safe("git log --oneline"));
    assert!(!is_safe("git statusx"));
    let r = full_registry();
    match r.call("shell.run_safe", &input(vec![("command", s("rm -rf /"))])) {
        Err(e) => assert_eq!(
            e,
            "Command 'rm -rf /' is not in the safe list. Use shell.run for arbitrary commands."
        ),
        Ok(q) => panic!("{:?}", q),
    }
    match r.call("shell.run_safe", &input(vec![("command", s(" pwd"))])) {
        Ok(ToolRequest::RunSafeShell { command, cwd }) => {
            assert_eq!(command, " pwd");
            assert_eq!(cwd, None);
        }
        other => panic!("{:?}", other),
    }
}

#[test]
fn filesystem_results() {
    let entries = vec![
        DirEntryInfo {
            name: "src".to_string(),
            metadata: Some(EntryMetadata { is_dir: true, len: 4096, modified: Some(1700000000) }),
        },
        DirEntryInfo {
            name: "src/main.rs".to_string(),
            metadata: Some(EntryMetadata { is_dir: false, len: 30, modified: Some(1700000100) }),
        },
        DirEntryInfo {
            name: "a.txt".to_string(),
            metadata: Some(EntryMetadata { is_dir: false, len: 12, modified: None }),
        },
        DirEntryInfo { name: "odd".to_string(), metadata: None },
    ];
    assert_eq!(
        list_result("/p", Ok(entries)).unwrap(),
        "src/ (dir, modified 1700000000)\nsrc/main.rs (30 bytes, modified 1700000100)\na.txt (12 bytes)\nodd (0 bytes)"
    );
    assert_eq!(child_name("", "a"), "a");
    assert_eq!(child_name("src", "a"), "src/a");
    let dir = DirEntryInfo {
        name: "d".to_string(),
        metadata: Some(EntryMetadata { is_dir: true, len: 0, modified: None }),
    };
    let file = DirEntryInfo {
        name: "f".to_string(),
        metadata: Some(EntryMetadata { is_dir: false, len: 0, modified: None }),
    };
    assert!(descends_into(true, &dir));
    assert!(!descends_into(false, &dir));
    assert!(!descends_into(true, &file));
    assert_eq!(list_result("/p", Ok(vec![])).unwrap(), "");
    assert_eq!(list_result("/p", Err("denied".to_string())).unwrap_err(), "Cannot read /p: denied");

    assert_eq!(read_result("/f", 100, Ok("short".to_string())).unwrap(), "short");
    assert_eq!(
        read_result("/f", 3, Ok("abcdef".to_string())).unwrap(),
        "abc...[truncated at 3 bytes]"
    );
    assert_eq!(read_result("/f", 3, Err("nope".to_string())).unwrap_err(), "Cannot read /f: nope");
    assert_eq!(
        read_result("/f", 1, Ok("é".to_string())).unwrap(),
        "...[truncated at 1 bytes]"
    );
    assert_eq!(
        read_result("/f", 2, Ok("aé".to_string())).unwrap(),
        "a...[truncated at 2 bytes]"
    );
    assert_eq!(
        write_result("/w", "héllo", Ok(())).unwrap(),
        "Written 6 bytes to /w"
    );
    assert_eq!(write_result("/w", "x", Err("ro".to_string())).unwrap_err(), "Cannot write /w: ro");
    assert_eq!(delete_result("/d", DeleteOutcome::Deleted).unwrap(), "Deleted /d");
    assert_eq!(
        delete_result("/d", DeleteOutcome::Inaccessible("gone".to_string())).unwrap_err(),
        "Cannot access /d: gone"
    );
    assert_eq!(
        delete_result("/d", DeleteOutcome::Failed("busy".to_string())).unwrap_err(),
        "Cannot delete /d: busy"
    );
    assert_eq!(move_result("/a", "/b", Ok(())).unwrap(), "Moved /a to /b");
    assert_eq!(
        move_result("/a", "/b", Err("x".to_string())).unwrap_err(),
        "Cannot move /a to /b: x"
    );
    assert_eq!(search_pattern("/home", "*.txt"), "/home/*.txt");
    assert_eq!(search_result(Ok(vec![])).unwrap(), "No files found");
    assert_eq!(
        search_result(Ok(vec!["/a".to_string(), "/b".to_string()])).unwrap(),
        "/a\n/b"
    );
    let many: Vec<String> = (0..150).map(|i| format!("/f{}", i)).collect();
    let out = search_result(Ok(many)).unwrap();
    assert_eq!(out.lines().count(), 100);
    assert!(out.ends_with("/f99"));
    assert_eq!(search_result(Err("bad".to_string())).unwrap_err(), "Invalid pattern: bad");
}

#[test]
fn shell_results() {
    let out = ProcessOutput { code: Some(0), stdout: "hi\n".to_string(), stderr: String::new() };
    assert_eq!(run_report(&out), "Exit code: 0\nSTDOUT:\nhi\n\n");
    let out2 = ProcessOutput { code: None, stdout: String::new(), stderr: "boom".to_string() };
    assert_eq!(run_report(&out2), "Exit code: -1\nSTDERR:\nboom\n");
    assert_eq!(run_result(Ok(out2)).unwrap(), "Exit code: -1\nSTDERR:\nboom\n");
    assert_eq!(run_result(Err("no sh".to_string())).unwrap_err(), "Failed to run: no sh");
    let big = "x".repeat(60000);
    let t = truncate_report(big);
    assert_eq!(t.len(), 50000 + "\n...[truncated]".len());
    assert!(t.ends_with("\n...[truncated]"));
    let wide = format!("{}é{}", "x".repeat(49999), "y".repeat(10));
    let cut = truncate_report(wide);
    assert_eq!(cut, format!("{}\n...[truncated]", "x".repeat(49999)));
    let quiet = ProcessOutput { code: Some(2), stdout: "only".to_string(), stderr: "e".to_string() };
    assert_eq!(run_safe_result(Ok(quiet)).unwrap(), "only");
    assert_eq!(run_safe_result(Err("x".to_string())).unwrap_err(), "Failed to run: x");
}

#[test]
fn system_results() {
    assert_eq!(
        format_info("linux", Some("box".to_string()), None),
        "OS: linux\nHostname: box\nHome: unknown"
    );
    assert!(system_info("linux").starts_with("OS: linux\nHostname: "));
    assert_eq!(clipboard_result(ClipboardRead::Text("t".to_string())).unwrap(), "t");
    assert_eq!(
        clipboard_result(ClipboardRead::Unavailable("x".to_string())).unwrap_err(),
        "Cannot access clipboard: x"
    );
    assert_eq!(
        clipboard_result(ClipboardRead::Failed("y".to_string())).unwrap_err(),
        "Cannot read clipboard: y"
    );
    assert_eq!(
        set_clipboard_result("héllo", ClipboardWrite::Done).unwrap(),
        "Copied 5 chars to clipboard"
    );
    assert_eq!(
        set_clipboard_result("a", ClipboardWrite::Failed("z".to_string())).unwrap_err(),
        "Cannot set clipboard: z"
    );
}

#[test]
fn desktop_results() {
    assert_eq!(open_result("Safari", Ok(())).unwrap(), "Opened 'Safari'");
    assert_eq!(open_result("X", Err("no".to_string())).unwrap_err(), "Cannot open 'X': no");
    assert_eq!(quit_script("Zed"), "tell application \"Zed\" to quit");
    assert_eq!(after_quit_script("Zed", true), Some("Quit 'Zed' (AppleScript)".to_string()));
    assert_eq!(after_quit_script("Zed", false), None);
    assert_eq!(
        killall_result("Zed", ProcessRun::Exited { success: true, stderr: String::new() }).unwrap(),
        "Killed 'Zed' (killall)"
    );
    assert_eq!(
        killall_result("Zed", ProcessRun::Exited { success: false, stderr: "none".to_string() })
            .unwrap_err(),
        "Could not close 'Zed' — none"
    );
    assert_eq!(
        killall_result("Zed", ProcessRun::SpawnFailed("e".to_string())).unwrap_err(),
        "killall failed: e"
    );
    assert_eq!(windows_image_name("notepad"), "notepad.exe");
    assert_eq!(windows_image_name("notepad.exe"), "notepad.exe");
    assert_eq!(
        kill_result("pkill", "zed", ProcessRun::Exited { success: true, stderr: String::new() })
            .unwrap(),
        "Closed 'zed'"
    );
    assert_eq!(
        kill_result("pkill", "zed", ProcessRun::Exited { success: false, stderr: "err".to_string() })
            .unwrap_err(),
        "err"
    );
    assert_eq!(
        kill_result("taskkill", "zed", ProcessRun::SpawnFailed("e".to_string())).unwrap_err(),
        "taskkill failed: e"
    );
}
