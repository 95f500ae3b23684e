//! The file-system tools: list, read, write, delete, move and search.

use vstd::prelude::*;
use vstd::utf8::*;
use vstd::string::StringSliceAdditionalSpecFns;
use crate::mcp::{ToolInput, ToolRegistry};
use crate::text::{
    lemma_encode_concat, lemma_byte_prefix, lemma_last_cut, last_cut, last_cut_at,
    decimal, join, views, u64_to_decimal, join_first, byte_len, byte_count, byte_prefix, cut_fits,
};
use crate::tools::{
    Tool, ToolRequest, RequestView, required, require_str, outcome_view, registers, define_all,
    filesystem_tools, planned,
};

verus! {

/// Registers the filesystem tools.
pub fn register(registry: &mut ToolRegistry)
    ensures
        registers(old(registry).entries(), final(registry).entries(), filesystem_tools()),
{
    let mut tools: Vec<Tool> = Vec::new();
    tools.push(Tool::FsList);
    tools.push(Tool::FsRead);
    tools.push(Tool::FsWrite);
    tools.push(Tool::FsDelete);
    tools.push(Tool::FsMove);
    tools.push(Tool::FsSearch);
    assert(tools@ =~= filesystem_tools());
    define_all(registry, &tools);
}

broadcast use vstd::utf8::encode_utf8_decode_utf8, vstd::utf8::encode_utf8_valid_utf8;

/// How many bytes `fs.read` keeps when the call does not say.
pub open spec fn default_max_bytes() -> u64 {
    100000
}

/// What a file-system tool asks for, given its input.
pub open spec fn plan_spec(tool: Tool, input: ToolInput) -> Result<RequestView, Seq<char>> {
    match tool {
        Tool::FsList => match required(input, "path"@) {
            Err(e) => Err(e),
            Ok(path) => Ok(
                RequestView::ListDir {
                    path,
                    recursive: match input.bool_field("recursive"@) {
                        Some(b) => b,
                        None => false,
                    },
                },
            ),
        },
        Tool::FsRead => match required(input, "path"@) {
            Err(e) => Err(e),
            Ok(path) => Ok(
                RequestView::ReadFile {
                    path,
                    max_bytes: match input.u64_field("max_bytes"@) {
                        Some(m) => m,
                        None => default_max_bytes(),
                    },
                },
            ),
        },
        Tool::FsWrite => match required(input, "path"@) {
            Err(e) => Err(e),
            Ok(path) => match required(input, "content"@) {
                Err(e) => Err(e),
                Ok(content) => Ok(RequestView::WriteFile { path, content }),
            },
        },
        Tool::FsDelete => match required(input, "path"@) {
            Err(e) => Err(e),
            Ok(path) => Ok(RequestView::Delete { path }),
        },
        Tool::FsMove => match required(input, "from"@) {
            Err(e) => Err(e),
            Ok(from) => match required(input, "to"@) {
                Err(e) => Err(e),
                Ok(to) => Ok(RequestView::Move { from, to }),
            },
        },
        _ => match required(input, "path"@) {
            Err(e) => Err(e),
            Ok(dir) => match required(input, "pattern"@) {
                Err(e) => Err(e),
                Ok(pattern) => Ok(RequestView::Search { dir, pattern }),
            },
        },
    }
}

/// Checks the input of a file-system tool and says what it asks for.
pub fn plan(tool: Tool, input: &ToolInput) -> (r: Result<ToolRequest, String>)
    requires
        tool == Tool::FsList || tool == Tool::FsRead || tool == Tool::FsWrite || tool
            == Tool::FsDelete || tool == Tool::FsMove || tool == Tool::FsSearch,
    ensures
        outcome_view(r) == plan_spec(tool, *input),
{
    match tool {
        Tool::FsList => {
            let path = require_str(input, "path")?;
            let recursive = match input.get_bool("recursive") {
                Some(b) => b,
                None => false,
            };
            Ok(ToolRequest::ListDir { path, recursive })
        },
        Tool::FsRead => {
            let path = require_str(input, "path")?;
            let max_bytes = match input.get_u64("max_bytes") {
                Some(m) => m,
                None => 100000,
            };
            Ok(ToolRequest::ReadFile { path, max_bytes })
        },
        Tool::FsWrite => {
            let path = require_str(input, "path")?;
            let content = require_str(input, "content")?;
            Ok(ToolRequest::WriteFile { path, content })
        },
        Tool::FsDelete => {
            let path = require_str(input, "path")?;
            Ok(ToolRequest::Delete { path })
        },
        Tool::FsMove => {
            let from = require_str(input, "from")?;
            let to = require_str(input, "to")?;
            Ok(ToolRequest::Move { from, to })
        },
        _ => {
            let dir = require_str(input, "path")?;
            let pattern = require_str(input, "pattern")?;
            Ok(ToolRequest::Search { dir, pattern })
        },
    }
}


/// What the listing knows of an entry's metadata: whether it is a
/// directory, its size in bytes, and when it was last modified (in seconds
/// since the Unix epoch) where the system tells.
#[derive(Debug, Clone)]
pub struct EntryMetadata {
    pub is_dir: bool,
    pub len: u64,
    pub modified: Option<u64>,
}

/// One entry of a listing: its path below the listed directory and, when it
/// could be read, its metadata.
#[derive(Debug, Clone)]
pub struct DirEntryInfo {
    pub name: String,
    pub metadata: Option<EntryMetadata>,
}

/// `, modified <seconds>` when the modification time is known.
pub open spec fn modified_note(m: Option<EntryMetadata>) -> Seq<char> {
    match m {
        Some(meta) => match meta.modified {
            Some(t) => ", modified "@ + decimal(t as nat),
            None => Seq::<char>::empty(),
        },
        None => Seq::<char>::empty(),
    }
}

/// The line that describes one entry: `name/ (dir, modified T)` for a
/// directory, `name (N bytes, modified T)` otherwise; the time is left out
/// where it is unknown, and an entry without metadata counts as a file of
/// 0 bytes.
pub open spec fn entry_line(e: DirEntryInfo) -> Seq<char> {
    let is_dir = match e.metadata {
        Some(m) => m.is_dir,
        None => false,
    };
    let size: u64 = match e.metadata {
        Some(m) => m.len,
        None => 0,
    };
    if is_dir {
        e.name@ + "/"@ + " ("@ + "dir"@ + modified_note(e.metadata) + ")"@
    } else {
        e.name@ + " ("@ + decimal(size as nat) + " bytes"@ + modified_note(e.metadata) + ")"@
    }
}

/// The listing of `entries`, one line each.
pub open spec fn listing(entries: Seq<DirEntryInfo>) -> Seq<char> {
    join(Seq::new(entries.len(), |i: int| entry_line(entries[i])), "\n"@)
}

/// Whether a recursive listing goes into `e`: only into directories.
pub fn descends_into(recursive: bool, e: &DirEntryInfo) -> (b: bool)
    ensures
        b == (recursive && (e.metadata matches Some(m) && m.is_dir)),
{
    recursive && match &e.metadata {
        Some(m) => m.is_dir,
        None => false,
    }
}

/// The path, below the listed directory, of entry `name` of the
/// sub-directory `parent` (the empty path is the listed directory itself).
pub fn child_name(parent: &str, name: &str) -> (p: String)
    ensures
        p@ == (if parent@.len() == 0 {
            name@
        } else {
            parent@ + "/"@ + name@
        }),
{
    if parent.is_empty() {
        String::from_str(name)
    } else {
        let mut p = String::from_str(parent);
        p.append("/");
        p.append(name);
        p
    }
}

/// `Cannot <verb> <path>: <error>`.
pub open spec fn cannot(verb: Seq<char>, path: Seq<char>, error: Seq<char>) -> Seq<char> {
    "Cannot "@ + verb + " "@ + path + ": "@ + error
}

fn cannot_text(verb: &str, path: &str, error: &str) -> (s: String)
    ensures
        s@ == cannot(verb@, path@, error@),
{
    let mut s = String::from_str("Cannot ");
    s.append(verb);
    s.append(" ");
    s.append(path);
    s.append(": ");
    s.append(error);
    s
}

fn describe_entry(e: &DirEntryInfo) -> (line: String)
    ensures
        line@ == entry_line(*e),
{
    let (is_dir, size) = match &e.metadata {
        Some(m) => (m.is_dir, m.len),
        None => (false, 0),
    };
    let mut line = e.name.clone();
    if is_dir {
        line.append("/");
        line.append(" (");
        line.append("dir");
    } else {
        line.append(" (");
        let digits = u64_to_decimal(size);
        line.append(digits.as_str());
        line.append(" bytes");
    }
    match &e.metadata {
        Some(m) => match m.modified {
            Some(t) => {
                line.append(", modified ");
                let digits = u64_to_decimal(t);
                line.append(digits.as_str());
            },
            None => {},
        },
        None => {},
    }
    line.append(")");
    line
}

/// The result of `fs.list` on `path`, given what listing the directory gave.
pub fn list_result(path: &str, listed: Result<Vec<DirEntryInfo>, String>) -> (r: Result<String, String>)
    ensures
        match listed {
            Ok(entries) => r matches Ok(s) && s@ == listing(entries@),
            Err(e) => r matches Err(m) && m@ == cannot("read"@, path@, e@),
        },
{
    match listed {
        Err(e) => Err(cannot_text("read", path, e.as_str())),
        Ok(entries) => {
            let n = entries.len();
            let mut lines: Vec<String> = Vec::new();
            let mut i: usize = 0;
            while i < n
                invariant
                    n == entries@.len(),
                    i <= n,
                    lines@.len() == i,
                    forall|k: int| 0 <= k < i ==> lines@[k]@ == entry_line(entries@[k]),
                decreases n - i,
            {
                lines.push(describe_entry(&entries[i]));
                i = i + 1;
            }
            let s = join_first(&lines, n, "\n");
            assert(views(lines@.take(n as int)) =~= Seq::new(
                entries@.len(),
                |k: int| entry_line(entries@[k]),
            ));
            Ok(s)
        },
    }
}

/// The result of `fs.read`: the content, or, when it is longer than
/// `max_bytes` bytes, as many whole characters as fit in `max_bytes` bytes
/// and a note.
pub open spec fn read_text(content: Seq<char>, max_bytes: u64) -> Seq<char> {
    if byte_len(content) > max_bytes {
        byte_prefix(content, last_cut(content, max_bytes as nat)) + "...[truncated at "@ + decimal(max_bytes as nat)
            + " bytes]"@
    } else {
        content
    }
}

/// The result of `fs.read` on `path` with limit `max_bytes`, given what
/// reading the file gave. A limit inside a character cuts before that
/// character.
pub fn read_result(path: &str, max_bytes: u64, read: Result<String, String>) -> (r: Result<String, String>)
    ensures
        match read {
            Ok(c) => r matches Ok(s) && s@ == read_text(c@, max_bytes),
            Err(e) => r matches Err(m) && m@ == cannot("read"@, path@, e@),
        },
{
    match read {
        Err(e) => Err(cannot_text("read", path, e.as_str())),
        Ok(content) => {
            let len = byte_count(content.as_str());
            if len as u64 > max_bytes {
                let cut = last_cut_at(content.as_str(), max_bytes as usize);
                proof {
                    lemma_last_cut(content@, max_bytes as nat);
                }
                let (head, _tail) = content.as_str().split_at(cut);
                let mut s = head.to_owned();
                proof {
                    let bytes = encode_utf8(content@);
                    assert(head.spec_bytes() =~= bytes.take(cut as int));
                    assert(head@ == decode_utf8(encode_utf8(head@)));
                    assert(head@ == byte_prefix(content@, last_cut(content@, max_bytes as nat)));
                }
                s.append("...[truncated at ");
                let digits = u64_to_decimal(max_bytes);
                s.append(digits.as_str());
                s.append(" bytes]");
                Ok(s)
            } else {
                Ok(content)
            }
        },
    }
}


/// The result of `fs.write` of `content` to `path`, given what writing gave.
pub fn write_result(path: &str, content: &str, written: Result<(), String>) -> (r: Result<String, String>)
    ensures
        match written {
            Ok(()) => r matches Ok(s) && s@ == "Written "@ + decimal(byte_len(content@)) + " bytes to "@
                + path@,
            Err(e) => r matches Err(m) && m@ == cannot("write"@, path@, e@),
        },
{
    match written {
        Err(e) => Err(cannot_text("write", path, e.as_str())),
        Ok(()) => {
            let n = byte_count(content);
            let mut s = String::from_str("Written ");
            let digits = u64_to_decimal(n as u64);
            s.append(digits.as_str());
            s.append(" bytes to ");
            s.append(path);
            Ok(s)
        },
    }
}

/// What deleting a path came to.
#[derive(Debug)]
pub enum DeleteOutcome {
    /// The path's metadata could not be read.
    Inaccessible(String),
    /// Removing the file or directory failed.
    Failed(String),
    /// The path is gone.
    Deleted,
}

/// The result of `fs.delete` on `path`.
pub fn delete_result(path: &str, outcome: DeleteOutcome) -> (r: Result<String, String>)
    ensures
        match outcome {
            DeleteOutcome::Inaccessible(e) => r matches Err(m) && m@ == cannot("access"@, path@, e@),
            DeleteOutcome::Failed(e) => r matches Err(m) && m@ == cannot("delete"@, path@, e@),
            DeleteOutcome::Deleted => r matches Ok(s) && s@ == "Deleted "@ + path@,
        },
{
    match outcome {
        DeleteOutcome::Inaccessible(e) => Err(cannot_text("access", path, e.as_str())),
        DeleteOutcome::Failed(e) => Err(cannot_text("delete", path, e.as_str())),
        DeleteOutcome::Deleted => {
            let mut s = String::from_str("Deleted ");
            s.append(path);
            Ok(s)
        },
    }
}

/// The result of `fs.move` from `from` to `to`, given what renaming gave.
pub fn move_result(from: &str, to: &str, moved: Result<(), String>) -> (r: Result<String, String>)
    ensures
        match moved {
            Ok(()) => r matches Ok(s) && s@ == "Moved "@ + from@ + " to "@ + to@,
            Err(e) => r matches Err(m) && m@ == "Cannot move "@ + from@ + " to "@ + to@ + ": "@
                + e@,
        },
{
    match moved {
        Err(e) => {
            let mut m = String::from_str("Cannot move ");
            m.append(from);
            m.append(" to ");
            m.append(to);
            m.append(": ");
            m.append(e.as_str());
            Err(m)
        },
        Ok(()) => {
            let mut s = String::from_str("Moved ");
            s.append(from);
            s.append(" to ");
            s.append(to);
            Ok(s)
        },
    }
}

/// The glob pattern that `fs.search` looks for: `pattern` inside `dir`.
pub fn search_pattern(dir: &str, pattern: &str) -> (p: String)
    ensures
        p@ == dir@ + "/"@ + pattern@,
{
    let mut p = String::from_str(dir);
    p.append("/");
    p.append(pattern);
    p
}

/// How many matches `fs.search` reports at most.
pub open spec fn max_matches() -> nat {
    100
}

/// The report of `fs.search` on `matches`: the first hundred, one per line,
/// or a note that there are none.
pub open spec fn search_text(matches: Seq<String>) -> Seq<char> {
    if matches.len() == 0 {
        "No files found"@
    } else {
        join(views(matches.take(min_nat(matches.len(), max_matches()) as int)), "\n"@)
    }
}

/// The smaller of two numbers.
pub open spec fn min_nat(a: nat, b: nat) -> nat {
    if a <= b {
        a
    } else {
        b
    }
}

/// The result of `fs.search`, given the paths that matched (in the order
/// found) or the error of an invalid pattern.
pub fn search_result(found: Result<Vec<String>, String>) -> (r: Result<String, String>)
    ensures
        match found {
            Ok(matches) => r matches Ok(s) && s@ == search_text(matches@),
            Err(e) => r matches Err(m) && m@ == "Invalid pattern: "@ + e@,
        },
{
    match found {
        Err(e) => {
            let mut m = String::from_str("Invalid pattern: ");
            m.append(e.as_str());
            Err(m)
        },
        Ok(matches) => {
            if matches.len() == 0 {
                Ok(String::from_str("No files found"))
            } else {
                let n = if matches.len() < 100 {
                    matches.len()
                } else {
                    100
                };
                Ok(join_first(&matches, n, "\n"))
            }
        },
    }
}


/// A file longer than the limit keeps exactly its bytes up to the last
/// character boundary within the limit, and gains the note; a shorter one is
/// returned whole.
pub proof fn lemma_read_text_prefix(content: Seq<char>, max_bytes: u64)
    ensures
        byte_len(content) <= max_bytes ==> read_text(content, max_bytes) == content,
        byte_len(content) > max_bytes ==> {
            let cut = last_cut(content, max_bytes as nat);
            &&& cut <= max_bytes
            &&& cut_fits(content, cut)
            &&& encode_utf8(read_text(content, max_bytes)) == encode_utf8(content).take(cut as int)
                + encode_utf8("...[truncated at "@ + decimal(max_bytes as nat) + " bytes]"@)
        },
{
    if byte_len(content) > max_bytes {
        let note = "...[truncated at "@ + decimal(max_bytes as nat) + " bytes]"@;
        let cut = last_cut(content, max_bytes as nat);
        lemma_last_cut(content, max_bytes as nat);
        lemma_byte_prefix(content, cut);
        assert(read_text(content, max_bytes) =~= byte_prefix(content, cut) + note);
        lemma_encode_concat(byte_prefix(content, cut), note);
    }
}


/// `fs.list` lists the directory named by the input's `path` field, and its
/// sub-directories exactly when the input's `recursive` field is `true`.
pub proof fn lemma_list_request(input: ToolInput, path: Seq<char>)
    requires
        input.str_field("path"@) == Some(path),
    ensures
        planned(Tool::FsList, input) == Ok::<RequestView, Seq<char>>(
            RequestView::ListDir { path, recursive: input.bool_field("recursive"@) == Some(true) },
        ),
{
}

/// `fs.read` reads the file named by the input's `path` field, keeping the
/// input's `max_bytes` bytes, or 100000 when it gives none.
pub proof fn lemma_read_request(input: ToolInput, path: Seq<char>)
    requires
        input.str_field("path"@) == Some(path),
    ensures
        planned(Tool::FsRead, input) == Ok::<RequestView, Seq<char>>(
            RequestView::ReadFile {
                path,
                max_bytes: match input.u64_field("max_bytes"@) {
                    Some(m) => m,
                    None => 100000u64,
                },
            },
        ),
{
}

/// `fs.write` writes the input's `content` field to the file named by its
/// `path` field.
pub proof fn lemma_write_request(input: ToolInput, path: Seq<char>, content: Seq<char>)
    requires
        input.str_field("path"@) == Some(path),
        input.str_field("content"@) == Some(content),
    ensures
        planned(Tool::FsWrite, input) == Ok::<RequestView, Seq<char>>(
            RequestView::WriteFile { path, content },
        ),
{
}

/// `fs.delete` deletes what the input's `path` field names.
pub proof fn lemma_delete_request(input: ToolInput, path: Seq<char>)
    requires
        input.str_field("path"@) == Some(path),
    ensures
        planned(Tool::FsDelete, input) == Ok::<RequestView, Seq<char>>(RequestView::Delete { path }),
{
}

/// `fs.move` moves what the input's `from` field names to what its `to` field
/// names: the source is `from` and the destination is `to`.
pub proof fn lemma_move_request(input: ToolInput, from: Seq<char>, to: Seq<char>)
    requires
        input.str_field("from"@) == Some(from),
        input.str_field("to"@) == Some(to),
    ensures
        planned(Tool::FsMove, input) == Ok::<RequestView, Seq<char>>(RequestView::Move { from, to }),
{
}

/// `fs.search` looks inside the directory named by the input's `path` field
/// for what matches its `pattern` field.
pub proof fn lemma_search_request(input: ToolInput, dir: Seq<char>, pattern: Seq<char>)
    requires
        input.str_field("path"@) == Some(dir),
        input.str_field("pattern"@) == Some(pattern),
    ensures
        planned(Tool::FsSearch, input) == Ok::<RequestView, Seq<char>>(
            RequestView::Search { dir, pattern },
        ),
{
}

} // verus!
