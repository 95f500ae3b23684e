//! What this machine and its user environment tell: the host name, the home
//! directory and tilde expansion. Each answer depends on the machine, so the
//! trusted items below promise only what holds of every answer, and verified
//! functions take the answers as arguments.

use vstd::prelude::*;
use crate::tools::opt_view;

verus! {

/// Calls `hostname::get()` and converts the `OsString` lossily; an error
/// becomes `None`. Nothing is promised of the name itself: it is whatever
/// the operating system reports.
#[verifier::external_body]
pub(crate) fn system_hostname() -> Option<String> {
    match hostname::get() {
        Ok(h) => Some(h.to_string_lossy().into_owned()),
        Err(_) => None,
    }
}

/// Calls `dirs::home_dir()` and converts the path lossily; no home directory
/// becomes `None`. Nothing is promised of the answer: it comes from the
/// user's environment.
#[verifier::external_body]
pub(crate) fn system_home_dir() -> Option<String> {
    match dirs::home_dir() {
        Some(p) => Some(p.to_string_lossy().into_owned()),
        None => None,
    }
}

/// `path` names the user's home directory itself or a path inside it:
/// it is `~` alone or starts with `~/`.
pub open spec fn under_home(path: Seq<char>) -> bool {
    path.len() > 0 && path[0] == '~' && (path.len() == 1 || path[1] == '/')
}

/// What tilde expansion gives for `input` when the home directory is `home`:
/// `~` alone or a leading `~/` has the `~` replaced by the home directory
/// when there is one; `~\` may be expanded in the same way (Windows does,
/// other systems do not); every other input is left as it is.
pub open spec fn tilde_outcome(
    input: Seq<char>,
    output: Seq<char>,
    home: Option<Seq<char>>,
) -> bool {
    match home {
        Some(h) => if under_home(input) {
            output == h + input.drop_first()
        } else if input.len() > 1 && input[0] == '~' && input[1] == '\\' {
            output == input || output == h + input.drop_first()
        } else {
            output == input
        },
        None => output == input,
    }
}

/// Calls `shellexpand::tilde_with_context(input, || home)`. Its source
/// replaces a leading `~` by the home directory that the closure hands it
/// when the `~` is followed by the end of the input or by `/` (or by `\`
/// when built for Windows), and otherwise, or when there is no home
/// directory, gives the input back unchanged.
#[verifier::external_body]
pub(crate) fn expand_tilde(input: &str, home: &Option<String>) -> (output: String)
    ensures
        tilde_outcome(input@, output@, opt_view(*home)),
{
    shellexpand::tilde_with_context(input, || home.as_deref()).into_owned()
}

/// The found text when there is one, else `fallback`.
pub open spec fn found_or(found: Option<Seq<char>>, fallback: Seq<char>) -> Seq<char> {
    match found {
        Some(s) => s,
        None => fallback,
    }
}

/// `found` when there is one, else `fallback`.
pub fn or_fallback(found: Option<String>, fallback: &str) -> (r: String)
    ensures
        r@ == (match found {
            Some(s) => s@,
            None => fallback@,
        }),
{
    match found {
        Some(s) => s,
        None => String::from_str(fallback),
    }
}

/// This machine's host name, or `fallback` when the system does not tell.
/// Which name the system tells is not stated: it is the machine's.
pub fn hostname_or(fallback: &str) -> (r: String)
    ensures
        exists|host: Option<Seq<char>>| r@ == found_or(host, fallback@),
{
    let found = system_hostname();
    let r = or_fallback(found, fallback);
    assert(r@ == found_or(opt_view(found), fallback@));
    r
}

} // verus!
