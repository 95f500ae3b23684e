//! The daemon's side of the connection to the server: the messages, the
//! address it connects to, and the decisions of its reconnect loop. Sending,
//! receiving and waiting are the caller's part.

use vstd::prelude::*;
use crate::auth::{device_registered, token_of};
use crate::config::Config;
use crate::mcp::ToolInput;
use crate::text::{replace_all, replace, starts_with};

verus! {

/// A message from the server.
#[derive(Debug)]
pub enum IncomingMessage {
    /// Run tool `tool` with `input` and answer with the same `tool_call_id`.
    ToolCall { tool_call_id: String, tool: String, input: ToolInput },
    /// Are you there?
    Ping,
}

/// A message to the server.
#[derive(Debug)]
pub enum OutgoingMessage {
    /// The outcome of a tool call: its result, or an empty result and an error.
    ToolResult { tool_call_id: String, result: String, error: Option<String> },
    /// The answer to a ping.
    Pong,
}

/// Where the connection stands.
#[derive(Debug, Clone, Copy, PartialEq, Eq, Structural)]
pub enum ConnectionStatus {
    Connected,
    Reconnecting,
    Disconnected,
    AuthError,
}

/// What to do with a message from the server.
#[derive(Debug)]
pub enum Dispatch {
    /// Run the tool, then send its `tool_result` (see [`tool_result`]).
    RunTool { tool_call_id: String, tool: String, input: ToolInput },
    /// Send this answer now.
    Reply(OutgoingMessage),
}

/// What to do with a message from the server: a tool call is run, a ping is
/// answered with a pong.
pub fn dispatch(message: IncomingMessage) -> (d: Dispatch)
    ensures
        match message {
            IncomingMessage::ToolCall { tool_call_id, tool, input } => d == Dispatch::RunTool {
                tool_call_id,
                tool,
                input,
            },
            IncomingMessage::Ping => d == Dispatch::Reply(OutgoingMessage::Pong),
        },
{
    match message {
        IncomingMessage::ToolCall { tool_call_id, tool, input } => Dispatch::RunTool {
            tool_call_id,
            tool,
            input,
        },
        IncomingMessage::Ping => Dispatch::Reply(OutgoingMessage::Pong),
    }
}

/// The answer to tool call `tool_call_id` that came to `outcome`.
pub fn tool_result(tool_call_id: String, outcome: Result<String, String>) -> (m: OutgoingMessage)
    ensures
        match outcome {
            Ok(r) => m == OutgoingMessage::ToolResult { tool_call_id, result: r, error: None },
            Err(e) => m matches OutgoingMessage::ToolResult { tool_call_id: id, result, error }
                && id == tool_call_id && result@ == Seq::<char>::empty() && error == Some(e),
        },
{
    match outcome {
        Ok(r) => OutgoingMessage::ToolResult { tool_call_id, result: r, error: None },
        Err(e) => OutgoingMessage::ToolResult {
            tool_call_id,
            result: String::new(),
            error: Some(e),
        },
    }
}

/// The tray tooltip for each status.
pub open spec fn tooltip(status: ConnectionStatus) -> Seq<char> {
    match status {
        ConnectionStatus::Connected => "Flash Desktop — Connected"@,
        ConnectionStatus::Reconnecting => "Flash Desktop — Reconnecting..."@,
        ConnectionStatus::Disconnected => "Flash Desktop — Disconnected"@,
        ConnectionStatus::AuthError => "Flash Desktop — Not signed in"@,
    }
}

/// The tray tooltip for `status`, which is also what the window is told.
pub fn status_tooltip(status: ConnectionStatus) -> (t: &'static str)
    ensures
        t@ == tooltip(status),
{
    match status {
        ConnectionStatus::Connected => "Flash Desktop — Connected",
        ConnectionStatus::Reconnecting => "Flash Desktop — Reconnecting...",
        ConnectionStatus::Disconnected => "Flash Desktop — Disconnected",
        ConnectionStatus::AuthError => "Flash Desktop — Not signed in",
    }
}

/// The server URL with its scheme turned into the WebSocket one.
pub open spec fn websocket_base(server_url: Seq<char>) -> Seq<char> {
    replace_all(replace_all(server_url, "https://"@, "wss://"@), "http://"@, "ws://"@)
}

/// The address of the daemon endpoint of server `server_id`.
pub open spec fn daemon_address(server_url: Seq<char>, server_id: Seq<char>, token: Seq<char>) -> Seq<
    char,
> {
    websocket_base(server_url) + "/ws/daemon/"@ + server_id + "?token="@ + token + "&serverId="@
        + server_id
}

/// The address the daemon connects to.
pub fn daemon_url(server_url: &str, server_id: &str, token: &str) -> (url: String)
    ensures
        url@ == daemon_address(server_url@, server_id@, token@),
{
    proof {
        reveal_strlit("https://");
        reveal_strlit("http://");
    }
    let secure = replace(server_url, "https://", "wss://");
    let mut url = replace(secure.as_str(), "http://", "ws://");
    url.append("/ws/daemon/");
    url.append(server_id);
    url.append("?token=");
    url.append(token);
    url.append("&serverId=");
    url.append(server_id);
    url
}

/// Two to the power `n`.
pub open spec fn two_pow(n: nat) -> nat
    decreases n,
{
    if n == 0 {
        1
    } else {
        2 * two_pow((n - 1) as nat)
    }
}

/// Seconds to wait before the reconnect that follows `retries` failed ones:
/// doubling from one second, at most a minute.
pub open spec fn backoff_secs(retries: nat) -> nat {
    if two_pow(retries) < 60 {
        two_pow(retries)
    } else {
        60
    }
}

/// Powers of two grow with the exponent.
pub proof fn lemma_two_pow_grows(a: nat, b: nat)
    requires
        a <= b,
    ensures
        two_pow(a) <= two_pow(b),
    decreases b,
{
    if a < b {
        lemma_two_pow_grows(a, (b - 1) as nat);
    }
}

/// Seconds to wait before the next reconnect: `min(2^retries, 60)`, for
/// every count of retries (the doubling stops once it reaches a minute).
pub fn backoff_delay(retries: u32) -> (secs: u64)
    ensures
        secs == backoff_secs(retries as nat),
{
    let mut d: u64 = 1;
    let mut i: u32 = 0;
    while i < retries && d < 60
        invariant
            i <= retries,
            d == two_pow(i as nat),
            d < 120,
        decreases retries - i,
    {
        d = d * 2;
        i = i + 1;
    }
    proof {
        lemma_two_pow_grows(i as nat, retries as nat);
    }
    if d < 60 {
        d
    } else {
        60
    }
}

/// What the reconnect loop does after looking for credentials.
#[derive(Debug)]
pub enum PollAction {
    /// No credentials yet: tell the new status when there is one, wait `secs`
    /// seconds and look again.
    Wait { notify: Option<ConnectionStatus>, secs: u64 },
    /// Connect to `url`.
    Connect { url: String },
}

/// What the reconnect loop does after a connection ended or failed: tell
/// `notify`, wait `secs` seconds, look for credentials again.
#[derive(Debug)]
pub struct Backoff {
    pub notify: ConnectionStatus,
    pub secs: u64,
}

/// Without credentials the status becomes `AuthError`, and is told only
/// when it was something else before.
pub open spec fn waits_for_credentials(
    before: ConnectionStatus,
    after: ConnectionStatus,
    notify: Option<ConnectionStatus>,
) -> bool {
    &&& after == ConnectionStatus::AuthError
    &&& notify == if before != ConnectionStatus::AuthError {
        Some(ConnectionStatus::AuthError)
    } else {
        None
    }
}

/// The state of the reconnect loop.
#[derive(Debug)]
pub struct ReconnectState {
    /// Where the connection stands.
    pub status: ConnectionStatus,
    /// Failed or ended connections since the last successful one.
    pub retries: u32,
    /// How many times the loop has looked for credentials.
    pub tick: u32,
}

impl ReconnectState {
    /// The state before the first look for credentials.
    pub fn new() -> (s: ReconnectState)
        ensures
            s.status == ConnectionStatus::Disconnected,
            s.retries == 0,
            s.tick == 0,
    {
        ReconnectState { status: ConnectionStatus::Disconnected, retries: 0, tick: 0 }
    }

    /// Where the connection stands.
    pub fn status(&self) -> (s: ConnectionStatus)
        ensures
            s == self.status,
    {
        self.status
    }

    /// Looks at the credentials: with both a token and a server, connect to
    /// the server's daemon address; else the status becomes `AuthError`
    /// (told only when it changes) and the loop waits two seconds.
    pub fn poll(&mut self, token: Option<String>, server_id: Option<String>, server_url: &str) -> (a:
        PollAction)
        requires
            old(self).tick < u32::MAX,
        ensures
            final(self).tick == old(self).tick + 1,
            final(self).retries == old(self).retries,
            match (token, server_id) {
                (Some(t), Some(s)) => {
                    &&& final(self).status == old(self).status
                    &&& a matches PollAction::Connect { url } && url@ == daemon_address(
                        server_url@,
                        s@,
                        t@,
                    )
                },
                _ => a matches PollAction::Wait { notify, secs } && secs == 2
                    && waits_for_credentials(old(self).status, final(self).status, notify),
            },
    {
        self.tick = self.tick + 1;
        match (token, server_id) {
            (Some(t), Some(s)) => PollAction::Connect {
                url: daemon_url(server_url, s.as_str(), t.as_str()),
            },
            _ => {
                let notify = if self.status != ConnectionStatus::AuthError {
                    self.status = ConnectionStatus::AuthError;
                    Some(ConnectionStatus::AuthError)
                } else {
                    None
                };
                PollAction::Wait { notify, secs: 2 }
            },
        }
    }

    /// The connection is up: the status becomes `Connected`, which is told,
    /// and the count of retries starts again.
    pub fn connected(&mut self) -> (notify: ConnectionStatus)
        ensures
            notify == ConnectionStatus::Connected,
            final(self).status == ConnectionStatus::Connected,
            final(self).retries == 0,
            final(self).tick == old(self).tick,
    {
        self.retries = 0;
        self.status = ConnectionStatus::Connected;
        ConnectionStatus::Connected
    }

    /// The connection ended or could not be made: the status becomes
    /// `Reconnecting`, which is told, and the loop waits the backoff of the
    /// retries so far before the next one. The count stops at `u32::MAX`,
    /// where the wait is a minute all the same.
    pub fn connection_ended(&mut self) -> (b: Backoff)
        ensures
            b.notify == ConnectionStatus::Reconnecting,
            b.secs == backoff_secs(old(self).retries as nat),
            final(self).status == ConnectionStatus::Reconnecting,
            final(self).retries == (if old(self).retries < u32::MAX {
                old(self).retries + 1
            } else {
                old(self).retries as int
            }),
            final(self).tick == old(self).tick,
    {
        self.status = ConnectionStatus::Reconnecting;
        let secs = backoff_delay(self.retries);
        if self.retries < u32::MAX {
            self.retries = self.retries + 1;
        }
        Backoff { notify: ConnectionStatus::Reconnecting, secs }
    }
}


/// While credentials are missing the `AuthError` status is told once: a
/// second look without credentials tells nothing.
pub proof fn lemma_auth_error_told_once(
    s0: ConnectionStatus,
    s1: ConnectionStatus,
    s2: ConnectionStatus,
    n1: Option<ConnectionStatus>,
    n2: Option<ConnectionStatus>,
)
    requires
        waits_for_credentials(s0, s1, n1),
        waits_for_credentials(s1, s2, n2),
    ensures
        n2 is None,
        s2 == ConnectionStatus::AuthError,
{
}

/// The wait between reconnects is at least a second and at most a minute.
pub proof fn lemma_backoff_bounds(retries: nat)
    ensures
        1 <= backoff_secs(retries) <= 60,
{
    lemma_two_pow_grows(0, retries);
}

/// More failures never mean a shorter wait.
pub proof fn lemma_backoff_monotone(a: nat, b: nat)
    requires
        a <= b,
    ensures
        backoff_secs(a) <= backoff_secs(b),
{
    lemma_two_pow_grows(a, b);
}

/// Each further failure doubles the wait, up to a minute.
pub proof fn lemma_backoff_doubles(retries: nat)
    ensures
        backoff_secs(retries + 1) == if 2 * backoff_secs(retries) < 60 {
            2 * backoff_secs(retries)
        } else {
            60
        },
{
    assert(two_pow(retries + 1) == 2 * two_pow(retries));
}

/// The waits after a successful connection are 1, 2, 4, 8, 16 and 32
/// seconds, and a minute from then on.
pub proof fn lemma_backoff_sequence(retries: nat)
    ensures
        retries == 0 ==> backoff_secs(retries) == 1,
        retries == 1 ==> backoff_secs(retries) == 2,
        retries == 2 ==> backoff_secs(retries) == 4,
        retries == 3 ==> backoff_secs(retries) == 8,
        retries == 4 ==> backoff_secs(retries) == 16,
        retries == 5 ==> backoff_secs(retries) == 32,
        retries >= 6 ==> backoff_secs(retries) == 60,
{
    reveal_with_fuel(two_pow, 7);
    if retries >= 6 {
        lemma_two_pow_grows(6, retries);
    }
}

/// Replacing leaves a prefix alone when none of its characters can start
/// the pattern.
pub proof fn lemma_replace_keeps_prefix(p: Seq<char>, x: Seq<char>, from: Seq<char>, to: Seq<char>)
    requires
        from.len() > 0,
        forall|i: int| 0 <= i < p.len() ==> p[i] != from[0],
    ensures
        replace_all(p + x, from, to) == p + replace_all(x, from, to),
    decreases p.len(),
{
    if p.len() > 0 {
        let s = p + x;
        if from.len() <= s.len() {
            assert(s.take(from.len() as int)[0] == s[0]);
        }
        assert(!starts_with(s, from));
        assert(s.drop_first() =~= p.drop_first() + x);
        lemma_replace_keeps_prefix(p.drop_first(), x, from, to);
        assert(seq![p[0]] + (p.drop_first() + replace_all(x, from, to)) =~= p + replace_all(
            x,
            from,
            to,
        ));
    } else {
        assert(p + x =~= x);
        assert(p + replace_all(x, from, to) =~= replace_all(x, from, to));
    }
}

/// A server reached over `https://` is reached over `wss://`.
pub proof fn lemma_https_server_gets_wss(server_url: Seq<char>, server_id: Seq<char>, token: Seq<char>)
    requires
        starts_with(server_url, "https://"@),
    ensures
        starts_with(daemon_address(server_url, server_id, token), "wss://"@),
{
    reveal_strlit("https://");
    reveal_strlit("http://");
    reveal_strlit("wss://");
    let rest = server_url.skip(8);
    let once = replace_all(rest, "https://"@, "wss://"@);
    assert(replace_all(server_url, "https://"@, "wss://"@) == "wss://"@ + once);
    lemma_replace_keeps_prefix("wss://"@, once, "http://"@, "ws://"@);
    let base = websocket_base(server_url);
    assert(base == "wss://"@ + replace_all(once, "http://"@, "ws://"@));
    let tail = "/ws/daemon/"@ + server_id + "?token="@ + token + "&serverId="@ + server_id;
    assert(daemon_address(server_url, server_id, token) =~= base + tail);
    assert((base + tail).take(6) =~= "wss://"@);
}

/// A server reached over `http://` is reached over `ws://`.
pub proof fn lemma_http_server_gets_ws(server_url: Seq<char>, server_id: Seq<char>, token: Seq<char>)
    requires
        starts_with(server_url, "http://"@),
    ensures
        starts_with(daemon_address(server_url, server_id, token), "ws://"@),
{
    reveal_strlit("https://");
    reveal_strlit("http://");
    reveal_strlit("ws://");
    let rest = server_url.skip(7);
    assert(server_url =~= "http://"@ + rest);
    assert(!starts_with(server_url, "https://"@)) by {
        if 8 <= server_url.len() {
            assert(server_url.take(8)[4] == ':');
        }
    }
    let h = seq!['h'];
    let ttp = "http://"@.drop_first();
    assert(server_url =~= h + (ttp + rest));
    assert(server_url.drop_first() =~= ttp + rest);
    lemma_replace_keeps_prefix(ttp, rest, "https://"@, "wss://"@);
    let once = replace_all(rest, "https://"@, "wss://"@);
    assert(replace_all(server_url, "https://"@, "wss://"@) =~= "http://"@ + once);
    let first = "http://"@ + once;
    assert(first.take(7) =~= "http://"@);
    assert(first.skip(7) =~= once);
    let base = websocket_base(server_url);
    assert(base == "ws://"@ + replace_all(once, "http://"@, "ws://"@));
    let tail = "/ws/daemon/"@ + server_id + "?token="@ + token + "&serverId="@ + server_id;
    assert(daemon_address(server_url, server_id, token) =~= base + tail);
    assert((base + tail).take(5) =~= "ws://"@);
}


/// Once a device is registered, the reconnect loop finds both credentials:
/// the token and the server it was given, so its next look connects to that
/// server's daemon address.
pub proof fn lemma_registered_device_connects(
    before: Config,
    after: Config,
    token: Seq<char>,
    server_id: Seq<char>,
    device_name: Seq<char>,
)
    requires
        device_registered(before, after, token, server_id, device_name),
    ensures
        (after.access_token, after.server_id) matches (Some(t), Some(s)) && t@ == token && s@
            == server_id,
        after.server_url == before.server_url,
{
}

} // verus!
