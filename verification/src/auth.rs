//! The access token and device registration, as changes to the settings.
//! Reading the settings from disk and writing them back is the caller's part.

use vstd::prelude::*;
use crate::config::Config;

verus! {

/// The token held in `c`, by its characters.
pub open spec fn token_of(c: Config) -> Option<Seq<char>> {
    match c.access_token {
        Some(t) => Some(t@),
        None => None,
    }
}

/// `after` is `before` with every field but the token left as it was.
pub open spec fn same_but_token(before: Config, after: Config) -> bool {
    &&& after.server_url == before.server_url
    &&& after.device_name == before.device_name
    &&& after.server_id == before.server_id
}

/// `after` is `before` holding the token `token`.
pub open spec fn token_stored(before: Config, after: Config, token: Seq<char>) -> bool {
    same_but_token(before, after) && token_of(after) == Some(token)
}

/// `after` is `before` holding no token.
pub open spec fn token_deleted(before: Config, after: Config) -> bool {
    same_but_token(before, after) && after.access_token is None
}

/// Keeps `token` as the access token.
pub fn store_token(cfg: &mut Config, token: &str)
    ensures
        token_stored(*old(cfg), *final(cfg), token@),
{
    cfg.access_token = Some(String::from_str(token));
}

/// The access token, when one is kept.
pub fn get_token(cfg: &Config) -> (t: Option<String>)
    ensures
        t == cfg.access_token,
{
    match &cfg.access_token {
        Some(t) => Some(t.clone()),
        None => None,
    }
}

/// Forgets the access token.
pub fn delete_token(cfg: &mut Config)
    ensures
        token_deleted(*old(cfg), *final(cfg)),
{
    cfg.access_token = None;
}

/// Whether an access token is kept.
pub fn is_authenticated(cfg: &Config) -> (b: bool)
    ensures
        b == (cfg.access_token is Some),
{
    get_token(cfg).is_some()
}

/// `after` is `before` registered as device `device_name` of server
/// `server_id` with the token `token`; the server URL stays.
pub open spec fn device_registered(
    before: Config,
    after: Config,
    token: Seq<char>,
    server_id: Seq<char>,
    device_name: Seq<char>,
) -> bool {
    &&& after.server_url == before.server_url
    &&& token_of(after) == Some(token)
    &&& (after.server_id matches Some(s) && s@ == server_id)
    &&& after.device_name@ == device_name
}

/// Registers this machine: keeps the token, then records the server and the
/// device name.
pub fn register_device(cfg: &mut Config, access_token: &str, server_id: String, device_name: String)
    ensures
        device_registered(*old(cfg), *final(cfg), access_token@, server_id@, device_name@),
{
    store_token(cfg, access_token);
    cfg.server_id = Some(server_id);
    cfg.device_name = device_name;
}

/// A token that was stored is the token that is read back, and the settings
/// then count as signed in.
pub proof fn lemma_get_after_store(before: Config, after: Config, token: Seq<char>)
    requires
        token_stored(before, after, token),
    ensures
        token_of(after) == Some(token),
        after.access_token is Some,
{
}

/// After the token is deleted none is read back, and the settings count as
/// signed out.
pub proof fn lemma_get_after_delete(before: Config, after: Config)
    requires
        token_deleted(before, after),
    ensures
        token_of(after) is None,
        !(after.access_token is Some),
{
}

/// Storing a token and then deleting it leaves exactly what deleting alone
/// leaves: the other settings are never touched.
pub proof fn lemma_delete_undoes_store(c0: Config, c1: Config, c2: Config, d: Config, token: Seq<char>)
    requires
        token_stored(c0, c1, token),
        token_deleted(c1, c2),
        token_deleted(c0, d),
    ensures
        c2 == d,
{
}

/// Storing the same token twice leaves what storing it once leaves.
pub proof fn lemma_store_idempotent(c0: Config, c1: Config, c2: Config, token: Seq<char>)
    requires
        token_stored(c0, c1, token),
        token_stored(c1, c2, token),
    ensures
        same_but_token(c0, c2),
        token_of(c2) == token_of(c1),
{
}

/// A registered device holds the token and the server it was registered with.
pub proof fn lemma_registered_is_authenticated(
    before: Config,
    after: Config,
    token: Seq<char>,
    server_id: Seq<char>,
    device_name: Seq<char>,
)
    requires
        device_registered(before, after, token, server_id, device_name),
    ensures
        after.access_token is Some,
        token_of(after) == Some(token),
        after.server_id is Some,
{
}

} // verus!
