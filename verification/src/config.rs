//! The daemon's settings: where the server is, what this device is called,
//! which server it is registered with, and the access token.

use vstd::prelude::*;
use crate::host::{or_fallback, system_hostname, found_or};
use crate::tools::opt_view;

verus! {

/// The settings kept on disk between runs.
#[derive(Debug, Clone)]
pub struct Config {
    pub server_url: String,
    pub device_name: String,
    pub server_id: Option<String>,
    /// OAuth access token, kept with the rest of the settings.
    pub access_token: Option<String>,
}

/// The server that a fresh installation talks to.
pub open spec fn default_server_url() -> Seq<char> {
    "https://useflash.com"@
}

/// The device name used when the machine does not tell its host name.
pub open spec fn unknown_device_name() -> Seq<char> {
    "Unknown"@
}

/// The device name of a fresh installation, given what the host-name lookup
/// found: that name, or "Unknown" when it found none.
pub open spec fn device_name_for(host: Option<Seq<char>>) -> Seq<char> {
    found_or(host, unknown_device_name())
}

/// The settings of a fresh installation on a machine called `host`.
pub open spec fn is_fresh(c: Config, host: Seq<char>) -> bool {
    &&& c.server_url@ == default_server_url()
    &&& c.device_name@ == host
    &&& c.server_id is None
    &&& c.access_token is None
}

impl Config {
    /// The settings of a fresh installation whose device name is `device_name`.
    pub fn fresh(device_name: String) -> (c: Config)
        ensures
            is_fresh(c, device_name@),
    {
        Config {
            server_url: String::from_str("https://useflash.com"),
            device_name,
            server_id: None,
            access_token: None,
        }
    }

    /// The settings of a fresh installation, given what the host-name lookup
    /// found: named after the host, or "Unknown" when it found none.
    pub fn fresh_for_host(host: Option<String>) -> (c: Config)
        ensures
            is_fresh(c, device_name_for(opt_view(host))),
    {
        Config::fresh(or_fallback(host, "Unknown"))
    }

    /// The settings to run with, given what was read from disk: the stored
    /// settings when they could be read and parsed, else fresh ones.
    pub fn from_stored(stored: Option<Config>) -> (c: Config)
        ensures
            stored matches Some(s) ==> c == s,
            stored is None ==> exists|host: Option<Seq<char>>| is_fresh(c, device_name_for(host)),
    {
        match stored {
            Some(s) => s,
            None => Config::default(),
        }
    }
}

impl Default for Config {
    /// Fresh settings, named after this machine (or "Unknown" when the
    /// host-name lookup finds none); which name the lookup finds is the
    /// machine's.
    fn default() -> (c: Config)
        ensures
            exists|host: Option<Seq<char>>| is_fresh(c, device_name_for(host)),
    {
        let found = system_hostname();
        let c = Config::fresh_for_host(found);
        assert(is_fresh(c, device_name_for(opt_view(found))));
        c
    }
}

} // verus!
