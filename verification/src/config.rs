//! The configured systems.
//!
//! Reading and parsing the configuration file is outside this crate; what
//! arrives here are the plain records it yields.  An [`IniSystem`] is one
//! gateway as configured; a [`System`] is the same record once the
//! credential exchange has run for it, carrying its bearer token — the
//! empty string where the exchange failed.  Tokens are obtained once, at
//! startup, and never refreshed.

use vstd::prelude::*;

verus! {

/// The configuration as loaded: an optional listen port and the systems.
pub struct IniConfig {
    pub listen_port: Option<u32>,
    pub systems: Vec<IniSystem>,
}

/// One gateway as configured: identity, base address, credentials and
/// serial number.
#[derive(Debug, Clone)]
pub struct IniSystem {
    pub host: String,
    pub url: String,
    pub user: String,
    pub pass: String,
    pub sn: String,
}

/// One gateway ready to be scraped: its configuration plus the bearer
/// token of the startup credential exchange.
#[derive(Debug, Clone)]
pub struct System {
    pub host: String,
    pub url: String,
    pub user: String,
    pub pass: String,
    pub sn: String,
    pub token: String,
}

impl System {
    /// A configured system together with the token its exchange yielded:
    /// every configured field is carried over unchanged.
    pub fn with_token(ini: IniSystem, token: String) -> (r: System)
        ensures
            r.host@ == ini.host@,
            r.url@ == ini.url@,
            r.user@ == ini.user@,
            r.pass@ == ini.pass@,
            r.sn@ == ini.sn@,
            r.token@ == token@,
    {
        System {
            host: ini.host,
            url: ini.url,
            user: ini.user,
            pass: ini.pass,
            sn: ini.sn,
            token,
        }
    }
}

} // verus!
