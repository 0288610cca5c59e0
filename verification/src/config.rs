//! Process configuration: a storage connection string and a listening port.
//!
//! Reading the environment is the boundary layer's job; this module holds the
//! configuration value itself and the rule that resolves a missing or
//! unparsable port to the default.

use vstd::prelude::*;

verus! {

/// The default listening port used when none is configured.
pub const DEFAULT_PORT: u16 = 8080;

/// Configuration consumed at startup.
pub struct Config {
    pub database_url: String,
    pub port: u16,
}

impl Config {
    /// Builds a configuration from an already-read connection string and an
    /// optionally-parsed port, falling back to the default port.
    pub fn new(database_url: String, port: Option<u16>) -> (c: Config)
        ensures
            c.database_url == database_url,
            c.port == resolve_port(port),
    {
        let p: u16 = match port {
            Some(p) => p,
            None => DEFAULT_PORT,
        };
        Config { database_url, port: p }
    }
}

/// The configured port, or the default where none was given.
pub open spec fn resolve_port(port: Option<u16>) -> u16 {
    match port {
        Some(p) => p,
        None => DEFAULT_PORT,
    }
}

} // verus!
