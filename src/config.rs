//! Server and store settings.

use vstd::prelude::*;

verus! {

/// The host the server binds to when none is configured.
pub const DEFAULT_HOST: &'static str = "127.0.0.1";

/// The port the server binds to when none is configured.
pub const DEFAULT_PORT: i32 = 5665;

/// Where the server listens.
pub struct Config {
    pub host: String,
    pub port: i32,
}

impl Config {
    /// The settings from the configured values, with the defaults for those
    /// that are not set.
    pub fn from_values(host: Option<String>, port: Option<i32>) -> (c: Self)
        ensures
            host matches Some(h) ==> c.host == h,
            host is None ==> c.host@ == DEFAULT_HOST@,
            port matches Some(p) ==> c.port == p,
            port is None ==> c.port == DEFAULT_PORT,
    {
        let host = match host {
            Some(h) => h,
            None => DEFAULT_HOST.to_owned(),
        };
        let port = match port {
            Some(p) => p,
            None => DEFAULT_PORT,
        };
        Config { host, port }
    }
}

/// The location of the credential store.
pub struct DbConfig {
    database: String,
}

impl DbConfig {
    /// The location of the store.
    pub closed spec fn database(&self) -> Seq<char> {
        self.database@
    }

    /// Settings for the store at `database`.
    pub fn new(database: &str) -> (c: Self)
        ensures
            c.database() == database@,
    {
        DbConfig { database: database.to_owned() }
    }

    /// The location of the store.
    pub fn get_database(&self) -> (r: &str)
        ensures
            r@ == self.database(),
    {
        self.database.as_str()
    }
}

} // verus!
