//! Service configuration: what the pipeline is built from at startup. The
//! concurrency capacity falls back to a fixed default when not configured.

use vstd::prelude::*;

verus! {

/// The permit capacity used when none is configured.
pub const DEFAULT_MAX_CONCURRENT_CONNECTIONS: usize = 3;

/// Settings of the service itself.
pub struct ServiceConfig {
    pub bind_address: String,
    pub max_concurrent_connections: Option<usize>,
    pub request_timeout_milliseconds: u64,
}

/// Settings of the database collaborator.
pub struct DatabaseConfig {
    pub postgres_connection_string: String,
    pub connection_timeout_secs: Option<u64>,
}

/// The whole startup configuration, including the identity table.
pub struct Config {
    pub service: ServiceConfig,
    pub database: DatabaseConfig,
    pub apikeys: Vec<(String, String)>,
}

impl ServiceConfig {
    /// The permit capacity the admission controller is built with: the
    /// configured value, or the default where none was given.
    pub fn effective_max_connections(&self) -> (n: usize)
        ensures
            n == match self.max_concurrent_connections {
                Some(m) => m as int,
                None => DEFAULT_MAX_CONCURRENT_CONNECTIONS as int,
            },
    {
        match self.max_concurrent_connections {
            Some(m) => m,
            None => DEFAULT_MAX_CONCURRENT_CONNECTIONS,
        }
    }
}

} // verus!
