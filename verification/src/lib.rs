//! Layered article backend: record types, repository and service capability
//! interfaces, and an in-memory repository implementation, with the storage
//! semantics (identity assignment, lookup, pagination) stated as contracts.

pub mod domain;
pub mod handlers;
pub mod laws;
pub mod repositories;
pub mod services;

use vstd::prelude::*;

verus! {

/// Startup configuration: where the server listens and which store it uses.
pub struct AppConfig {
    pub host: String,
    pub port: String,
    pub db_url: String,
}

impl AppConfig {
    /// Applies the startup defaults: a missing host falls back to `0.0.0.1`,
    /// a missing port to `8000`; the store URL has no default.
    pub fn resolve(host: Option<String>, port: Option<String>, db_url: String) -> (c: AppConfig)
        ensures
            match host {
                Some(h) => c.host == h,
                None => c.host@ == "0.0.0.1"@,
            },
            match port {
                Some(p) => c.port == p,
                None => c.port@ == "8000"@,
            },
            c.db_url == db_url,
    {
        AppConfig {
            host: match host {
                Some(h) => h,
                None => "0.0.0.1".to_owned(),
            },
            port: match port {
                Some(p) => p,
                None => "8000".to_owned(),
            },
            db_url,
        }
    }
}

} // verus!
