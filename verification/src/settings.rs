//! Process-wide configuration, loaded once at startup and passed explicitly
//! into the token codec and the endpoints — never read from ambient global
//! state.
//!
//! Parsing the configuration file is left to the surrounding program; this
//! crate only defines the plain shapes it consumes.

use vstd::prelude::*;

verus! {

/// Where the HTTP server binds.
#[derive(Debug, Clone)]
pub struct HttpSettings {
    pub bind: String,
    pub port: u16,
}

/// How the backing store is reached.
#[derive(Debug, Clone)]
pub struct DatabaseSettings {
    pub name: String,
    pub host: String,
    pub user: String,
    pub password: String,
    pub pool_size: u32,
}

/// The token signing secret and the expiry window of regular tokens.
#[derive(Debug, Clone)]
pub struct TokenSettings {
    pub secret: String,
    pub expiration_hours: i64,
}

/// The out-of-band root bootstrap credentials and the (typically short)
/// expiry window of root tokens.
#[derive(Debug, Clone)]
pub struct RootSettings {
    pub email: String,
    pub password: String,
    pub expiration_minutes: i64,
}

/// The whole configuration.
#[derive(Debug, Clone)]
pub struct Settings {
    pub http: HttpSettings,
    pub database: DatabaseSettings,
    pub token: TokenSettings,
    pub root: RootSettings,
}

/// The bind address and port of the legacy configuration shape.
#[derive(Debug, Clone)]
pub struct GeneralConfig {
    pub ip: String,
    pub port: u32,
}

/// The store parameters of the legacy configuration shape.
#[derive(Debug, Clone)]
pub struct DatabaseConfig {
    pub name: String,
    pub host: String,
    pub user: String,
    pub password: String,
}

/// The legacy configuration shape, kept for compatibility.
#[derive(Debug, Clone)]
pub struct Config {
    pub general: GeneralConfig,
    pub database: DatabaseConfig,
}

} // verus!
