//! Startup configuration: the bind address with its fallback, and the
//! mandatory database connection string.
//!
//! The caller reads the process environment and hands the two raw values in
//! as `Option`s; the decisions — which address to bind, and whether startup
//! may proceed at all — are made and specified here.

use vstd::prelude::*;

verus! {

/// The one fatal configuration error: the database connection string is
/// absent. Startup must abort before any listener is bound.
#[derive(Clone, Copy, PartialEq, Eq, Structural, Debug)]
pub enum ConfigError {
    MissingMongoUri,
}

impl ConfigError {
    /// The message the process aborts with.
    pub fn message(&self) -> (r: String)
        ensures
            r@ == "MongoDB URI not set"@,
    {
        "MongoDB URI not set".to_owned()
    }
}

/// The resolved startup configuration.
pub struct Config {
    /// The `host:port` the HTTP listener binds to.
    pub server_address: String,
    /// The database connection string.
    pub mongo_uri: String,
}

/// The address the listener binds to when the environment names none.
pub open spec fn default_server_address() -> Seq<char> {
    "127.0.0.1:8080"@
}

/// The bind address that a given environment value resolves to: the value
/// itself when one is set, the fixed default otherwise.
pub open spec fn resolved_server_address(env_value: Option<String>) -> Seq<char> {
    match env_value {
        Some(a) => a@,
        None => default_server_address(),
    }
}

/// Resolves the bind address from the environment's value, falling back to
/// the default when the variable is unset.
pub fn resolve_server_address(env_value: Option<String>) -> (r: String)
    ensures
        r@ == resolved_server_address(env_value),
{
    match env_value {
        Some(a) => a,
        None => "127.0.0.1:8080".to_owned(),
    }
}

/// Resolves the whole startup configuration from the environment's two
/// values. The connection string is mandatory: exactly when it is absent,
/// no configuration is produced and startup must abort. The bind address is
/// optional and falls back to the fixed default.
pub fn load_config(server_address: Option<String>, mongo_uri: Option<String>) -> (r: Result<
    Config,
    ConfigError,
>)
    ensures
        r is Ok <==> mongo_uri is Some,
        mongo_uri matches Some(u) ==> (r matches Ok(c) && c.mongo_uri@ == u@
            && c.server_address@ == resolved_server_address(server_address)),
        mongo_uri is None ==> r == Err::<Config, ConfigError>(ConfigError::MissingMongoUri),
{
    match mongo_uri {
        Some(u) => Ok(
            Config { server_address: resolve_server_address(server_address), mongo_uri: u },
        ),
        None => Err(ConfigError::MissingMongoUri),
    }
}

} // verus!
