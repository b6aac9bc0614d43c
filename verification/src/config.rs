//! The start-up configuration: two settings, both required.
//!
//! Looking the settings up is left to the caller; what is decided here is
//! whether the values found make a configuration, and which setting is
//! reported when they do not.

use vstd::prelude::*;

verus! {

/// The name of the setting that holds the database connection string.
pub const DATABASE_URL: &'static str = "DATABASE_URL";

/// The name of the setting that holds the address of the HTTP listener.
pub const HTTP_SERVER_ADDR: &'static str = "HTTP_SERVER_ADDR";

/// The settings the service runs with.
#[derive(Debug, PartialEq, Eq)]
pub struct Config {
    pub http_server_addr: String,
    pub database_url: String,
}

/// A required setting that was not found.
#[derive(Debug, Clone, Copy, PartialEq, Eq, Structural)]
pub enum ConfigError {
    MissingDatabaseUrl,
    MissingHttpServerAddr,
}

/// The configuration that the values found give. The database setting is
/// looked at first, so it is the one reported when both are missing.
pub open spec fn configured(database_url: Option<String>, http_server_addr: Option<String>) -> Result<
    Config,
    ConfigError,
> {
    match (database_url, http_server_addr) {
        (None, _) => Err(ConfigError::MissingDatabaseUrl),
        (Some(_), None) => Err(ConfigError::MissingHttpServerAddr),
        (Some(url), Some(addr)) => Ok(Config { http_server_addr: addr, database_url: url }),
    }
}

/// The name of the setting that an error is about.
pub open spec fn missing_setting(error: ConfigError) -> Seq<char> {
    match error {
        ConfigError::MissingDatabaseUrl => DATABASE_URL@,
        ConfigError::MissingHttpServerAddr => HTTP_SERVER_ADDR@,
    }
}

/// The diagnostic for an error.
pub open spec fn diagnostic(error: ConfigError) -> Seq<char> {
    match error {
        ConfigError::MissingDatabaseUrl => "DATABASE_URL must be set in the environment"@,
        ConfigError::MissingHttpServerAddr => "HTTP_SERVER_ADDR must be set in the environment"@,
    }
}

impl Config {
    /// Makes a configuration of the values found for the two settings, or
    /// says which one is missing.
    pub fn from_vars(database_url: Option<String>, http_server_addr: Option<String>) -> (config:
        Result<Config, ConfigError>)
        ensures
            config == configured(database_url, http_server_addr),
    {
        match database_url {
            None => Err(ConfigError::MissingDatabaseUrl),
            Some(url) => match http_server_addr {
                None => Err(ConfigError::MissingHttpServerAddr),
                Some(addr) => Ok(Config { http_server_addr: addr, database_url: url }),
            },
        }
    }
}

impl ConfigError {
    /// The name of the missing setting.
    pub fn setting(&self) -> (name: &'static str)
        ensures
            name@ == missing_setting(*self),
    {
        match self {
            ConfigError::MissingDatabaseUrl => DATABASE_URL,
            ConfigError::MissingHttpServerAddr => HTTP_SERVER_ADDR,
        }
    }

    /// The message to abort the process with.
    pub fn message(&self) -> (text: &'static str)
        ensures
            text@ == diagnostic(*self),
    {
        match self {
            ConfigError::MissingDatabaseUrl => "DATABASE_URL must be set in the environment",
            ConfigError::MissingHttpServerAddr => "HTTP_SERVER_ADDR must be set in the environment",
        }
    }
}

} // verus!
