//! Process-wide configuration, built once from the values of the
//! environment and passed to every component that needs it.

use vstd::prelude::*;
use vstd::string::StringExecFns;
use crate::decimal::parse_u16;
use crate::decimal::parse_u32;
use crate::decimal::parse_unsigned;
use crate::text::option_text;
use crate::text::owned_or;
use crate::text::text_or;

verus! {

/// The connection limit used where none, or no number, is configured.
pub const DEFAULT_DB_MAX_CONNECTIONS: u32 = 5;

#[derive(Clone, Debug, PartialEq, Eq)]
pub struct AppConfig {
    pub database_url: String,
    pub port: u16,
    pub cors_origin: String,
    pub db_max_connections: u32,
    pub environment: String,
    pub admin_token: Option<String>,
    pub smtp_host: Option<String>,
    pub smtp_port: Option<u16>,
    pub smtp_username: Option<String>,
    pub smtp_password: Option<String>,
    pub admin_email: Option<String>,
    pub app_base_url: String,
}

/// The values of the environment variables that the configuration is built
/// from, each absent where the variable is not set.
#[derive(Clone, Debug, PartialEq, Eq)]
pub struct EnvValues {
    pub database_url: Option<String>,
    pub port: Option<String>,
    pub cors_origin: Option<String>,
    pub db_max_connections: Option<String>,
    pub environment: Option<String>,
    pub admin_token: Option<String>,
    pub smtp_host: Option<String>,
    pub smtp_port: Option<String>,
    pub smtp_username: Option<String>,
    pub smtp_password: Option<String>,
    pub admin_email: Option<String>,
    pub app_base_url: Option<String>,
}

/// Why no configuration could be built.
#[derive(Debug, Clone, Copy, PartialEq, Eq, Structural)]
pub enum ConfigError {
    /// `DATABASE_URL` is not set.
    MissingDatabaseUrl,
    /// `PORT` is set to something that is no number of sixteen bits.
    InvalidPort,
}

/// An optional text, taken as absent where it is empty.
pub open spec fn non_empty(o: Option<Seq<char>>) -> Option<Seq<char>> {
    match o {
        Some(s) => if s.len() > 0 {
            o
        } else {
            None
        },
        None => None,
    }
}

/// The port that the environment asks for: `8080` where it names none.
pub open spec fn port_of(env: EnvValues) -> Option<nat> {
    parse_unsigned(text_or(env.port, "8080"@), 0xFFFF)
}

/// The outcome owed for an environment.
pub open spec fn error_of(env: EnvValues) -> Option<ConfigError> {
    if env.database_url is None {
        Some(ConfigError::MissingDatabaseUrl)
    } else if port_of(env) is None {
        Some(ConfigError::InvalidPort)
    } else {
        None
    }
}

/// The configuration `c` is the one that the environment `env` describes.
pub open spec fn built_from(c: AppConfig, env: EnvValues) -> bool {
    &&& option_text(env.database_url) == Some(c.database_url@)
    &&& port_of(env) == Some(c.port as nat)
    &&& c.cors_origin@ == text_or(env.cors_origin, "*"@)
    &&& c.db_max_connections as nat == match parse_unsigned(
        text_or(env.db_max_connections, "5"@),
        0xFFFF_FFFF,
    ) {
        Some(n) => n,
        None => 5,
    }
    &&& c.environment@ == text_or(env.environment, "development"@)
    &&& option_text(c.admin_token) == non_empty(option_text(env.admin_token))
    &&& option_text(c.smtp_host) == non_empty(option_text(env.smtp_host))
    &&& match c.smtp_port {
        Some(p) => env.smtp_port is Some && parse_unsigned(env.smtp_port->0@, 0xFFFF) == Some(
            p as nat,
        ),
        None => env.smtp_port is None || parse_unsigned(env.smtp_port->0@, 0xFFFF) is None,
    }
    &&& option_text(c.smtp_username) == non_empty(option_text(env.smtp_username))
    &&& option_text(c.smtp_password) == non_empty(option_text(env.smtp_password))
    &&& option_text(c.admin_email) == non_empty(option_text(env.admin_email))
    &&& c.app_base_url@ == text_or(env.app_base_url, "http://localhost:4200"@)
}

fn keep_non_empty(o: &Option<String>) -> (r: Option<String>)
    ensures
        option_text(r) == non_empty(option_text(*o)),
{
    match o {
        Some(s) => {
            if s.as_str().is_empty() {
                None
            } else {
                Some(s.clone())
            }
        },
        None => None,
    }
}

impl ConfigError {
    /// The complaint as text.
    pub fn to_string(&self) -> (r: String)
        ensures
            r@ == match *self {
                ConfigError::MissingDatabaseUrl => "DATABASE_URL must be set"@,
                ConfigError::InvalidPort => "PORT must be a valid u16"@,
            },
    {
        match self {
            ConfigError::MissingDatabaseUrl => String::from_str("DATABASE_URL must be set"),
            ConfigError::InvalidPort => String::from_str("PORT must be a valid u16"),
        }
    }
}

impl AppConfig {
    /// Builds the configuration from the values of the environment.
    ///
    /// A database URL is required, and the port, where given, must be a
    /// number; every other value has a default or may be absent. Empty
    /// secrets and addresses count as absent.
    pub fn from_values(env: &EnvValues) -> (r: Result<AppConfig, ConfigError>)
        ensures
            match r {
                Ok(c) => error_of(*env) is None && built_from(c, *env),
                Err(e) => error_of(*env) == Some(e),
            },
    {
        let database_url = match &env.database_url {
            Some(u) => u.clone(),
            None => {
                return Err(ConfigError::MissingDatabaseUrl);
            },
        };
        let port_text = owned_or(&env.port, "8080");
        let port = match parse_u16(port_text.as_str()) {
            Some(p) => p,
            None => {
                return Err(ConfigError::InvalidPort);
            },
        };
        let connections_text = owned_or(&env.db_max_connections, "5");
        let db_max_connections = match parse_u32(connections_text.as_str()) {
            Some(n) => n,
            None => DEFAULT_DB_MAX_CONNECTIONS,
        };
        let smtp_port = match &env.smtp_port {
            Some(p) => parse_u16(p.as_str()),
            None => None,
        };
        Ok(
            AppConfig {
                database_url,
                port,
                cors_origin: owned_or(&env.cors_origin, "*"),
                db_max_connections,
                environment: owned_or(&env.environment, "development"),
                admin_token: keep_non_empty(&env.admin_token),
                smtp_host: keep_non_empty(&env.smtp_host),
                smtp_port,
                smtp_username: keep_non_empty(&env.smtp_username),
                smtp_password: keep_non_empty(&env.smtp_password),
                admin_email: keep_non_empty(&env.admin_email),
                app_base_url: owned_or(&env.app_base_url, "http://localhost:4200"),
            },
        )
    }

    /// Whether the environment is named `production`.
    pub fn is_production(&self) -> (r: bool)
        ensures
            r == (self.environment@ == "production"@),
    {
        let production = String::from_str("production");
        self.environment == production
    }
}

} // verus!
