//! The relay's configuration, checked once at startup.

use crate::decimal::{parse_i64, parsed, render_i64, rendered};
use vstd::prelude::*;
use vstd::string::*;

verus! {

/// The port to listen on where none is configured.
pub const DEFAULT_PORT: i64 = 3000;

/// The host to listen on: every interface.
pub const LISTEN_HOST: &'static str = "0.0.0.0";

/// Why the relay cannot start.
#[derive(Debug, Clone, Copy, PartialEq, Eq, Structural)]
pub enum ConfigError {
    /// The configured port is not the decimal text of a 64-bit integer.
    InvalidPort,
    /// No bot access token is configured.
    MissingToken,
    /// No operator is configured.
    MissingAdmin,
    /// No feed address is configured.
    MissingFeedUrl,
    /// No database address is configured.
    MissingDatabaseUrl,
}

/// The configuration: built once, handed on, never changed.
#[derive(Debug, Clone, PartialEq, Eq)]
pub struct Config {
    /// The port that the liveness endpoint listens on.
    pub port: i64,
    /// The bot's access token.
    pub token: String,
    /// The operator's username.
    pub admin: String,
    /// The address of the content feed.
    pub feed_url: String,
    /// The address of the subscriber database.
    pub database_url: String,
}

/// A [`Config`] as the contracts see it.
pub struct ConfigView {
    pub port: i64,
    pub token: Seq<char>,
    pub admin: Seq<char>,
    pub feed_url: Seq<char>,
    pub database_url: Seq<char>,
}

impl View for Config {
    type V = ConfigView;

    open spec fn view(&self) -> ConfigView {
        ConfigView {
            port: self.port,
            token: self.token@,
            admin: self.admin@,
            feed_url: self.feed_url@,
            database_url: self.database_url@,
        }
    }
}

/// The port for a configured value: the default where there is none, else the
/// number that the value denotes.
pub open spec fn port_of(raw: Option<Seq<char>>) -> Result<i64, ConfigError> {
    match raw {
        None => Ok(DEFAULT_PORT),
        Some(text) => match parsed(text) {
            Some(port) => Ok(port),
            None => Err(ConfigError::InvalidPort),
        },
    }
}

/// The configuration for the values found. The port is checked first, then
/// the presence of the token, the operator, the feed address and the database
/// address, in this order; the first check that fails gives the error.
pub open spec fn configured(
    port: Option<Seq<char>>,
    token: Option<Seq<char>>,
    admin: Option<Seq<char>>,
    feed_url: Option<Seq<char>>,
    database_url: Option<Seq<char>>,
) -> Result<ConfigView, ConfigError> {
    match port_of(port) {
        Err(error) => Err(error),
        Ok(port) => if token is None {
            Err(ConfigError::MissingToken)
        } else if admin is None {
            Err(ConfigError::MissingAdmin)
        } else if feed_url is None {
            Err(ConfigError::MissingFeedUrl)
        } else if database_url is None {
            Err(ConfigError::MissingDatabaseUrl)
        } else {
            Ok(
                ConfigView {
                    port,
                    token: token->0,
                    admin: admin->0,
                    feed_url: feed_url->0,
                    database_url: database_url->0,
                },
            )
        },
    }
}

/// The address `host:port` of the liveness endpoint.
pub open spec fn address_of(port: i64) -> Seq<char> {
    LISTEN_HOST@ + ":"@ + rendered(port as int)
}

/// Reads the configured port.
pub fn listen_port(raw: Option<&str>) -> (port: Result<i64, ConfigError>)
    ensures
        port == port_of(raw.deep_view()),
{
    match raw {
        None => Ok(DEFAULT_PORT),
        Some(text) => match parse_i64(text) {
            Some(port) => Ok(port),
            None => Err(ConfigError::InvalidPort),
        },
    }
}

/// Writes the address to listen on.
pub fn listen_address(port: i64) -> (address: String)
    ensures
        address@ == address_of(port),
{
    let mut address = LISTEN_HOST.to_owned();
    address.append(":");
    let digits = render_i64(port);
    address.append(digits.as_str());
    address
}

impl Config {
    /// Builds the configuration from the values found in the environment.
    pub fn from_values(
        port: Option<String>,
        token: Option<String>,
        admin: Option<String>,
        feed_url: Option<String>,
        database_url: Option<String>,
    ) -> (config: Result<Config, ConfigError>)
        ensures
            match config {
                Ok(built) => Ok(built@),
                Err(error) => Err(error),
            } == configured(
                port.deep_view(),
                token.deep_view(),
                admin.deep_view(),
                feed_url.deep_view(),
                database_url.deep_view(),
            ),
    {
        let port = match &port {
            None => listen_port(None),
            Some(text) => listen_port(Some(text.as_str())),
        };
        let port = match port {
            Ok(port) => port,
            Err(error) => {
                return Err(error);
            },
        };
        let token = match token {
            Some(token) => token,
            None => {
                return Err(ConfigError::MissingToken);
            },
        };
        let admin = match admin {
            Some(admin) => admin,
            None => {
                return Err(ConfigError::MissingAdmin);
            },
        };
        let feed_url = match feed_url {
            Some(feed_url) => feed_url,
            None => {
                return Err(ConfigError::MissingFeedUrl);
            },
        };
        let database_url = match database_url {
            Some(database_url) => database_url,
            None => {
                return Err(ConfigError::MissingDatabaseUrl);
            },
        };
        Ok(Config { port, token, admin, feed_url, database_url })
    }
}

} // verus!
