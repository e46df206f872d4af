//! Coordinator configuration, from the values of its environment
//! settings.

use vstd::prelude::*;

verus! {

/// Coordinator configuration.
pub struct Config {
    /// TCP socket the HTTP router binds.
    pub bind_addr: String,
    /// libp2p multiaddr the mesh listens on.
    pub libp2p_listen: String,
    pub database_url: String,
    pub redis_url: String,
    /// PEM TLS certificate supplied by the operator, if any.
    pub tls_cert_pem: Option<String>,
    /// PEM TLS private key matching `tls_cert_pem`, if any.
    pub tls_key_pem: Option<String>,
}

/// A setting that must be present is missing.
#[derive(Clone, Copy, PartialEq, Eq, Structural, Debug)]
pub enum ConfigError {
    /// `DATABASE_URL` is not set (required for receipts and job storage).
    MissingDatabaseUrl,
    /// `REDIS_URL` is not set (required for replay-nonce caching).
    MissingRedisUrl,
}

impl Config {
    /// Build the configuration from the values of `PINAIVU_BIND`,
    /// `PINAIVU_LIBP2P_LISTEN`, `DATABASE_URL`, `REDIS_URL`,
    /// `PINAIVU_TLS_CERT` and `PINAIVU_TLS_KEY` (each `None` when unset).
    /// The bind address defaults to `127.0.0.1:4000` and the listen
    /// address to `/ip4/0.0.0.0/tcp/0`; the database URL, then the Redis
    /// URL, must be present.
    pub fn from_values(
        bind: Option<String>,
        libp2p_listen: Option<String>,
        database_url: Option<String>,
        redis_url: Option<String>,
        tls_cert_pem: Option<String>,
        tls_key_pem: Option<String>,
    ) -> (r: Result<Config, ConfigError>)
        ensures
            database_url is None ==> r == Err::<Config, ConfigError>(ConfigError::MissingDatabaseUrl),
            database_url is Some && redis_url is None ==> r == Err::<Config, ConfigError>(ConfigError::MissingRedisUrl),
            database_url is Some && redis_url is Some ==> (r matches Ok(c) && {
                &&& c.bind_addr@ == (match bind { Some(b) => b@, None => "127.0.0.1:4000"@ })
                &&& c.libp2p_listen@ == (match libp2p_listen { Some(l) => l@, None => "/ip4/0.0.0.0/tcp/0"@ })
                &&& c.database_url == database_url->0
                &&& c.redis_url == redis_url->0
                &&& c.tls_cert_pem == tls_cert_pem
                &&& c.tls_key_pem == tls_key_pem
            }),
    {
        let bind_addr = match bind {
            Some(b) => b,
            None => "127.0.0.1:4000".to_string(),
        };
        let libp2p_listen = match libp2p_listen {
            Some(l) => l,
            None => "/ip4/0.0.0.0/tcp/0".to_string(),
        };
        let database_url = match database_url {
            Some(d) => d,
            None => return Err(ConfigError::MissingDatabaseUrl),
        };
        let redis_url = match redis_url {
            Some(u) => u,
            None => return Err(ConfigError::MissingRedisUrl),
        };
        Ok(Config { bind_addr, libp2p_listen, database_url, redis_url, tls_cert_pem, tls_key_pem })
    }

    /// Whether the operator supplied both a TLS certificate and its key.
    pub fn has_tls_certs(&self) -> (b: bool)
        ensures
            b == (self.tls_cert_pem is Some && self.tls_key_pem is Some),
    {
        self.tls_cert_pem.is_some() && self.tls_key_pem.is_some()
    }
}

} // verus!
