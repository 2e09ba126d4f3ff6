//! The server's configuration: what it holds, where it is read from, and the
//! rule that it is read once.
use vstd::prelude::*;

verus! {

/// The Auth0 settings.
pub struct Auth0 {
    pub client_id: String,
    pub client_secret: String,
    pub token_endpoint: String,
    pub api_endpoint: String,
    pub api_signing_secret: String,
}

/// The configuration of the server.
pub struct Config {
    pub logging_directive: String,
    pub tcp_port: u16,
    pub allowed_origins: Vec<String>,
    pub graceful_shutdown_timeout_sec: u64,
    pub max_payload_size_bytes: usize,
    pub database_connection_pool_size: u32,
    pub database_connection_timeout_sec: u64,
    pub database_url: String,
    pub auth0: Auth0,
}

/// Where the configuration is read from: a file at a path, or RON text given directly.
pub enum ConfigSource {
    File { path: String },
    Text { ron: String },
}

/// Neither of the two places the configuration can come from was given.
#[derive(Clone, Copy, Debug, PartialEq, Eq, Structural)]
pub enum ConfigError {
    NeitherPathNorTextSet,
}

/// Chooses where to read the configuration from, given the values of the
/// `CONFIG_PATH` and `CONFIG` environment variables: the file named by
/// `CONFIG_PATH` when it is set, else the text of `CONFIG`.
pub fn config_source(config_path: Option<String>, config: Option<String>) -> (r: Result<
    ConfigSource,
    ConfigError,
>)
    ensures
        config_path matches Some(p) ==> r == Ok::<ConfigSource, ConfigError>(ConfigSource::File { path: p }),
        config_path is None ==> (config matches Some(t) ==> r == Ok::<ConfigSource, ConfigError>(
            ConfigSource::Text { ron: t },
        )),
        config_path is None && config is None ==> r == Err::<ConfigSource, ConfigError>(
            ConfigError::NeitherPathNorTextSet,
        ),
{
    match config_path {
        Some(path) => Ok(ConfigSource::File { path }),
        None => match config {
            Some(ron) => Ok(ConfigSource::Text { ron }),
            None => Err(ConfigError::NeitherPathNorTextSet),
        },
    }
}

impl ConfigError {
    /// The message the server stops with.
    pub fn message(&self) -> (s: String)
        ensures
            s@ == "Neither CONFIG_PATH nor CONFIG env vars were set."@,
    {
        "Neither CONFIG_PATH nor CONFIG env vars were set.".to_string()
    }
}

/// Returns the server's configuration, loading it with `init` the first time:
/// a configuration already held is returned as it is and never replaced.
pub fn server_config<F: FnOnce() -> Config>(cell: &mut Option<Config>, init: F) -> (c: &Config)
    requires
        *old(cell) is None ==> call_requires(init, ()),
    ensures
        *old(cell) is Some ==> *final(cell) == *old(cell),
        *old(cell) is None ==> (*final(cell) matches Some(v) && call_ensures(init, (), v)),
        *final(cell) matches Some(v) && *c == v,
{
    if cell.is_none() {
        let loaded = init();
        *cell = Some(loaded);
    }
    match cell {
        Some(v) => v,
        None => vstd::pervasive::unreached(),
    }
}

} // verus!
