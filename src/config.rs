//! Server configuration: identity, logging, transport, credentials and the
//! path sandbox.

use vstd::prelude::*;
use vstd::string::StringExecFns;
use crate::text::str_equals;
use crate::transport_config::{env_selects, TransportConfig, TransportEnv};

verus! {

/// How the server names itself to clients.
#[derive(Debug, Clone)]
pub struct ServerConfig {
    pub name: String,
    pub version: String,
}

/// Settings of the resources domain.
#[derive(Debug, Clone)]
pub struct ResourcesConfig {
    /// Base directory of file resources, if any.
    pub base_path: Option<String>,
}

/// Settings of the prompts domain (none so far).
#[derive(Debug, Clone)]
pub struct PromptsConfig {}

/// Logging settings.
#[derive(Debug, Clone)]
pub struct LoggingConfig {
    /// Level filter, such as `info` or `debug`.
    pub level: String,
    pub with_timestamps: bool,
}

/// Keys for outside services.
#[derive(Clone)]
pub struct CredentialsConfig {
    /// Key of the audio fingerprint service.
    pub acoustid_api_key: Option<String>,
}

/// The path sandbox: an optional root directory and the symlink policy.
#[derive(Debug, Clone)]
pub struct SecurityConfig {
    /// Directory outside of which no path may resolve; `None` turns the
    /// sandbox off.
    pub root_path: Option<String>,
    /// Whether a symlink may point outside the root (its resolved path is
    /// still checked).
    pub allow_symlinks: bool,
}

/// The whole server configuration. It has no debug rendering of its own:
/// use `redacted_debug` for the credentials.
#[derive(Clone)]
pub struct Config {
    pub server: ServerConfig,
    pub resources: ResourcesConfig,
    pub prompts: PromptsConfig,
    pub logging: LoggingConfig,
    pub transport: TransportConfig,
    pub credentials: CredentialsConfig,
    pub security: SecurityConfig,
}

/// Public demonstration key of the fingerprint service, used when none is
/// configured.
pub open spec fn default_acoustid_key() -> Seq<char> {
    "Kok2GHQlrAg"@
}

impl CredentialsConfig {
    /// The debug rendering of the credentials, with any key replaced by a
    /// marker so that it never reaches a log.
    pub fn redacted_debug(&self) -> (r: String)
        ensures
            self.acoustid_api_key is Some ==> r@ == "CredentialsConfig { acoustid_api_key: Some(\"[REDACTED]\") }"@,
            self.acoustid_api_key is None ==> r@ == "CredentialsConfig { acoustid_api_key: None }"@,
    {
        match &self.acoustid_api_key {
            Some(_) => String::from_str("CredentialsConfig { acoustid_api_key: Some(\"[REDACTED]\") }"),
            None => String::from_str("CredentialsConfig { acoustid_api_key: None }"),
        }
    }
}

impl Default for CredentialsConfig {
    fn default() -> (r: CredentialsConfig)
        ensures
            r.acoustid_api_key is Some,
            r.acoustid_api_key->Some_0@ == default_acoustid_key(),
    {
        CredentialsConfig { acoustid_api_key: Some(String::from_str("Kok2GHQlrAg")) }
    }
}

impl Default for SecurityConfig {
    fn default() -> (r: SecurityConfig)
        ensures
            r.root_path is None,
            r.allow_symlinks,
    {
        SecurityConfig { root_path: None, allow_symlinks: true }
    }
}

/// Values of the default configuration.
pub open spec fn is_default_config(c: Config) -> bool {
    &&& c.server.name@ == "mcp-server"@
    &&& c.server.version@ == "0.1.0"@
    &&& c.resources.base_path is None
    &&& c.logging.level@ == "info"@
    &&& c.logging.with_timestamps
    &&& c.transport is Stdio
    &&& c.credentials.acoustid_api_key is Some
    &&& c.credentials.acoustid_api_key->Some_0@ == default_acoustid_key()
    &&& c.security.root_path is None
    &&& c.security.allow_symlinks
}

impl Default for Config {
    fn default() -> (r: Config)
        ensures
            is_default_config(r),
    {
        Config {
            server: ServerConfig {
                name: String::from_str("mcp-server"),
                version: String::from_str("0.1.0"),
            },
            resources: ResourcesConfig { base_path: None },
            prompts: PromptsConfig {},
            logging: LoggingConfig { level: String::from_str("info"), with_timestamps: true },
            transport: TransportConfig::default(),
            credentials: CredentialsConfig::default(),
            security: SecurityConfig::default(),
        }
    }
}

/// The environment variables that the configuration reads (`None`: not
/// set).
#[derive(Debug, Clone)]
pub struct ConfigEnv {
    pub server_name: Option<String>,
    pub log_level: Option<String>,
    pub resources_base_path: Option<String>,
    pub acoustid_api_key: Option<String>,
    pub root_path: Option<String>,
    pub allow_symlinks: Option<String>,
    pub transport: TransportEnv,
}

/// The symlink policy that a setting names: only the word `false` turns
/// symlinks off.
pub open spec fn symlink_setting(v: Option<String>) -> bool {
    match v {
        Some(s) => s@ != "false"@,
        None => true,
    }
}

impl Config {
    /// The default configuration.
    pub fn new() -> (r: Config)
        ensures
            is_default_config(r),
    {
        Config::default()
    }

    /// The configuration that the environment gives: each variable that is
    /// set replaces its default.
    pub fn from_env(env: &ConfigEnv) -> (r: Config)
        ensures
            r.server.name@ == (match env.server_name { Some(s) => s@, None => "mcp-server"@ }),
            r.server.version@ == "0.1.0"@,
            r.logging.with_timestamps,
            r.logging.level@ == (match env.log_level { Some(s) => s@, None => "info"@ }),
            r.resources.base_path == env.resources_base_path,
            env_selects(env.transport, r.transport),
            env.acoustid_api_key is Some ==> r.credentials.acoustid_api_key == env.acoustid_api_key,
            env.acoustid_api_key is None ==> r.credentials.acoustid_api_key is Some
                && r.credentials.acoustid_api_key->Some_0@ == default_acoustid_key(),
            r.security.root_path == env.root_path,
            r.security.allow_symlinks == symlink_setting(env.allow_symlinks),
    {
        proof {
            reveal_strlit("false");
        }
        let mut config = Config::default();
        if let Some(name) = &env.server_name {
            config.server.name = name.clone();
        }
        if let Some(level) = &env.log_level {
            config.logging.level = level.clone();
        }
        config.resources.base_path = env.resources_base_path.clone();
        config.transport = TransportConfig::from_env(&env.transport);
        if let Some(key) = &env.acoustid_api_key {
            config.credentials.acoustid_api_key = Some(key.clone());
        }
        config.security.root_path = env.root_path.clone();
        if let Some(v) = &env.allow_symlinks {
            config.security.allow_symlinks = !str_equals(v.as_str(), "false");
        }
        config
    }
}

} // verus!
