//! Configuration settings for the framework's components, their defaults,
//! and the rule by which a loaded configuration is resolved.
use vstd::prelude::*;
use crate::mechaflow_core::error::{owned, Error, Result};

verus! {

/// General configuration
#[derive(Debug, Clone)]
pub struct GeneralConfig {
    /// Application name
    pub app_name: String,
    /// Application version
    pub app_version: String,
    /// Application environment (development, production, etc.)
    pub environment: String,
    /// Data directory
    pub data_dir: String,
}

/// Logging configuration
#[derive(Debug, Clone)]
pub struct LoggingConfig {
    /// Log level (trace, debug, info, warn, error)
    pub level: String,
    /// Whether to log to a file
    pub file_logging: bool,
    /// Log file path (if file_logging is true)
    pub log_file: String,
    /// Whether to log to stdout
    pub stdout: bool,
    /// Whether to use JSON format for logs
    pub json_format: bool,
}

/// Runtime configuration
#[derive(Debug, Clone)]
pub struct RuntimeConfig {
    /// Number of worker threads (0 means use number of available CPU cores)
    pub worker_threads: usize,
    /// Maximum number of concurrent tasks
    pub max_concurrent_tasks: usize,
    /// Timeout for operations in milliseconds (0 means no timeout)
    pub operation_timeout_ms: u64,
    /// Enable debugging features
    pub debug_mode: bool,
}

/// Security configuration
#[derive(Debug, Clone)]
pub struct SecurityConfig {
    /// Enable authentication
    pub authentication_enabled: bool,
    /// Enable authorization
    pub authorization_enabled: bool,
    /// Enable TLS
    pub tls_enabled: bool,
    /// TLS certificate path (if tls_enabled is true)
    pub tls_cert: String,
    /// TLS key path (if tls_enabled is true)
    pub tls_key: String,
}

/// Core configuration
#[derive(Debug, Clone)]
pub struct Config {
    /// General configuration
    pub general: GeneralConfig,
    /// Logging configuration
    pub logging: LoggingConfig,
    /// Runtime configuration
    pub runtime: RuntimeConfig,
    /// Security configuration
    pub security: SecurityConfig,
}

/// The default maximum number of concurrent tasks.
pub const DEFAULT_MAX_CONCURRENT_TASKS: usize = 100;

/// The general settings a configuration starts from.
pub open spec fn general_defaults(g: GeneralConfig) -> bool {
    &&& g.app_name@ == "mechaflow"@
    &&& g.app_version@ == "0.1.0"@
    &&& g.environment@ == "development"@
    &&& g.data_dir@ == "./data"@
}

/// The logging settings a configuration starts from.
pub open spec fn logging_defaults(l: LoggingConfig) -> bool {
    &&& l.level@ == "info"@
    &&& !l.file_logging
    &&& l.log_file@ == "./logs/mechaflow.log"@
    &&& l.stdout
    &&& !l.json_format
}

/// The runtime settings a configuration starts from: as many workers as
/// cores, 100 concurrent tasks, no operation timeout, no debugging.
pub open spec fn runtime_defaults(r: RuntimeConfig) -> bool {
    &&& r.worker_threads == 0
    &&& r.max_concurrent_tasks == DEFAULT_MAX_CONCURRENT_TASKS
    &&& r.operation_timeout_ms == 0
    &&& !r.debug_mode
}

/// The security settings a configuration starts from: everything off.
pub open spec fn security_defaults(s: SecurityConfig) -> bool {
    &&& !s.authentication_enabled
    &&& !s.authorization_enabled
    &&& !s.tls_enabled
    &&& s.tls_cert@ == "./certs/cert.pem"@
    &&& s.tls_key@ == "./certs/key.pem"@
}

/// A configuration holding every default setting.
pub open spec fn config_defaults(c: Config) -> bool {
    &&& general_defaults(c.general)
    &&& logging_defaults(c.logging)
    &&& runtime_defaults(c.runtime)
    &&& security_defaults(c.security)
}

fn default_app_name() -> (s: String)
    ensures
        s@ == "mechaflow"@,
{
    owned("mechaflow")
}

fn default_app_version() -> (s: String)
    ensures
        s@ == "0.1.0"@,
{
    owned("0.1.0")
}

fn default_environment() -> (s: String)
    ensures
        s@ == "development"@,
{
    owned("development")
}

fn default_data_dir() -> (s: String)
    ensures
        s@ == "./data"@,
{
    owned("./data")
}

fn default_log_level() -> (s: String)
    ensures
        s@ == "info"@,
{
    owned("info")
}

fn default_log_file() -> (s: String)
    ensures
        s@ == "./logs/mechaflow.log"@,
{
    owned("./logs/mechaflow.log")
}

fn default_tls_cert() -> (s: String)
    ensures
        s@ == "./certs/cert.pem"@,
{
    owned("./certs/cert.pem")
}

fn default_tls_key() -> (s: String)
    ensures
        s@ == "./certs/key.pem"@,
{
    owned("./certs/key.pem")
}

impl Default for GeneralConfig {
    fn default() -> (g: Self)
        ensures
            general_defaults(g),
    {
        GeneralConfig {
            app_name: default_app_name(),
            app_version: default_app_version(),
            environment: default_environment(),
            data_dir: default_data_dir(),
        }
    }
}

impl Default for LoggingConfig {
    fn default() -> (l: Self)
        ensures
            logging_defaults(l),
    {
        LoggingConfig {
            level: default_log_level(),
            file_logging: false,
            log_file: default_log_file(),
            stdout: true,
            json_format: false,
        }
    }
}

impl Default for RuntimeConfig {
    fn default() -> (r: Self)
        ensures
            runtime_defaults(r),
    {
        RuntimeConfig {
            worker_threads: 0,
            max_concurrent_tasks: DEFAULT_MAX_CONCURRENT_TASKS,
            operation_timeout_ms: 0,
            debug_mode: false,
        }
    }
}

impl Default for SecurityConfig {
    fn default() -> (s: Self)
        ensures
            security_defaults(s),
    {
        SecurityConfig {
            authentication_enabled: false,
            authorization_enabled: false,
            tls_enabled: false,
            tls_cert: default_tls_cert(),
            tls_key: default_tls_key(),
        }
    }
}

impl Default for Config {
    fn default() -> (c: Self)
        ensures
            config_defaults(c),
    {
        Config {
            general: GeneralConfig::default(),
            logging: LoggingConfig::default(),
            runtime: RuntimeConfig::default(),
            security: SecurityConfig::default(),
        }
    }
}

/// A builder for creating a configuration: where to load settings from,
/// and an optional configuration that replaces whatever was loaded.
#[derive(Debug)]
pub struct ConfigBuilder {
    config_file: Option<String>,
    environment_prefix: Option<String>,
    override_with: Option<Config>,
}

impl ConfigBuilder {
    /// The configuration file to read, if one was set.
    pub closed spec fn config_file_spec(self) -> Option<Seq<char>> {
        match self.config_file {
            Some(f) => Some(f@),
            None => None,
        }
    }

    /// The prefix of the environment variables to read, if one was set.
    pub closed spec fn environment_prefix_spec(self) -> Option<Seq<char>> {
        match self.environment_prefix {
            Some(p) => Some(p@),
            None => None,
        }
    }

    /// The configuration that replaces the loaded one, if one was set.
    pub closed spec fn override_spec(self) -> Option<Config> {
        self.override_with
    }

    /// Create a new ConfigBuilder, with no file, no environment prefix and
    /// no override.
    pub fn new() -> (b: Self)
        ensures
            b.config_file_spec() is None,
            b.environment_prefix_spec() is None,
            b.override_spec() is None,
    {
        ConfigBuilder { config_file: None, environment_prefix: None, override_with: None }
    }

    /// Set the config file path
    pub fn with_config_file(self, path: &str) -> (b: Self)
        ensures
            b.config_file_spec() == Some(path@),
            b.environment_prefix_spec() == self.environment_prefix_spec(),
            b.override_spec() == self.override_spec(),
    {
        ConfigBuilder { config_file: Some(owned(path)), ..self }
    }

    /// Set the environment variable prefix for configuration
    pub fn with_environment_prefix(self, prefix: &str) -> (b: Self)
        ensures
            b.environment_prefix_spec() == Some(prefix@),
            b.config_file_spec() == self.config_file_spec(),
            b.override_spec() == self.override_spec(),
    {
        ConfigBuilder { environment_prefix: Some(owned(prefix)), ..self }
    }

    /// Override with an existing config
    pub fn override_with(self, config: Config) -> (b: Self)
        ensures
            b.override_spec() == Some(config),
            b.config_file_spec() == self.config_file_spec(),
            b.environment_prefix_spec() == self.environment_prefix_spec(),
    {
        ConfigBuilder { override_with: Some(config), ..self }
    }

    /// The configuration file to read, if one was set.
    pub fn config_file(&self) -> (r: Option<&String>)
        ensures
            match r {
                Some(f) => self.config_file_spec() == Some(f@),
                None => self.config_file_spec() is None,
            },
    {
        match &self.config_file {
            Some(f) => Some(f),
            None => None,
        }
    }

    /// The prefix of the environment variables to read, if one was set.
    pub fn environment_prefix(&self) -> (r: Option<&String>)
        ensures
            match r {
                Some(p) => self.environment_prefix_spec() == Some(p@),
                None => self.environment_prefix_spec() is None,
            },
    {
        match &self.environment_prefix {
            Some(p) => Some(p),
            None => None,
        }
    }

    /// Finishes the build from what the sources gave: an error of loading
    /// is returned as it is; otherwise the override, where one was set,
    /// replaces the loaded configuration.
    pub fn resolve(self, loaded: Result<Config>) -> (r: Result<Config>)
        ensures
            match loaded {
                Err(e) => r == Err::<Config, Error>(e),
                Ok(c) => match self.override_spec() {
                    Some(o) => r == Ok::<Config, Error>(o),
                    None => r == Ok::<Config, Error>(c),
                },
            },
    {
        match loaded {
            Err(e) => Err(e),
            Ok(c) => match self.override_with {
                Some(o) => Ok(o),
                None => Ok(c),
            },
        }
    }
}

impl Default for ConfigBuilder {
    fn default() -> (b: Self)
        ensures
            b.config_file_spec() is None,
            b.environment_prefix_spec() is None,
            b.override_spec() is None,
    {
        ConfigBuilder::new()
    }
}

/// A shared reference to a configuration
#[derive(Debug, Clone)]
pub struct SharedConfig(std::sync::Arc<Config>);

impl SharedConfig {
    /// The configuration that is shared.
    pub closed spec fn config_spec(self) -> Config {
        *self.0
    }

    /// Create a new SharedConfig
    pub fn new(config: Config) -> (s: Self)
        ensures
            s.config_spec() == config,
    {
        SharedConfig(std::sync::Arc::new(config))
    }

    /// Get a reference to the config
    pub fn get(&self) -> (r: &Config)
        ensures
            *r == self.config_spec(),
    {
        &self.0
    }

    /// Another handle on the same configuration.
    pub fn share(&self) -> (s: Self)
        ensures
            s.config_spec() == self.config_spec(),
    {
        SharedConfig(std::sync::Arc::clone(&self.0))
    }
}

impl From<Config> for SharedConfig {
    fn from(config: Config) -> (s: Self)
        ensures
            s.config_spec() == config,
    {
        SharedConfig::new(config)
    }
}

impl vstd::std_specs::convert::FromSpecImpl<Config> for SharedConfig {
    open spec fn obeys_from_spec() -> bool {
        true
    }

    closed spec fn from_spec(v: Config) -> SharedConfig {
        SharedConfig(std::sync::Arc::new(v))
    }
}

} // verus!
