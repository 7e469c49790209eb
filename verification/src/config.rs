//! Configuration of the proxy and the order in which its sources count:
//! command line over configuration file over defaults.

use vstd::prelude::*;
use vstd::string::StringExecFns;

use crate::text::push_decimal;
use crate::text::spec_decimal;

verus! {

/// Default maximum body size: 50 MiB, which allows video uploads.
pub const DEFAULT_MAX_BODY_SIZE: usize = 52428800;

/// Default port.
pub const DEFAULT_PORT: u16 = 8080;

/// Default HTTP connect timeout in seconds.
pub const DEFAULT_CONNECT_TIMEOUT_SECS: u64 = 10;

/// Default HTTP request timeout in seconds.
pub const DEFAULT_REQUEST_TIMEOUT_SECS: u64 = 30;

/// Settings given on the command line or through the environment. A
/// setting that was not given is `None`.
#[derive(Debug)]
pub struct CliArgs {
    /// Upstream server URL.
    pub upstream_url: Option<String>,
    /// Host to bind the proxy server to.
    pub host: Option<String>,
    /// Port to bind the proxy server to.
    pub port: Option<u16>,
    /// Path to the database file.
    pub database_path: Option<String>,
    /// Maximum request body size in bytes.
    pub max_body_size: Option<usize>,
    /// HTTP client connect timeout in seconds.
    pub connect_timeout_secs: Option<u64>,
    /// HTTP client request timeout in seconds.
    pub request_timeout_secs: Option<u64>,
    /// Path of the file to record traffic to.
    pub record_traffic_path: Option<String>,
    /// Path to the configuration file.
    pub config: Option<String>,
}

/// Settings read from a configuration file. A setting that the file does
/// not hold is `None`.
#[derive(Debug)]
pub struct FileConfig {
    pub upstream_url: Option<String>,
    pub host: Option<String>,
    pub port: Option<u16>,
    pub database_path: Option<String>,
    pub max_body_size: Option<usize>,
    pub connect_timeout_secs: Option<u64>,
    pub request_timeout_secs: Option<u64>,
    pub record_traffic_path: Option<String>,
}

/// Configuration of the proxy server.
#[derive(Debug, Clone)]
pub struct Config {
    /// Upstream server URL (e.g. "https://mastodon.social").
    pub upstream_url: String,
    /// Host to bind the proxy server to.
    pub host: String,
    /// Port to bind the proxy server to.
    pub port: u16,
    /// Path to the database file.
    pub database_path: String,
    /// Maximum request body size in bytes.
    pub max_body_size: usize,
    /// HTTP client connect timeout in seconds.
    pub connect_timeout_secs: u64,
    /// HTTP client request timeout in seconds.
    pub request_timeout_secs: u64,
    /// Path of the file to record traffic to; `None` records nothing.
    pub record_traffic_path: Option<String>,
}

/// A configuration as plain values.
pub struct ConfigModel {
    pub upstream_url: Seq<char>,
    pub host: Seq<char>,
    pub port: u16,
    pub database_path: Seq<char>,
    pub max_body_size: usize,
    pub connect_timeout_secs: u64,
    pub request_timeout_secs: u64,
    pub record_traffic_path: Option<Seq<char>>,
}

/// One source of settings as plain values.
pub struct SettingsModel {
    pub upstream_url: Option<Seq<char>>,
    pub host: Option<Seq<char>>,
    pub port: Option<u16>,
    pub database_path: Option<Seq<char>>,
    pub max_body_size: Option<usize>,
    pub connect_timeout_secs: Option<u64>,
    pub request_timeout_secs: Option<u64>,
    pub record_traffic_path: Option<Seq<char>>,
}

/// The characters of an optional string.
pub open spec fn spec_text(s: Option<String>) -> Option<Seq<char>> {
    match s {
        Some(s) => Some(s@),
        None => None,
    }
}

impl View for Config {
    type V = ConfigModel;

    open spec fn view(&self) -> ConfigModel {
        ConfigModel {
            upstream_url: self.upstream_url@,
            host: self.host@,
            port: self.port,
            database_path: self.database_path@,
            max_body_size: self.max_body_size,
            connect_timeout_secs: self.connect_timeout_secs,
            request_timeout_secs: self.request_timeout_secs,
            record_traffic_path: spec_text(self.record_traffic_path),
        }
    }
}

impl View for CliArgs {
    type V = SettingsModel;

    open spec fn view(&self) -> SettingsModel {
        SettingsModel {
            upstream_url: spec_text(self.upstream_url),
            host: spec_text(self.host),
            port: self.port,
            database_path: spec_text(self.database_path),
            max_body_size: self.max_body_size,
            connect_timeout_secs: self.connect_timeout_secs,
            request_timeout_secs: self.request_timeout_secs,
            record_traffic_path: spec_text(self.record_traffic_path),
        }
    }
}

impl View for FileConfig {
    type V = SettingsModel;

    open spec fn view(&self) -> SettingsModel {
        SettingsModel {
            upstream_url: spec_text(self.upstream_url),
            host: spec_text(self.host),
            port: self.port,
            database_path: spec_text(self.database_path),
            max_body_size: self.max_body_size,
            connect_timeout_secs: self.connect_timeout_secs,
            request_timeout_secs: self.request_timeout_secs,
            record_traffic_path: spec_text(self.record_traffic_path),
        }
    }
}

/// The configuration in which every setting has its default.
pub open spec fn spec_default_config() -> ConfigModel {
    ConfigModel {
        upstream_url: "https://mastodon.social"@,
        host: "0.0.0.0"@,
        port: DEFAULT_PORT,
        database_path: "ivoryvalley.db"@,
        max_body_size: DEFAULT_MAX_BODY_SIZE,
        connect_timeout_secs: DEFAULT_CONNECT_TIMEOUT_SECS,
        request_timeout_secs: DEFAULT_REQUEST_TIMEOUT_SECS,
        record_traffic_path: None,
    }
}

/// The configuration with explicit values for the first four settings and
/// the given body size limit; the timeouts have their defaults and no
/// traffic is recorded.
pub open spec fn spec_explicit_config(
    upstream_url: Seq<char>,
    host: Seq<char>,
    port: u16,
    database_path: Seq<char>,
    max_body_size: usize,
) -> ConfigModel {
    ConfigModel {
        upstream_url,
        host,
        port,
        database_path,
        max_body_size,
        connect_timeout_secs: DEFAULT_CONNECT_TIMEOUT_SECS,
        request_timeout_secs: DEFAULT_REQUEST_TIMEOUT_SECS,
        record_traffic_path: None,
    }
}

/// `given` where there is one, else `base`.
pub open spec fn spec_pick<T>(base: T, given: Option<T>) -> T {
    match given {
        Some(v) => v,
        None => base,
    }
}

/// `base` with every setting that `source` gives put in place of its own.
pub open spec fn spec_overlay(base: ConfigModel, source: SettingsModel) -> ConfigModel {
    ConfigModel {
        upstream_url: spec_pick(base.upstream_url, source.upstream_url),
        host: spec_pick(base.host, source.host),
        port: spec_pick(base.port, source.port),
        database_path: spec_pick(base.database_path, source.database_path),
        max_body_size: spec_pick(base.max_body_size, source.max_body_size),
        connect_timeout_secs: spec_pick(base.connect_timeout_secs, source.connect_timeout_secs),
        request_timeout_secs: spec_pick(base.request_timeout_secs, source.request_timeout_secs),
        record_traffic_path: match source.record_traffic_path {
            Some(path) => Some(path),
            None => base.record_traffic_path,
        },
    }
}

/// The configuration that results from the command line and the
/// configuration file: the defaults, overlaid by the file, overlaid by the
/// command line.
pub open spec fn spec_loaded_config(args: SettingsModel, file: SettingsModel) -> ConfigModel {
    spec_overlay(spec_overlay(spec_default_config(), file), args)
}

/// The address to bind to: host, a colon, and the port in decimal.
pub open spec fn spec_bind_addr(config: ConfigModel) -> Seq<char> {
    config.host + seq![':'] + spec_decimal(config.port as nat)
}

impl Default for Config {
    fn default() -> (r: Config)
        ensures
            r@ == spec_default_config(),
    {
        Config {
            upstream_url: "https://mastodon.social".to_owned(),
            host: "0.0.0.0".to_owned(),
            port: DEFAULT_PORT,
            database_path: "ivoryvalley.db".to_owned(),
            max_body_size: DEFAULT_MAX_BODY_SIZE,
            connect_timeout_secs: DEFAULT_CONNECT_TIMEOUT_SECS,
            request_timeout_secs: DEFAULT_REQUEST_TIMEOUT_SECS,
            record_traffic_path: None,
        }
    }
}

impl FileConfig {
    /// The settings of a file that holds none.
    pub fn empty() -> (r: FileConfig)
        ensures
            r@ == (SettingsModel {
                upstream_url: None,
                host: None,
                port: None,
                database_path: None,
                max_body_size: None,
                connect_timeout_secs: None,
                request_timeout_secs: None,
                record_traffic_path: None,
            }),
    {
        FileConfig {
            upstream_url: None,
            host: None,
            port: None,
            database_path: None,
            max_body_size: None,
            connect_timeout_secs: None,
            request_timeout_secs: None,
            record_traffic_path: None,
        }
    }
}

impl Config {
    /// A configuration with explicit values, the default body size limit
    /// and the default timeouts.
    pub fn new(upstream_url: &str, host: &str, port: u16, database_path: String) -> (r: Config)
        ensures
            r@ == spec_explicit_config(
                upstream_url@,
                host@,
                port,
                database_path@,
                DEFAULT_MAX_BODY_SIZE,
            ),
    {
        Config {
            upstream_url: upstream_url.to_owned(),
            host: host.to_owned(),
            port,
            database_path,
            max_body_size: DEFAULT_MAX_BODY_SIZE,
            connect_timeout_secs: DEFAULT_CONNECT_TIMEOUT_SECS,
            request_timeout_secs: DEFAULT_REQUEST_TIMEOUT_SECS,
            record_traffic_path: None,
        }
    }

    /// A configuration with explicit values and a body size limit of its
    /// own.
    pub fn with_max_body_size(
        upstream_url: &str,
        host: &str,
        port: u16,
        database_path: String,
        max_body_size: usize,
    ) -> (r: Config)
        ensures
            r@ == spec_explicit_config(upstream_url@, host@, port, database_path@, max_body_size),
    {
        Config {
            upstream_url: upstream_url.to_owned(),
            host: host.to_owned(),
            port,
            database_path,
            max_body_size,
            connect_timeout_secs: DEFAULT_CONNECT_TIMEOUT_SECS,
            request_timeout_secs: DEFAULT_REQUEST_TIMEOUT_SECS,
            record_traffic_path: None,
        }
    }

    /// Puts the settings of a configuration file over this configuration.
    fn apply_file(&mut self, file: FileConfig)
        ensures
            final(self)@ == spec_overlay(old(self)@, file@),
    {
        if let Some(url) = file.upstream_url {
            self.upstream_url = url;
        }
        if let Some(h) = file.host {
            self.host = h;
        }
        if let Some(p) = file.port {
            self.port = p;
        }
        if let Some(db) = file.database_path {
            self.database_path = db;
        }
        if let Some(size) = file.max_body_size {
            self.max_body_size = size;
        }
        if let Some(ct) = file.connect_timeout_secs {
            self.connect_timeout_secs = ct;
        }
        if let Some(rt) = file.request_timeout_secs {
            self.request_timeout_secs = rt;
        }
        if let Some(path) = file.record_traffic_path {
            self.record_traffic_path = Some(path);
        }
    }

    /// Puts the settings of the command line over this configuration.
    fn apply_args(&mut self, args: CliArgs)
        ensures
            final(self)@ == spec_overlay(old(self)@, args@),
    {
        if let Some(url) = args.upstream_url {
            self.upstream_url = url;
        }
        if let Some(h) = args.host {
            self.host = h;
        }
        if let Some(p) = args.port {
            self.port = p;
        }
        if let Some(db) = args.database_path {
            self.database_path = db;
        }
        if let Some(size) = args.max_body_size {
            self.max_body_size = size;
        }
        if let Some(ct) = args.connect_timeout_secs {
            self.connect_timeout_secs = ct;
        }
        if let Some(rt) = args.request_timeout_secs {
            self.request_timeout_secs = rt;
        }
        if let Some(path) = args.record_traffic_path {
            self.record_traffic_path = Some(path);
        }
    }

    /// Builds the configuration from the command line and the settings of
    /// the configuration file: a setting given on the command line counts,
    /// else the one from the file, else the default.
    pub fn load_from_args(args: CliArgs, file: FileConfig) -> (r: Config)
        ensures
            r@ == spec_loaded_config(args@, file@),
    {
        let mut config = Config::default();
        config.apply_file(file);
        config.apply_args(args);
        config
    }

    /// The socket address to bind to.
    pub fn bind_addr(&self) -> (r: String)
        ensures
            r@ == spec_bind_addr(self@),
    {
        let mut addr = self.host.as_str().to_owned();
        addr.push(':');
        push_decimal(&mut addr, self.port as u64);
        addr
    }
}

} // verus!
