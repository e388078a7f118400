use vstd::prelude::*;
use vstd::string::StringExecFns;
use crate::text::{lowercase, str_equal, unicode_lowercase};

verus! {

/// The server's configuration.
pub struct Config {
    pub data_directory: String,
    pub register_web: bool,
    pub database: String,
    pub web: WebConfig,
    pub scan: ScanConfig,
    pub sentry_dsn: Option<String>,
    pub logging: LoggingConfig,
}

/// Where and how much to log.
pub struct LoggingConfig {
    pub level: String,
    pub file: Option<String>,
}

/// Whether and how often libraries are scanned.
pub struct ScanConfig {
    pub enabled: bool,
    pub interval: u64,
}

/// Where the web server listens.
pub struct WebConfig {
    pub address: String,
    pub port: u16,
}

/// The log level when none is configured.
pub fn default_log_level() -> (s: String)
    ensures
        s@ == "info"@,
{
    String::from_str("info")
}

/// Seconds between two scans.
pub fn default_scan_interval() -> (i: u64)
    ensures
        i == 600,
{
    600
}

/// The address the server listens on when none is configured.
pub fn default_data_address() -> (s: String)
    ensures
        s@ == "localhost"@,
{
    String::from_str("localhost")
}

/// The data directory when none is configured.
pub fn default_data_directory() -> (s: String)
    ensures
        s@ == "data"@,
{
    String::from_str("data")
}

/// The log file inside the default data directory.
pub fn default_log_location() -> (s: Option<String>)
    ensures
        s matches Some(p) && p@ == "data"@ + "/vorleser.log"@,
{
    let mut path = default_data_directory();
    path.append("/vorleser.log");
    Some(path)
}

/// Which log records are kept.
#[derive(Debug, Clone, Copy, PartialEq, Eq, Structural)]
pub enum LevelFilter {
    Off,
    Error,
    Warn,
    Info,
    Debug,
    Trace,
}

/// The level named by a configuration value, compared in lower case;
/// anything unknown means `info`.
pub open spec fn level_named(s: Seq<char>) -> LevelFilter {
    let l = unicode_lowercase(s);
    if l == "error"@ {
        LevelFilter::Error
    } else if l == "warn"@ {
        LevelFilter::Warn
    } else if l == "debug"@ {
        LevelFilter::Debug
    } else if l == "trace"@ {
        LevelFilter::Trace
    } else if l == "off"@ {
        LevelFilter::Off
    } else {
        LevelFilter::Info
    }
}

/// The log level of a configuration value.
pub fn log_level_filter(level: &str) -> (f: LevelFilter)
    ensures
        f == level_named(level@),
{
    let lower = lowercase(level);
    let l = lower.as_str();
    if str_equal(l, "error") {
        LevelFilter::Error
    } else if str_equal(l, "warn") {
        LevelFilter::Warn
    } else if str_equal(l, "debug") {
        LevelFilter::Debug
    } else if str_equal(l, "trace") {
        LevelFilter::Trace
    } else if str_equal(l, "off") {
        LevelFilter::Off
    } else {
        LevelFilter::Info
    }
}

} // verus!
