//! Settings of the internal proxy, which the layers of one session connect
//! through.

use std::path::PathBuf;
use vstd::prelude::*;

verus! {

/// Environment variable that tells the internal proxy that it runs in a
/// sidecar container: set to `true` there.
pub const MIRRORD_INTPROXY_CONTAINER_MODE_ENV: &'static str = "MIRRORD_INTPROXY_CONTAINER_MODE";

/// Seconds to wait for the first connection, where nothing else is set.
pub const DEFAULT_START_IDLE_TIMEOUT: u64 = 60;

/// Seconds to stay without a connection, where nothing else is set.
pub const DEFAULT_IDLE_TIMEOUT: u64 = 5;

/// Seconds before a socket of the proxy times out, where nothing else is
/// set: a year.
pub const DEFAULT_SOCKET_TIMEOUT: u64 = 31536000;

/// The log level of the proxy, where nothing else is set.
pub const DEFAULT_LOG_LEVEL: &'static str = "mirrord=info,warn";

/// Whether the proxy writes its log as JSON, where nothing else is set.
pub const DEFAULT_JSON_LOG: bool = true;

/// The settings of the internal proxy, each with a value.
#[derive(Clone, Debug, PartialEq)]
pub struct InternalProxyConfig {
    /// How many seconds to wait for the first connection to the proxy.
    pub start_idle_timeout: u64,
    /// How many seconds to stay without any connection before exiting.
    pub idle_timeout: u64,
    /// How many seconds before a socket of the proxy times out.
    pub socket_timeout: u64,
    /// The log level of the proxy, written as for `RUST_LOG`.
    pub log_level: String,
    /// Where the proxy writes its log.
    pub log_destination: PathBuf,
    /// Whether the proxy writes its log as JSON.
    pub json_log: bool,
}

/// The settings of the internal proxy as a user wrote them: each one may be
/// left out.
#[derive(Clone, Debug, PartialEq)]
pub struct InternalProxyFileConfig {
    /// How many seconds to wait for the first connection to the proxy.
    pub start_idle_timeout: Option<u64>,
    /// How many seconds to stay without any connection before exiting.
    pub idle_timeout: Option<u64>,
    /// How many seconds before a socket of the proxy times out.
    pub socket_timeout: Option<u64>,
    /// The log level of the proxy, written as for `RUST_LOG`.
    pub log_level: Option<String>,
    /// Where the proxy writes its log.
    pub log_destination: Option<PathBuf>,
    /// Whether the proxy writes its log as JSON.
    pub json_log: Option<bool>,
}

impl InternalProxyFileConfig {
    /// Settles every setting: what the user wrote stays, and what was left
    /// out gets its default. The default of the log destination is
    /// `fresh_log_destination`, which the caller makes up anew for each
    /// session.
    pub fn generate_config(self, fresh_log_destination: PathBuf) -> (config: InternalProxyConfig)
        ensures
            config.start_idle_timeout == match self.start_idle_timeout {
                Some(seconds) => seconds,
                None => DEFAULT_START_IDLE_TIMEOUT,
            },
            config.idle_timeout == match self.idle_timeout {
                Some(seconds) => seconds,
                None => DEFAULT_IDLE_TIMEOUT,
            },
            config.socket_timeout == match self.socket_timeout {
                Some(seconds) => seconds,
                None => DEFAULT_SOCKET_TIMEOUT,
            },
            config.log_level@ == match self.log_level {
                Some(level) => level@,
                None => DEFAULT_LOG_LEVEL@,
            },
            config.log_destination == match self.log_destination {
                Some(path) => path,
                None => fresh_log_destination,
            },
            config.json_log == match self.json_log {
                Some(json) => json,
                None => DEFAULT_JSON_LOG,
            },
    {
        InternalProxyConfig {
            start_idle_timeout: match self.start_idle_timeout {
                Some(seconds) => seconds,
                None => DEFAULT_START_IDLE_TIMEOUT,
            },
            idle_timeout: match self.idle_timeout {
                Some(seconds) => seconds,
                None => DEFAULT_IDLE_TIMEOUT,
            },
            socket_timeout: match self.socket_timeout {
                Some(seconds) => seconds,
                None => DEFAULT_SOCKET_TIMEOUT,
            },
            log_level: match self.log_level {
                Some(level) => level,
                None => DEFAULT_LOG_LEVEL.to_owned(),
            },
            log_destination: match self.log_destination {
                Some(path) => path,
                None => fresh_log_destination,
            },
            json_log: match self.json_log {
                Some(json) => json,
                None => DEFAULT_JSON_LOG,
            },
        }
    }
}

} // verus!
