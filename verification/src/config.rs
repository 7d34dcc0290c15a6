use vstd::prelude::*;
use vstd::string::*;

use crate::text::{decimal, push_decimal};

verus! {

/// Service configuration: where to listen and how much to log.
#[derive(Debug, Clone)]
pub struct Config {
    pub server: ServerConfig,
    pub logging: LoggingConfig,
}

/// The address and port the HTTP server binds to.
#[derive(Debug, Clone)]
pub struct ServerConfig {
    pub host: String,
    pub port: u16,
}

/// The default log filter level.
#[derive(Debug, Clone)]
pub struct LoggingConfig {
    pub level: String,
}

/// The host used when the configuration names none: the loopback address.
pub fn default_host() -> (r: String)
    ensures
        r@ == "127.0.0.1"@,
{
    String::from_str("127.0.0.1")
}

/// The port used when the configuration names none.
pub fn default_port() -> (r: u16)
    ensures
        r == 3000,
{
    3000
}

/// The log level used when the configuration names none.
pub fn default_log_level() -> (r: String)
    ensures
        r@ == "info"@,
{
    String::from_str("info")
}

impl Default for ServerConfig {
    fn default() -> (r: Self)
        ensures
            r.host@ == "127.0.0.1"@,
            r.port == 3000,
    {
        ServerConfig { host: default_host(), port: default_port() }
    }
}

impl Default for LoggingConfig {
    fn default() -> (r: Self)
        ensures
            r.level@ == "info"@,
    {
        LoggingConfig { level: default_log_level() }
    }
}

impl Default for Config {
    fn default() -> (r: Self)
        ensures
            r.server.host@ == "127.0.0.1"@,
            r.server.port == 3000,
            r.logging.level@ == "info"@,
    {
        Config { server: ServerConfig::default(), logging: LoggingConfig::default() }
    }
}

impl Config {
    /// The `host:port` address the server listens on, the port written in
    /// decimal.
    pub fn bind_address(&self) -> (r: String)
        ensures
            r@ == self.server.host@ + ":"@ + decimal(self.server.port as nat),
    {
        let mut s = String::from_str(self.server.host.as_str());
        s.append(":");
        push_decimal(&mut s, self.server.port as u64);
        s
    }
}

} // verus!
