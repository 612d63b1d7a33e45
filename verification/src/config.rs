//! Configuration builder for Samsung TV connections.
use std::path::PathBuf;
use std::time::Duration;
use vstd::prelude::*;

verus! {

/// Default port for insecure WebSocket connections.
pub const DEFAULT_WS_PORT: u16 = 8001;

/// Default port for secure WebSocket connections (TLS).
pub const DEFAULT_WSS_PORT: u16 = 8002;

/// The length of a `Duration` in nanoseconds, as `Duration::as_nanos`
/// reports it.
pub uninterp spec fn duration_nanos(d: Duration) -> nat;

/// `Duration::from_secs`: a duration of `secs` whole seconds.
#[verifier::external_body]
pub(crate) fn seconds(secs: u64) -> (d: Duration)
    ensures
        duration_nanos(d) == secs * 1_000_000_000,
{
    Duration::from_secs(secs)
}

/// `Duration::from_millis`: a duration of `ms` milliseconds.
#[verifier::external_body]
pub(crate) fn millis(ms: u64) -> (d: Duration)
    ensures
        duration_nanos(d) == ms * 1_000_000,
{
    Duration::from_millis(ms)
}

/// `Clone for PathBuf`: a copy of the path.
#[verifier::external_body]
pub(crate) fn clone_path(p: &PathBuf) -> (r: PathBuf)
    ensures
        r == *p,
{
    p.clone()
}

/// Configuration for connecting to a Samsung TV.
#[derive(Debug)]
pub struct SamsungTvConfig {
    /// TV hostname or IP address.
    pub host: String,
    /// WebSocket port (8001 for ws://, 8002 for wss://).
    pub port: u16,
    /// Client name displayed on the TV during pairing.
    pub name: String,
    /// Whether to use TLS (wss://).
    pub use_tls: bool,
    /// Authentication token from previous connection.
    pub token: Option<String>,
    /// Path to file for persisting the authentication token.
    pub token_file: Option<PathBuf>,
    /// Connection and operation timeout.
    pub timeout: Duration,
    /// Delay between key presses when sending multiple keys.
    pub key_delay: Duration,
    /// Whether to automatically reconnect on connection loss.
    pub auto_reconnect: bool,
}

/// The defaults of a fresh configuration for `host`: port 8001, name
/// "Samsung TV RS", no TLS, no token, no token file, a 5 s timeout, a
/// 300 ms key delay and automatic reconnection.
pub open spec fn is_fresh_config(c: SamsungTvConfig, host: Seq<char>) -> bool {
    &&& c.host@ == host
    &&& c.port == DEFAULT_WS_PORT
    &&& c.name@ == "Samsung TV RS"@
    &&& !c.use_tls
    &&& c.token is None
    &&& c.token_file is None
    &&& duration_nanos(c.timeout) == 5_000_000_000
    &&& duration_nanos(c.key_delay) == 300_000_000
    &&& c.auto_reconnect
}

/// The URL scheme of a configuration: `wss` with TLS, `ws` without.
pub open spec fn scheme_of(c: SamsungTvConfig) -> Seq<char> {
    if c.use_tls {
        "wss"@
    } else {
        "ws"@
    }
}

impl SamsungTvConfig {
    /// Creates a new configuration with the specified host.
    ///
    /// Uses default values:
    /// - Port: 8001 (insecure)
    /// - Name: "Samsung TV RS"
    /// - TLS: disabled
    /// - Timeout: 5 seconds
    /// - Key delay: 300ms
    /// - Auto reconnect: enabled
    pub fn new(host: &str) -> (r: Self)
        ensures
            is_fresh_config(r, host@),
    {
        SamsungTvConfig {
            host: crate::text::owned(host),
            port: DEFAULT_WS_PORT,
            name: crate::text::owned("Samsung TV RS"),
            use_tls: false,
            token: None,
            token_file: None,
            timeout: seconds(5),
            key_delay: millis(300),
            auto_reconnect: true,
        }
    }

    /// Sets the WebSocket port.
    pub fn port(self, port: u16) -> (r: Self)
        ensures
            r == (SamsungTvConfig { port: port, ..self }),
    {
        SamsungTvConfig { port, ..self }
    }

    /// Sets the client name displayed on the TV.
    pub fn name(self, name: &str) -> (r: Self)
        ensures
            r.name@ == name@,
            r == (SamsungTvConfig { name: r.name, ..self }),
    {
        SamsungTvConfig { name: crate::text::owned(name), ..self }
    }

    /// Sets the authentication token.
    pub fn token(self, token: &str) -> (r: Self)
        ensures
            r.token matches Some(t) && t@ == token@,
            r == (SamsungTvConfig { token: r.token, ..self }),
    {
        SamsungTvConfig { token: Some(crate::text::owned(token)), ..self }
    }

    /// Sets the path for token persistence.
    pub fn token_file(self, path: PathBuf) -> (r: Self)
        ensures
            r == (SamsungTvConfig { token_file: Some(path), ..self }),
    {
        SamsungTvConfig { token_file: Some(path), ..self }
    }

    /// Enables TLS and sets the port to 8002.
    ///
    /// This is required for newer Samsung TVs (2018+).
    pub fn secure(self) -> (r: Self)
        ensures
            r == (SamsungTvConfig { use_tls: true, port: DEFAULT_WSS_PORT, ..self }),
    {
        SamsungTvConfig { use_tls: true, port: DEFAULT_WSS_PORT, ..self }
    }

    /// Sets the connection timeout.
    pub fn timeout(self, timeout: Duration) -> (r: Self)
        ensures
            r == (SamsungTvConfig { timeout: timeout, ..self }),
    {
        SamsungTvConfig { timeout, ..self }
    }

    /// Sets the delay between consecutive key presses.
    pub fn key_delay(self, delay: Duration) -> (r: Self)
        ensures
            r == (SamsungTvConfig { key_delay: delay, ..self }),
    {
        SamsungTvConfig { key_delay: delay, ..self }
    }

    /// Enables or disables automatic reconnection.
    pub fn auto_reconnect(self, enabled: bool) -> (r: Self)
        ensures
            r == (SamsungTvConfig { auto_reconnect: enabled, ..self }),
    {
        SamsungTvConfig { auto_reconnect: enabled, ..self }
    }

    /// Finalizes the configuration.
    ///
    /// This is a no-op that allows for a consistent builder pattern.
    pub fn build(self) -> (r: Self)
        ensures
            r == self,
    {
        self
    }

    /// Returns the WebSocket URL scheme based on TLS setting.
    pub fn scheme(&self) -> (r: &'static str)
        ensures
            r@ == scheme_of(*self),
    {
        if self.use_tls {
            "wss"
        } else {
            "ws"
        }
    }
}

impl Clone for SamsungTvConfig {
    /// A copy of every field.
    fn clone(&self) -> (r: Self)
        ensures
            r == *self,
    {
        SamsungTvConfig {
            host: self.host.clone(),
            port: self.port,
            name: self.name.clone(),
            use_tls: self.use_tls,
            token: match &self.token {
                Some(t) => Some(t.clone()),
                None => None,
            },
            token_file: match &self.token_file {
                Some(p) => Some(clone_path(p)),
                None => None,
            },
            timeout: self.timeout,
            key_delay: self.key_delay,
            auto_reconnect: self.auto_reconnect,
        }
    }
}

impl Default for SamsungTvConfig {
    /// A configuration for the host 192.168.1.1 with the defaults of `new`.
    fn default() -> (r: Self)
        ensures
            is_fresh_config(r, "192.168.1.1"@),
    {
        Self::new("192.168.1.1")
    }
}

/// A secured configuration connects with `wss` on port 8002, whatever scheme
/// and port it had before.
pub proof fn law_secure_uses_wss(c: SamsungTvConfig)
    ensures
        scheme_of(SamsungTvConfig { use_tls: true, port: DEFAULT_WSS_PORT, ..c }) == "wss"@,
        (SamsungTvConfig { use_tls: true, port: DEFAULT_WSS_PORT, ..c }).port == 8002,
{
}

} // verus!
