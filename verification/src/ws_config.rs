//! Configuration of a WebSocket client.

use vstd::prelude::*;
use crate::network::{ProxyConfig, TlsConfig, is_default_tls};

verus! {

/// The compressor of the application-level compression envelope.
#[derive(Debug, Clone, Copy, PartialEq, Eq, Structural)]
pub enum ApplicationCompressionAlgorithm {
    Gzip,
    Zstd,
}

/// Application-level compression, used when permessage-deflate is off.
#[derive(Debug, Clone, Copy)]
pub struct ApplicationCompressionConfig {
    pub enabled: bool,
    pub algorithm: ApplicationCompressionAlgorithm,
    /// Payloads smaller than this are sent uncompressed.
    pub threshold_bytes: u64,
}

impl Default for ApplicationCompressionConfig {
    fn default() -> (r: Self)
        ensures
            r.enabled,
            r.algorithm == ApplicationCompressionAlgorithm::Gzip,
            r.threshold_bytes == 1024,
    {
        ApplicationCompressionConfig {
            enabled: true,
            algorithm: ApplicationCompressionAlgorithm::Gzip,
            threshold_bytes: 1024,
        }
    }
}

/// Which resolver looks up host names.
#[derive(Debug, Clone, Copy, PartialEq, Eq, Structural)]
pub enum DnsMode {
    /// The operating system's resolver.
    Native,
    /// The shared caching resolver of this library.
    Catcher,
}

/// DNS settings; the cache parameters belong to the resolver itself.
#[derive(Debug, Clone, Copy)]
pub struct DnsConfig {
    pub mode: DnsMode,
}

impl Default for DnsConfig {
    fn default() -> (r: Self)
        ensures
            r.mode == DnsMode::Catcher,
    {
        DnsConfig { mode: DnsMode::Catcher }
    }
}

impl DnsConfig {
    /// Whether connections resolve through the shared caching resolver.
    pub fn use_catcher_resolver(&self) -> (r: bool)
        ensures
            r == (self.mode == DnsMode::Catcher),
    {
        self.mode == DnsMode::Catcher
    }
}

/// Automatic reconnection with exponential backoff.
#[derive(Debug, Clone, Copy)]
pub struct ReconnectConfig {
    pub initial_delay_ms: u64,
    pub max_delay_ms: u64,
    pub max_attempts: u32,
}

/// Periodic pings with pong-timeout detection.
#[derive(Debug, Clone, Copy)]
pub struct HeartbeatConfig {
    pub interval_ms: u64,
    pub adaptive: bool,
    pub pong_timeout_ms: u64,
    pub max_missed_pongs: u32,
}

/// Settings of a WebSocket client.
#[derive(Debug)]
pub struct WsClientConfig {
    /// Endpoints; several are raced against each other.
    pub urls: Vec<String>,
    /// How many endpoints the first connection races.
    pub race_count: u32,
    /// Extra handshake headers, in order.
    pub headers: Vec<(String, String)>,
    /// Sub-protocols offered in the handshake.
    pub protocols: Vec<String>,
    /// Convert JSON text to MessagePack on the wire.
    pub msgpack: bool,
    /// RFC 7692 permessage-deflate.
    pub per_message_deflate: bool,
    pub application_compression: Option<ApplicationCompressionConfig>,
    /// Handshake timeout; 0 disables it.
    pub handshake_timeout_ms: u64,
    /// Send timeout; 0 disables it.
    pub send_timeout_ms: u64,
    pub reconnect: Option<ReconnectConfig>,
    pub heartbeat: Option<HeartbeatConfig>,
    pub dns: Option<DnsConfig>,
    pub proxy: Option<ProxyConfig>,
    pub tls: TlsConfig,
}

impl Default for WsClientConfig {
    fn default() -> (r: Self)
        ensures
            r.urls@.len() == 0,
            r.race_count == 1,
            r.headers@.len() == 0,
            r.protocols@.len() == 0,
            !r.msgpack,
            r.per_message_deflate,
            r.application_compression is None,
            r.handshake_timeout_ms == 15000,
            r.send_timeout_ms == 10000,
            r.reconnect is None,
            r.heartbeat is None,
            r.dns is None,
            r.proxy is None,
            is_default_tls(r.tls),
    {
        WsClientConfig {
            urls: Vec::new(),
            race_count: 1,
            headers: Vec::new(),
            protocols: Vec::new(),
            msgpack: false,
            per_message_deflate: true,
            application_compression: None,
            handshake_timeout_ms: 15000,
            send_timeout_ms: 10000,
            reconnect: None,
            heartbeat: None,
            dns: None,
            proxy: None,
            tls: TlsConfig::default(),
        }
    }
}

} // verus!
