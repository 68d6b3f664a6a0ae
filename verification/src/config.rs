//! Configuration of the client.
use vstd::prelude::*;

use crate::error::{ErrorModel, WebSocketError, WebSocketResult};
use crate::text::starts_with;
use crate::time::{seconds, Duration};

verus! {

/// Configuration of the client.
#[derive(Debug)]
pub struct ClientConfig {
    /// Where the server is.
    pub url: String,
    /// How long an attempt to connect may take.
    pub connect_timeout: Duration,
    /// How to connect again.
    pub reconnect: ReconnectConfig,
    /// How to keep the connection under watch.
    pub heartbeat: HeartbeatConfig,
    /// How much room messages get.
    pub message: MessageConfig,
}

/// How to connect again.
#[derive(Debug, Clone, Copy, PartialEq, Eq, Structural)]
pub struct ReconnectConfig {
    /// Whether to connect again at all.
    pub enabled: bool,
    /// How many times to try again; without a limit if absent.
    pub max_retries: Option<u32>,
    /// How long to wait before the first attempt to connect again.
    pub initial_interval: Duration,
    /// How long to wait at most.
    pub max_interval: Duration,
    /// By what the wait grows from one attempt to the next: the bits of a floating-point number
    /// of double precision.
    pub backoff_multiplier_bits: u64,
}

/// How to keep the connection under watch.
#[derive(Debug, Clone, Copy, PartialEq, Eq, Structural)]
pub struct HeartbeatConfig {
    /// Whether to send heartbeats at all.
    pub enabled: bool,
    /// How long to wait from one heartbeat to the next.
    pub interval: Duration,
    /// How long the answer to a heartbeat may take.
    pub timeout: Duration,
}

/// How much room messages get.
#[derive(Debug, Clone, Copy, PartialEq, Eq, Structural)]
pub struct MessageConfig {
    /// The size of the largest message, in bytes.
    pub max_size: usize,
    /// How many events a subscriber may fall behind by.
    pub queue_size: usize,
}

/// The bits of the floating-point number two.
pub const DOUBLING_BITS: u64 = 0x4000_0000_0000_0000;

/// The largest message by default: sixty-four mebibytes.
pub const DEFAULT_MAX_SIZE: usize = 67_108_864;

/// The reconnection that a configuration begins with.
pub open spec fn default_reconnect(config: ReconnectConfig) -> bool {
    &&& config.enabled
    &&& config.max_retries == Some(5u32)
    &&& config.initial_interval@ == seconds(1)
    &&& config.max_interval@ == seconds(60)
    &&& config.backoff_multiplier_bits == DOUBLING_BITS
}

/// The heartbeat that a configuration begins with.
pub open spec fn default_heartbeat(config: HeartbeatConfig) -> bool {
    config.enabled && config.interval@ == seconds(30) && config.timeout@ == seconds(10)
}

/// The room for messages that a configuration begins with.
pub open spec fn default_message(config: MessageConfig) -> bool {
    config.max_size == DEFAULT_MAX_SIZE && config.queue_size == 1000
}

/// What a configuration begins with, but for the URL.
pub open spec fn default_apart_from_url(config: ClientConfig) -> bool {
    &&& config.connect_timeout@ == seconds(10)
    &&& default_reconnect(config.reconnect)
    &&& default_heartbeat(config.heartbeat)
    &&& default_message(config.message)
}

impl Clone for ClientConfig {
    fn clone(&self) -> (copy: Self)
        ensures
            copy == *self,
    {
        ClientConfig {
            url: self.url.clone(),
            connect_timeout: self.connect_timeout,
            reconnect: self.reconnect,
            heartbeat: self.heartbeat,
            message: self.message,
        }
    }
}

impl Default for ClientConfig {
    fn default() -> (config: Self)
        ensures
            config.url@ == Seq::<char>::empty(),
            default_apart_from_url(config),
    {
        ClientConfig {
            url: String::new(),
            connect_timeout: Duration::from_secs(10),
            reconnect: ReconnectConfig::default(),
            heartbeat: HeartbeatConfig::default(),
            message: MessageConfig::default(),
        }
    }
}

impl Default for ReconnectConfig {
    fn default() -> (config: Self)
        ensures
            default_reconnect(config),
    {
        ReconnectConfig {
            enabled: true,
            max_retries: Some(5),
            initial_interval: Duration::from_secs(1),
            max_interval: Duration::from_secs(60),
            backoff_multiplier_bits: DOUBLING_BITS,
        }
    }
}

impl Default for HeartbeatConfig {
    fn default() -> (config: Self)
        ensures
            default_heartbeat(config),
    {
        HeartbeatConfig {
            enabled: true,
            interval: Duration::from_secs(30),
            timeout: Duration::from_secs(10),
        }
    }
}

impl Default for MessageConfig {
    fn default() -> (config: Self)
        ensures
            default_message(config),
    {
        MessageConfig { max_size: DEFAULT_MAX_SIZE, queue_size: 1000 }
    }
}

/// The first fault of a configuration, in words.
pub open spec fn config_fault(config: ClientConfig) -> Option<Seq<char>> {
    if config.url@.len() == 0 {
        Some("URL 不能为空"@)
    } else if !("ws://"@.is_prefix_of(config.url@) || "wss://"@.is_prefix_of(config.url@)) {
        Some("URL 必须以 ws:// 或 wss:// 开头"@)
    } else if config.connect_timeout@ == 0 {
        Some("连接超时时间必须大于0"@)
    } else if config.heartbeat.enabled && config.heartbeat.interval@ == 0 {
        Some("心跳间隔必须大于0"@)
    } else if config.reconnect.enabled && config.reconnect.initial_interval@ == 0 {
        Some("重连间隔必须大于0"@)
    } else {
        None
    }
}

impl ClientConfig {
    /// A configuration for a server, with everything else as it begins.
    pub fn new(url: String) -> (config: Self)
        ensures
            config.url == url,
            default_apart_from_url(config),
    {
        let config = ClientConfig::default();
        ClientConfig {
            url,
            connect_timeout: config.connect_timeout,
            reconnect: config.reconnect,
            heartbeat: config.heartbeat,
            message: config.message,
        }
    }

    /// The configuration with another timeout for connecting.
    pub fn with_connect_timeout(self, timeout: Duration) -> (config: Self)
        ensures
            config == (ClientConfig { connect_timeout: timeout, ..self }),
    {
        ClientConfig { connect_timeout: timeout, ..self }
    }

    /// The configuration with another reconnection.
    pub fn with_reconnect(self, reconnect: ReconnectConfig) -> (config: Self)
        ensures
            config == (ClientConfig { reconnect, ..self }),
    {
        ClientConfig { reconnect, ..self }
    }

    /// The configuration without reconnection.
    pub fn without_reconnect(self) -> (config: Self)
        ensures
            config == (ClientConfig {
                reconnect: ReconnectConfig { enabled: false, ..self.reconnect },
                ..self
            }),
    {
        ClientConfig { reconnect: ReconnectConfig { enabled: false, ..self.reconnect }, ..self }
    }

    /// The configuration with another heartbeat.
    pub fn with_heartbeat(self, heartbeat: HeartbeatConfig) -> (config: Self)
        ensures
            config == (ClientConfig { heartbeat, ..self }),
    {
        ClientConfig { heartbeat, ..self }
    }

    /// The configuration without heartbeat.
    pub fn without_heartbeat(self) -> (config: Self)
        ensures
            config == (ClientConfig {
                heartbeat: HeartbeatConfig { enabled: false, ..self.heartbeat },
                ..self
            }),
    {
        ClientConfig { heartbeat: HeartbeatConfig { enabled: false, ..self.heartbeat }, ..self }
    }

    /// The configuration with other room for messages.
    pub fn with_message_config(self, message: MessageConfig) -> (config: Self)
        ensures
            config == (ClientConfig { message, ..self }),
    {
        ClientConfig { message, ..self }
    }

    /// Checks the configuration, and reports its first fault.
    pub fn validate(&self) -> (result: WebSocketResult<()>)
        ensures
            match config_fault(*self) {
                Some(fault) => result matches Err(error) && error@ == ErrorModel::ConfigError(fault),
                None => result is Ok,
            },
    {
        if self.url.as_str().is_empty() {
            return Err(WebSocketError::ConfigError("URL 不能为空".to_string()));
        }
        if !starts_with(self.url.as_str(), "ws://") && !starts_with(self.url.as_str(), "wss://") {
            return Err(
                WebSocketError::ConfigError("URL 必须以 ws:// 或 wss:// 开头".to_string()),
            );
        }
        if self.connect_timeout.is_zero() {
            return Err(WebSocketError::ConfigError("连接超时时间必须大于0".to_string()));
        }
        if self.heartbeat.enabled && self.heartbeat.interval.is_zero() {
            return Err(WebSocketError::ConfigError("心跳间隔必须大于0".to_string()));
        }
        if self.reconnect.enabled && self.reconnect.initial_interval.is_zero() {
            return Err(WebSocketError::ConfigError("重连间隔必须大于0".to_string()));
        }
        Ok(())
    }
}

/// A configuration for a server, with everything else as it begins, is valid exactly if the URL
/// is one of a WebSocket server.
pub proof fn new_config_is_valid(config: ClientConfig)
    requires
        default_apart_from_url(config),
    ensures
        config_fault(config) is None <==> "ws://"@.is_prefix_of(config.url@)
            || "wss://"@.is_prefix_of(config.url@),
{
    reveal_strlit("ws://");
    reveal_strlit("wss://");
}

/// A reconnection or heartbeat that is switched off can make no configuration invalid: a
/// configuration with both switched off is valid if it was valid before.
pub proof fn switching_off_keeps_valid(config: ClientConfig)
    requires
        config_fault(config) is None,
    ensures
        config_fault(
            ClientConfig {
                reconnect: ReconnectConfig { enabled: false, ..config.reconnect },
                heartbeat: HeartbeatConfig { enabled: false, ..config.heartbeat },
                ..config
            },
        ) is None,
{
}

} // verus!
