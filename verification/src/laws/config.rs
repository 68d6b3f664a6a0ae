//! Laws of the configuration.
use vstd::prelude::*;

use crate::client::WebSocketClient;
use crate::config::{ClientConfig, HeartbeatConfig, MessageConfig, ReconnectConfig};
use crate::error::{WebSocketError, WebSocketResult};
use crate::event::{channel_capacity, WebSocketEvent};
use crate::message::{Message, TypeModel};
use crate::time::Duration;

verus! {

/// The URL is one of a WebSocket server.
pub open spec fn is_websocket_url(url: Seq<char>) -> bool {
    ||| url.len() >= 5 && url.take(5) == seq!['w', 's', ':', '/', '/']
    ||| url.len() >= 6 && url.take(6) == seq!['w', 's', 's', ':', '/', '/']
}

/// What a text begins with.
proof fn prefix_is_taken(prefix: Seq<char>, text: Seq<char>)
    ensures
        prefix.is_prefix_of(text) <==> text.len() >= prefix.len() && text.take(
            prefix.len() as int,
        ) == prefix,
{
    if prefix.is_prefix_of(text) {
        assert(text.take(prefix.len() as int) =~= prefix);
    }
}

/// The beginnings of the URLs of WebSocket servers, character by character.
proof fn schemes_are_spelled_out(url: Seq<char>)
    ensures
        "ws://"@.is_prefix_of(url) || "wss://"@.is_prefix_of(url) <==> is_websocket_url(url),
{
    reveal_strlit("ws://");
    reveal_strlit("wss://");
    assert("ws://"@ =~= seq!['w', 's', ':', '/', '/']);
    assert("wss://"@ =~= seq!['w', 's', 's', ':', '/', '/']);
    prefix_is_taken("ws://"@, url);
    prefix_is_taken("wss://"@, url);
}

/// A configuration is valid exactly if its URL is one of a WebSocket server, its timeout for
/// connecting is not zero, its heartbeat interval is not zero where the heartbeat is switched on,
/// and its first reconnect interval is not zero where reconnection is switched on. Nothing else of
/// it plays a part.
pub proof fn validity_is_this(config: &ClientConfig, result: WebSocketResult<()>)
    requires
        call_ensures(ClientConfig::validate, (config,), result),
    ensures
        result is Ok <==> {
            &&& is_websocket_url(config.url@)
            &&& config.connect_timeout@ > 0
            &&& config.heartbeat.enabled ==> config.heartbeat.interval@ > 0
            &&& config.reconnect.enabled ==> config.reconnect.initial_interval@ > 0
        },
        result matches Err(error) ==> error is ConfigError,
{
    schemes_are_spelled_out(config.url@);
}

/// Of two configurations that differ only in what validity does not ask for, both are valid or none
/// is, and both have the same fault.
pub proof fn validity_asks_for_nothing_else(
    one: &ClientConfig,
    other: &ClientConfig,
    first: WebSocketResult<()>,
    second: WebSocketResult<()>,
)
    requires
        call_ensures(ClientConfig::validate, (one,), first),
        call_ensures(ClientConfig::validate, (other,), second),
        one.url@ == other.url@,
        one.connect_timeout@ == 0 <==> other.connect_timeout@ == 0,
        one.heartbeat.enabled && one.heartbeat.interval@ == 0 <==> other.heartbeat.enabled
            && other.heartbeat.interval@ == 0,
        one.reconnect.enabled && one.reconnect.initial_interval@ == 0 <==> other.reconnect.enabled
            && other.reconnect.initial_interval@ == 0,
    ensures
        match (first, second) {
            (Ok(_), Ok(_)) => true,
            (
                Err(WebSocketError::ConfigError(fault)),
                Err(WebSocketError::ConfigError(other_fault)),
            ) => fault@ == other_fault@,
            _ => false,
        },
{
}

/// The first fault of a configuration is the one reported, and each fault by its own words.
pub proof fn first_fault_is_reported(config: &ClientConfig, result: WebSocketResult<()>)
    requires
        call_ensures(ClientConfig::validate, (config,), result),
    ensures
        result matches Err(WebSocketError::ConfigError(fault)) ==> {
            if config.url@.len() == 0 {
                fault@ == "URL 不能为空"@
            } else if !is_websocket_url(config.url@) {
                fault@ == "URL 必须以 ws:// 或 wss:// 开头"@
            } else if config.connect_timeout@ == 0 {
                fault@ == "连接超时时间必须大于0"@
            } else if config.heartbeat.enabled && config.heartbeat.interval@ == 0 {
                fault@ == "心跳间隔必须大于0"@
            } else {
                fault@ == "重连间隔必须大于0"@
            }
        },
{
    schemes_are_spelled_out(config.url@);
}

/// A client is made of a configuration exactly if the configuration is valid. It keeps the
/// configuration, and begins without a connection, a running heartbeat, handlers or a sender.
pub proof fn valid_configurations_make_clients<
    F: Fn(&Message) -> WebSocketResult<()>,
    H: Fn(WebSocketEvent) -> WebSocketResult<()>,
    S,
>(
    config: ClientConfig,
    valid: WebSocketResult<()>,
    made: WebSocketResult<WebSocketClient<F, H, S>>,
)
    requires
        call_ensures(ClientConfig::validate, (&config,), valid),
        call_ensures(WebSocketClient::<F, H, S>::new, (config,), made),
    ensures
        match (valid, made) {
            (Ok(_), Ok(client)) => {
                &&& client@.config == config
                &&& client@.state is Initialized
                &&& client@.connection.config == config
                &&& client@.connection.state is Disconnected
                &&& client@.connection.retry_count == 0
                &&& client@.heartbeat.config == config.heartbeat
                &&& !client@.heartbeat.is_running
                &&& !client@.heartbeat.pending_ping
                &&& client@.heartbeat.last_pong == 0
                &&& client@.message_sender is None
                &&& forall|name: Seq<char>| !#[trigger]
                    client@.event_bus.handlers()@.contains_key(name)
                &&& forall|kind: TypeModel| (#[trigger] client@.router.handlers_of(kind)).len() == 0
                &&& channel_capacity(client@.event_bus.channel()) == config.message.queue_size
            },
            (
                Err(WebSocketError::ConfigError(fault)),
                Err(WebSocketError::ConfigError(other_fault)),
            ) => fault@ == other_fault@,
            _ => false,
        },
{
}

/// Each builder sets what it is given, and nothing else.
pub proof fn builders_set_one_part(
    config: ClientConfig,
    timeout: Duration,
    reconnect: ReconnectConfig,
    heartbeat: HeartbeatConfig,
    message: MessageConfig,
    built: ClientConfig,
)
    ensures
        call_ensures(ClientConfig::with_connect_timeout, (config, timeout), built) ==> {
            &&& built.connect_timeout == timeout
            &&& built.url@ == config.url@
            &&& built.reconnect == config.reconnect
            &&& built.heartbeat == config.heartbeat
            &&& built.message == config.message
        },
        call_ensures(ClientConfig::with_reconnect, (config, reconnect), built) ==> {
            &&& built.connect_timeout == config.connect_timeout
            &&& built.url@ == config.url@
            &&& built.reconnect == reconnect
            &&& built.heartbeat == config.heartbeat
            &&& built.message == config.message
        },
        call_ensures(ClientConfig::without_reconnect, (config,), built) ==> {
            &&& built.connect_timeout == config.connect_timeout
            &&& built.url@ == config.url@
            &&& !built.reconnect.enabled
            &&& built.reconnect.max_retries == config.reconnect.max_retries
            &&& built.reconnect.initial_interval == config.reconnect.initial_interval
            &&& built.reconnect.max_interval == config.reconnect.max_interval
            &&& built.reconnect.backoff_multiplier_bits
                == config.reconnect.backoff_multiplier_bits
            &&& built.heartbeat == config.heartbeat
            &&& built.message == config.message
        },
        call_ensures(ClientConfig::with_heartbeat, (config, heartbeat), built) ==> {
            &&& built.connect_timeout == config.connect_timeout
            &&& built.url@ == config.url@
            &&& built.reconnect == config.reconnect
            &&& built.heartbeat == heartbeat
            &&& built.message == config.message
        },
        call_ensures(ClientConfig::without_heartbeat, (config,), built) ==> {
            &&& built.connect_timeout == config.connect_timeout
            &&& built.url@ == config.url@
            &&& built.reconnect == config.reconnect
            &&& !built.heartbeat.enabled
            &&& built.heartbeat.interval == config.heartbeat.interval
            &&& built.heartbeat.timeout == config.heartbeat.timeout
            &&& built.message == config.message
        },
        call_ensures(ClientConfig::with_message_config, (config, message), built) ==> {
            &&& built.connect_timeout == config.connect_timeout
            &&& built.url@ == config.url@
            &&& built.reconnect == config.reconnect
            &&& built.heartbeat == config.heartbeat
            &&& built.message == message
        },
{
}

/// A new configuration keeps its URL and is otherwise the default one.
pub proof fn new_configurations_are_default(
    url: String,
    config: ClientConfig,
    default: ClientConfig,
)
    requires
        call_ensures(ClientConfig::new, (url,), config),
        call_ensures(<ClientConfig as Default>::default, (), default),
    ensures
        config.url@ == url@,
        config.connect_timeout@ == default.connect_timeout@,
        config.reconnect.enabled == default.reconnect.enabled,
        config.reconnect.max_retries == default.reconnect.max_retries,
        config.reconnect.initial_interval@ == default.reconnect.initial_interval@,
        config.reconnect.max_interval@ == default.reconnect.max_interval@,
        config.reconnect.backoff_multiplier_bits == default.reconnect.backoff_multiplier_bits,
        config.heartbeat.enabled == default.heartbeat.enabled,
        config.heartbeat.interval@ == default.heartbeat.interval@,
        config.heartbeat.timeout@ == default.heartbeat.timeout@,
        config.message == default.message,
{
}

} // verus!
