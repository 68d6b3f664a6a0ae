//! Laws of what the functions of the library may be called on.
use vstd::prelude::*;

use crate::client::{LoopInput, WebSocketClient};
use crate::config::ClientConfig;
use crate::connection::{ConnectOutcome, ConnectionManager};
use crate::error::WebSocketResult;
use crate::event::{EventBus, EventListener, Received, WebSocketEvent};
use crate::heartbeat::HeartbeatManager;
use crate::message::{
    Message, MessageProcessor, MessageRouter, MessageSerializer, MessageType, WsMessage,
};
use crate::time::Duration;

verus! {

/// A bus can be made with every capacity that is not zero and leaves half of the numbers free, and a
/// client with every configuration whose queue has such a size. Every configuration can be validated,
/// and every span made whose nanoseconds stay below a second.
pub proof fn everything_can_be_made<
    F: Fn(&Message) -> WebSocketResult<()>,
    H: Fn(WebSocketEvent) -> WebSocketResult<()>,
    S,
>(capacity: usize, config: ClientConfig, secs: u64, nanos: u32)
    ensures
        0 < capacity <= usize::MAX / 2 ==> call_requires(EventBus::<H>::new, (capacity,)),
        0 < config.message.queue_size <= usize::MAX / 2 ==> call_requires(
            WebSocketClient::<F, H, S>::new,
            (config,),
        ),
        call_requires(ClientConfig::validate, (&config,)),
        call_requires(ConnectionManager::new, (config,)),
        nanos < 1_000_000_000 ==> call_requires(Duration::new, (secs, nanos)),
{
}

/// The connection can be asked at any time and after any number of attempts.
pub proof fn connections_can_always_be_asked(
    retries: u32,
    attempt: WebSocketResult<()>,
    outcome: ConnectOutcome,
    reason: Option<String>,
    asked: &ConnectionManager,
)
    ensures
        forall|manager: &mut ConnectionManager| #[trigger]
            call_requires(
                ConnectionManager::connect_with_retry,
                (manager, retries, attempt),
            ),
        forall|manager: &mut ConnectionManager| #[trigger]
            call_requires(ConnectionManager::connect, (manager,)),
        forall|manager: &mut ConnectionManager| #[trigger]
            call_requires(ConnectionManager::finish_connect, (manager, outcome)),
        forall|manager: &mut ConnectionManager| #[trigger]
            call_requires(ConnectionManager::disconnect, (manager, reason)),
        call_requires(ConnectionManager::backoff_terms, (asked, retries)),
{
}

/// The heartbeat can be asked at any time that is not before the last answer, and told anything at any
/// time.
pub proof fn heartbeats_can_always_be_asked(now: u64, sent: bool, asked: &HeartbeatManager)
    ensures
        asked@.last_pong <= now ==> call_requires(HeartbeatManager::is_healthy_at, (asked, now)),
        asked@.last_pong <= now ==> call_requires(HeartbeatManager::get_stats_at, (asked, now)),
        !asked@.config.enabled ==> call_requires(HeartbeatManager::is_healthy_at, (asked, now)),
        call_requires(HeartbeatManager::is_healthy, (asked,)),
        call_requires(HeartbeatManager::get_stats, (asked,)),
        forall|manager: &mut HeartbeatManager|
            manager@.last_pong <= now || !manager@.pending_ping ==> #[trigger] call_requires(
                HeartbeatManager::tick_at,
                (manager, now),
            ),
        forall|manager: &mut HeartbeatManager| #[trigger]
            call_requires(HeartbeatManager::tick, (manager,)),
        forall|manager: &mut HeartbeatManager| #[trigger]
            call_requires(HeartbeatManager::start_at, (manager, now)),
        forall|manager: &mut HeartbeatManager| #[trigger]
            call_requires(HeartbeatManager::start, (manager,)),
        forall|manager: &mut HeartbeatManager| #[trigger]
            call_requires(HeartbeatManager::handle_pong_at, (manager, now)),
        forall|manager: &mut HeartbeatManager| #[trigger]
            call_requires(HeartbeatManager::handle_pong, (manager,)),
        forall|manager: &mut HeartbeatManager| #[trigger]
            call_requires(HeartbeatManager::ping_sent, (manager, sent)),
        forall|manager: &mut HeartbeatManager| #[trigger]
            call_requires(HeartbeatManager::stop, (manager,)),
        forall|manager: &mut HeartbeatManager| #[trigger]
            call_requires(HeartbeatManager::reset_at, (manager, now)),
        forall|manager: &mut HeartbeatManager| #[trigger]
            call_requires(HeartbeatManager::reset, (manager,)),
{
}

/// Handlers, encoder and decoder that take everything can be handed every message, frame and event.
pub proof fn everything_can_be_handed_on<
    F: Fn(&Message) -> WebSocketResult<()>,
    H: Fn(WebSocketEvent) -> WebSocketResult<()>,
    D: Fn(&WsMessage) -> Result<Message, String>,
    E: FnOnce(&Message) -> Result<String, String>,
    S: FnOnce(WsMessage) -> Result<(), String>,
>(
    router: &MessageRouter<F>,
    processor: &MessageProcessor<F>,
    bus: &EventBus<H>,
    listener: &EventListener<H>,
    heartbeat: &HeartbeatManager,
    message: Message,
    frame: WsMessage,
    event: WebSocketEvent,
    received: Received,
    decode: D,
    encode: E,
    send: S,
)
    requires
        forall|handler: F, message: Message| #[trigger] call_requires(handler, (&message,)),
        forall|handler: H, event: WebSocketEvent| #[trigger] call_requires(handler, (event,)),
        forall|frame: WsMessage| #[trigger] call_requires(decode, (&frame,)),
        forall|message: Message| #[trigger] call_requires(encode, (&message,)),
        forall|frame: WsMessage| #[trigger] call_requires(send, (frame,)),
    ensures
        call_requires(MessageSerializer::serialize::<E>, (&message, encode)),
        call_requires(MessageSerializer::deserialize::<D>, (&frame, decode)),
        call_requires(MessageRouter::<F>::route_message, (router, &message)),
        call_requires(MessageProcessor::<F>::receive::<D>, (processor, &frame, decode)),
        call_requires(MessageProcessor::<F>::process_received::<D>, (processor, frame, decode)),
        call_requires(MessageProcessor::<F>::prepare_send::<E>, (processor, message, encode)),
        call_requires(EventBus::<H>::publish, (bus, event)),
        call_requires(EventBus::<H>::deliver, (bus, event)),
        call_requires(EventListener::<H>::listen, (listener, received)),
        call_requires(HeartbeatManager::handle_ping::<E, S>, (heartbeat, encode, send)),
        call_requires(HeartbeatManager::answer_ping::<E>, (heartbeat, encode)),
{
}

/// A client whose handlers take everything can be handed everything at any time, with an encoder, a
/// decoder and a sender that take everything.
pub proof fn clients_can_always_be_used<
    F: Fn(&Message) -> WebSocketResult<()>,
    H: Fn(WebSocketEvent) -> WebSocketResult<()>,
    S,
    D: Fn(&WsMessage) -> Result<Message, String>,
    E: FnOnce(&Message) -> Result<String, String>,
    G: FnOnce(&S, WsMessage) -> Result<(), String>,
>(
    used: &WebSocketClient<F, H, S>,
    message: Message,
    data: serde_json::Value,
    frame: &WsMessage,
    input: LoopInput,
    connected: WebSocketResult<S>,
    kind: MessageType,
    message_handler: F,
    decode: D,
    encode: E,
    hand: G,
)
    requires
        forall|handler: F, message: Message| #[trigger] call_requires(handler, (&message,)),
        forall|frame: WsMessage| #[trigger] call_requires(decode, (&frame,)),
        forall|message: Message| #[trigger] call_requires(encode, (&message,)),
        forall|sender: S, frame: WsMessage| #[trigger] call_requires(hand, (&sender, frame)),
    ensures
        call_requires(
            WebSocketClient::<F, H, S>::send_message::<E, G>,
            (used, message, encode, hand),
        ),
        call_requires(
            WebSocketClient::<F, H, S>::send_data::<E, G>,
            (used, data, encode, hand),
        ),
        forall|client: &mut WebSocketClient<F, H, S>| #[trigger]
            call_requires(WebSocketClient::<F, H, S>::start, (client,)),
        forall|client: &mut WebSocketClient<F, H, S>| #[trigger]
            call_requires(WebSocketClient::<F, H, S>::finish_start, (client, connected)),
        forall|client: &mut WebSocketClient<F, H, S>| #[trigger]
            call_requires(WebSocketClient::<F, H, S>::stop, (client,)),
        forall|client: &mut WebSocketClient<F, H, S>| #[trigger]
            call_requires(WebSocketClient::<F, H, S>::finish_stop, (client,)),
        forall|client: &mut WebSocketClient<F, H, S>| #[trigger]
            call_requires(
                WebSocketClient::<F, H, S>::register_message_handler,
                (client, kind, message_handler),
            ),
        forall|client: &mut WebSocketClient<F, H, S>| #[trigger]
            call_requires(
                WebSocketClient::<F, H, S>::handle_received_message::<D, E>,
                (client, frame, decode, encode),
            ),
        forall|client: &mut WebSocketClient<F, H, S>| #[trigger]
            call_requires(
                WebSocketClient::<F, H, S>::message_loop::<D, E>,
                (client, input, decode, encode),
            ),
{
}

} // verus!
