//! Laws of the client: its life, and what becomes of the frames that come and go.
use vstd::prelude::*;

use crate::client::{
    accepted_as, handled_as, loop_events, prepared_as, sent_with, taken_as, ClientModel, ClientState,
    ClientStateModel, LoopInput, LoopReport, ReceiveReport, SendReport, WebSocketClient,
};
use crate::connection::{ConnectionManager, ConnectionState};
use crate::error::{WebSocketError, WebSocketResult};
use crate::event::{event_models, EventBus, WebSocketEvent};
use crate::heartbeat::{answer_as, is_answer, pong_refused, HeartbeatManager, HeartbeatModel};
use crate::laws::event::events_have_their_models;
use crate::laws::heartbeat::is_pong;
use crate::laws::message::{
    is_received_as, receiving_is_this, same_kind, same_message, same_text,
};
use crate::message::{
    framed_as, received_as, serialized_as, Message, MessageRouter, MessageType, TypeModel, WsMessage,
};
use crate::text::quoted;
use crate::time::{shown_by_clock, shown_by_utc_clock, whole_millis, Duration};

verus! {

/// Each state is written by its name, and a failure with what is said of it.
pub proof fn states_are_written_by_their_names(state: &ClientState, text: String)
    requires
        call_ensures(ClientState::text, (state,), text),
    ensures
        match *state {
            ClientState::Initialized => text@ == "Initialized"@,
            ClientState::Starting => text@ == "Starting"@,
            ClientState::Running => text@ == "Running"@,
            ClientState::Stopping => text@ == "Stopping"@,
            ClientState::Stopped => text@ == "Stopped"@,
            ClientState::Error(reason) => text@ == "Error("@ + quoted(reason@) + ")"@,
        },
{
}

/// The state that is told is the one that the client is in, and the client runs exactly in the state of
/// that name.
pub proof fn states_are_told<
    F: Fn(&Message) -> WebSocketResult<()>,
    H: Fn(WebSocketEvent) -> WebSocketResult<()>,
    S,
>(client: &WebSocketClient<F, H, S>, state: ClientState, running: bool, bus: &EventBus<H>)
    requires
        call_ensures(WebSocketClient::<F, H, S>::get_state, (client,), state),
        call_ensures(WebSocketClient::<F, H, S>::is_running, (client,), running),
        call_ensures(WebSocketClient::<F, H, S>::event_bus, (client,), bus),
    ensures
        running <==> state is Running,
        *bus == client@.event_bus,
        match state {
            ClientState::Initialized => client@.state is Initialized,
            ClientState::Starting => client@.state is Starting,
            ClientState::Running => client@.state is Running,
            ClientState::Stopping => client@.state is Stopping,
            ClientState::Stopped => client@.state is Stopped,
            ClientState::Error(reason) => client@.state == ClientStateModel::Error(reason@),
        },
{
}

/// Everything of a client but its state and its sender is as it was.
pub open spec fn keeps_its_parts<
    F: Fn(&Message) -> WebSocketResult<()>,
    H: Fn(WebSocketEvent) -> WebSocketResult<()>,
    S,
>(before: ClientModel<F, H, S>, after: ClientModel<F, H, S>) -> bool {
    &&& after.config == before.config
    &&& after.connection == before.connection
    &&& after.router == before.router
    &&& after.heartbeat == before.heartbeat
    &&& after.event_bus == before.event_bus
}

/// A client starts exactly if it was never started or was stopped. Otherwise it is told which state
/// forbids that, and stays as it is.
pub proof fn clients_start_from_rest<
    F: Fn(&Message) -> WebSocketResult<()>,
    H: Fn(WebSocketEvent) -> WebSocketResult<()>,
    S,
>(result: WebSocketResult<()>)
    ensures
        forall|client: &mut WebSocketClient<F, H, S>| #[trigger]
            call_ensures(WebSocketClient::<F, H, S>::start, (client,), result) ==> {
                &&& result is Ok <==> client@.state is Initialized || client@.state is Stopped
                &&& keeps_its_parts(client@, final(client)@)
                &&& final(client)@.message_sender == client@.message_sender
                &&& match result {
                    Ok(_) => final(client)@.state is Starting,
                    Err(error) => {
                        &&& final(client)@.state == client@.state
                        &&& error matches WebSocketError::InternalError(text)
                        &&& text@ == "客户端状态无效，当前状态: "@ + match client@.state {
                            ClientStateModel::Initialized => "Initialized"@,
                            ClientStateModel::Starting => "Starting"@,
                            ClientStateModel::Running => "Running"@,
                            ClientStateModel::Stopping => "Stopping"@,
                            ClientStateModel::Stopped => "Stopped"@,
                            ClientStateModel::Error(reason) => "Error("@ + quoted(reason) + ")"@,
                        }
                    },
                }
            },
{
}

/// A client that was connected runs and has its sender. One that was not gives the error back, and
/// stays as it is.
pub proof fn connected_clients_run<
    F: Fn(&Message) -> WebSocketResult<()>,
    H: Fn(WebSocketEvent) -> WebSocketResult<()>,
    S,
>(connected: WebSocketResult<S>, result: WebSocketResult<()>)
    ensures
        forall|client: &mut WebSocketClient<F, H, S>| #[trigger]
            call_ensures(
                WebSocketClient::<F, H, S>::finish_start,
                (client, connected),
                result,
            ) ==> {
                &&& keeps_its_parts(client@, final(client)@)
                &&& match connected {
                    Ok(sender) => {
                        &&& result is Ok
                        &&& final(client)@.state is Running
                        &&& final(client)@.message_sender == Some(sender)
                    },
                    Err(error) => {
                        &&& result matches Err(given)
                        &&& given@ == error@
                        &&& final(client)@.state == client@.state
                        &&& final(client)@.message_sender == client@.message_sender
                    },
                }
            },
{
}

/// A client that begins to stop has no sender and no running heartbeat. Once it has stopped it is not
/// connected, which is published. Its configuration and its handlers stay.
pub proof fn stopped_clients_are_at_rest<
    F: Fn(&Message) -> WebSocketResult<()>,
    H: Fn(WebSocketEvent) -> WebSocketResult<()>,
    S,
>(nothing: (), event: WebSocketEvent)
    ensures
        forall|client: &mut WebSocketClient<F, H, S>| #[trigger]
            call_ensures(WebSocketClient::<F, H, S>::stop, (client,), nothing) ==> {
                &&& final(client)@.state is Stopping
                &&& final(client)@.message_sender is None
                &&& !final(client)@.heartbeat.is_running
                &&& final(client)@.heartbeat.config == client@.heartbeat.config
                &&& final(client)@.heartbeat.last_pong == client@.heartbeat.last_pong
                &&& final(client)@.heartbeat.pending_ping == client@.heartbeat.pending_ping
                &&& final(client)@.config == client@.config
                &&& final(client)@.connection == client@.connection
                &&& final(client)@.router == client@.router
                &&& final(client)@.event_bus == client@.event_bus
            },
        forall|client: &mut WebSocketClient<F, H, S>| #[trigger]
            call_ensures(WebSocketClient::<F, H, S>::finish_stop, (client,), event) ==> {
                &&& event matches WebSocketEvent::Disconnected(Some(reason))
                &&& reason@ == "客户端主动停止"@
                &&& final(client)@.state is Stopped
                &&& final(client)@.connection.state is Disconnected
                &&& final(client)@.connection.retry_count == client@.connection.retry_count
                &&& final(client)@.connection.config == client@.connection.config
                &&& final(client)@.message_sender == client@.message_sender
                &&& final(client)@.heartbeat == client@.heartbeat
                &&& final(client)@.config == client@.config
                &&& final(client)@.router == client@.router
                &&& final(client)@.event_bus == client@.event_bus
            },
{
}

/// A message was encoded into JSON of which the size is allowed, or is not.
pub open spec fn was_encoded<E: FnOnce(&Message) -> Result<String, String>>(
    message: Message,
    encode: E,
    copy: Message,
    json: String,
) -> bool {
    same_message(copy, message) && call_ensures(encode, (&copy,), Ok::<String, String>(json))
}

/// What sending a message comes to. Success means that the sender took the JSON that the message was
/// encoded into, which was no larger than allowed; a failure names what failed, and the sender was
/// handed nothing but such JSON.
pub open spec fn is_sent_as<
    S,
    E: FnOnce(&Message) -> Result<String, String>,
    G: FnOnce(&S, WsMessage) -> Result<(), String>,
>(
    sender: Option<S>,
    max_size: usize,
    message: Message,
    encode: E,
    hand: G,
    report: SendReport,
) -> bool {
    match sender {
        None => (report.result matches Err(WebSocketError::ConnectionClosed))
            && report.event is None,
        Some(sender) => match report.result {
            Ok(_) => {
                &&& exists|copy: Message, json: String| #[trigger]
                    was_encoded(message, encode, copy, json) && vstd::utf8::encode_utf8(
                        json@,
                    ).len() <= max_size && call_ensures(
                        hand,
                        (&sender, WsMessage::Text(json)),
                        Ok::<(), String>(()),
                    )
                &&& report.event matches Some(WebSocketEvent::MessageSent(sent))
                &&& same_message(sent, message)
            },
            Err(WebSocketError::ParseError(text)) => {
                &&& exists|copy: Message, reason: String| #[trigger]
                    call_ensures(encode, (&copy,), Err::<String, String>(reason))
                        && same_message(copy, message) && text@ == "序列化失败: "@ + reason@
                &&& report.event is None
            },
            Err(WebSocketError::SendFailed(text)) => {
                &&& report.event matches Some(WebSocketEvent::MessageSendFailed(unsent, why))
                &&& same_message(unsent, message)
                &&& why@ == "消息发送失败: "@ + text@
                &&& exists|copy: Message, json: String| #[trigger]
                    was_encoded(message, encode, copy, json) && if vstd::utf8::encode_utf8(
                        json@,
                    ).len() > max_size {
                        text@ == "消息大小超过最大限制"@
                    } else {
                        text@ == "消息发送通道已关闭"@ && exists|reason: String| #[trigger]
                            call_ensures(
                                hand,
                                (&sender, WsMessage::Text(json)),
                                Err::<(), String>(reason),
                            )
                    }
            },
            _ => false,
        },
    }
}

/// What the contracts say of sending a message is what it comes to.
proof fn sending_is_this<
    S,
    E: FnOnce(&Message) -> Result<String, String>,
    G: FnOnce(&S, WsMessage) -> Result<(), String>,
>(
    sender: Option<S>,
    max_size: usize,
    message: Message,
    encode: E,
    hand: G,
    report: SendReport,
)
    requires
        sent_with(sender, max_size, message, encode, hand, report),
    ensures
        is_sent_as(sender, max_size, message, encode, hand, report),
{
    if let Some(sender) = sender {
        let (copy, prepared) = choose|
            copy: Message,
            prepared: WebSocketResult<WsMessage>,
        | #[trigger]
            serialized_as(copy, encode, prepared) && copy@ == message@ && prepared_as(
                sender,
                max_size,
                message,
                prepared,
                hand,
                report,
            );
        crate::laws::message::models_tell_messages_apart(copy, message);
        let encoded = choose|encoded: Result<String, String>| #[trigger]
            call_ensures(encode, (&copy,), encoded) && framed_as(encoded, prepared);
        match encoded {
            Ok(json) => {
                assert(was_encoded(message, encode, copy, json));
                if vstd::utf8::encode_utf8(json@).len() <= max_size {
                    let frame = WsMessage::Text(json);
                    let taken = choose|taken: Result<(), String>| #[trigger]
                        call_ensures(hand, (&sender, frame), taken) && taken_as(
                            message,
                            taken,
                            report,
                        );
                    match taken {
                        Ok(unit) => {
                            assert(unit == ());
                            assert(call_ensures(
                                hand,
                                (&sender, WsMessage::Text(json)),
                                Ok::<(), String>(()),
                            ));
                        },
                        Err(reason) => {
                            assert(call_ensures(
                                hand,
                                (&sender, WsMessage::Text(json)),
                                Err::<(), String>(reason),
                            ));
                        },
                    }
                }
            },
            Err(reason) => {
                assert(call_ensures(encode, (&copy,), Err::<String, String>(reason)));
            },
        }
    }
}

/// A message of any kind is sent as its JSON, to the sender of the client, and reported as that came
/// out.
pub proof fn messages_are_sent_to_the_sender<
    F: Fn(&Message) -> WebSocketResult<()>,
    H: Fn(WebSocketEvent) -> WebSocketResult<()>,
    S,
    E: FnOnce(&Message) -> Result<String, String>,
    G: FnOnce(&S, WsMessage) -> Result<(), String>,
>(
    client: &WebSocketClient<F, H, S>,
    message: Message,
    encode: E,
    hand: G,
    report: SendReport,
)
    requires
        call_ensures(
            WebSocketClient::<F, H, S>::send_message::<E, G>,
            (client, message, encode, hand),
            report,
        ),
    ensures
        is_sent_as(
            client@.message_sender,
            client@.config.message.max_size,
            message,
            encode,
            hand,
            report,
        ),
{
    sending_is_this(
        client@.message_sender,
        client@.config.message.max_size,
        message,
        encode,
        hand,
        report,
    );
}

/// Data is sent in a message of its own: a data message that carries it, made at a time that the clock
/// showed.
pub proof fn data_is_sent_in_a_message<
    F: Fn(&Message) -> WebSocketResult<()>,
    H: Fn(WebSocketEvent) -> WebSocketResult<()>,
    S,
    E: FnOnce(&Message) -> Result<String, String>,
    G: FnOnce(&S, WsMessage) -> Result<(), String>,
>(
    client: &WebSocketClient<F, H, S>,
    data: serde_json::Value,
    encode: E,
    hand: G,
    report: SendReport,
)
    requires
        call_ensures(
            WebSocketClient::<F, H, S>::send_data::<E, G>,
            (client, data, encode, hand),
            report,
        ),
    ensures
        exists|message: Message| #[trigger]
            is_sent_as(
                client@.message_sender,
                client@.config.message.max_size,
                message,
                encode,
                hand,
                report,
            ) && message.message_type is Data && message.payload == data && message.id is None && (
            forall|key: Seq<char>| !#[trigger] message.metadata@.contains_key(key))
                && shown_by_utc_clock(message.timestamp),
{
    let message = choose|message: Message| #[trigger]
        sent_with(
            client@.message_sender,
            client@.config.message.max_size,
            message,
            encode,
            hand,
            report,
        ) && crate::message::made_now(message@, TypeModel::Data, data);
    sending_is_this(
        client@.message_sender,
        client@.config.message.max_size,
        message,
        encode,
        hand,
        report,
    );
    assert(message@.message_type == TypeModel::Data);
    assert(message.message_type is Data);
    assert(message@.metadata == message.metadata@);
}

/// The heartbeat is as it was.
pub open spec fn is_untouched(before: HeartbeatModel, after: HeartbeatModel) -> bool {
    &&& after.config == before.config
    &&& after.is_running == before.is_running
    &&& after.last_pong == before.last_pong
    &&& after.pending_ping == before.pending_ping
}

/// What a message that was received comes to, by its kind. The answer to a heartbeat is noted and
/// published while the heartbeat is switched on. A heartbeat is then answered, and not published.
/// Anything else is published. Nothing else is sent or published.
pub open spec fn is_accepted_as<E: FnOnce(&Message) -> Result<String, String>>(
    before: HeartbeatModel,
    message: Message,
    encode: E,
    now: u64,
    after: HeartbeatModel,
    report: ReceiveReport,
) -> bool {
    match message.message_type {
        MessageType::Pong => {
            &&& report.result is Ok
            &&& report.answer is None
            &&& if before.config.enabled {
                &&& report.events@.len() == 1
                &&& report.events@[0] is HeartbeatReceived
                &&& !after.pending_ping
                &&& after.last_pong == now
                &&& after.is_running == before.is_running
                &&& after.config == before.config
            } else {
                report.events@.len() == 0 && is_untouched(before, after)
            }
        },
        MessageType::Ping => {
            &&& report.events@.len() == 0
            &&& is_untouched(before, after)
            &&& match (report.result, report.answer) {
                (Ok(_), None) => !before.config.enabled,
                (Ok(_), Some(frame)) => before.config.enabled && exists|
                    pong: Message,
                    json: String,
                | #[trigger]
                    call_ensures(encode, (&pong,), Ok::<String, String>(json)) && is_pong(pong)
                        && frame == WsMessage::Text(json),
                (Err(error), None) => before.config.enabled && exists|
                    pong: Message,
                    reason: String,
                | #[trigger]
                    call_ensures(encode, (&pong,), Err::<String, String>(reason)) && is_pong(pong)
                        && (error matches WebSocketError::ParseError(text) && text@
                        == "Pong 序列化失败: "@ + reason@),
                (Err(_), Some(_)) => false,
            }
        },
        _ => {
            &&& report.result is Ok
            &&& report.answer is None
            &&& report.events@.len() == 1
            &&& report.events@[0] matches WebSocketEvent::MessageReceived(published)
            &&& same_message(published, message)
            &&& is_untouched(before, after)
        },
    }
}

/// What a frame that came in comes to. JSON content is received as a message, or its error is published
/// and nothing else happens; a close frame is published with its reason; nothing comes of the others.
pub open spec fn is_handled_as<
    F: Fn(&Message) -> WebSocketResult<()>,
    D: Fn(&WsMessage) -> Result<Message, String>,
    E: FnOnce(&Message) -> Result<String, String>,
>(
    router: MessageRouter<F>,
    before: HeartbeatModel,
    frame: WsMessage,
    decode: D,
    encode: E,
    now: u64,
    after: HeartbeatModel,
    report: ReceiveReport,
) -> bool {
    match frame {
        WsMessage::Close(reason) => {
            &&& report.result is Ok
            &&& report.answer is None
            &&& report.events@.len() == 1
            &&& report.events@[0] matches WebSocketEvent::Disconnected(published)
            &&& same_text(published, reason)
            &&& is_untouched(before, after)
        },
        WsMessage::Ping(_) | WsMessage::Pong(_) | WsMessage::Frame => {
            &&& report.result is Ok
            &&& report.answer is None
            &&& report.events@.len() == 0
            &&& is_untouched(before, after)
        },
        WsMessage::Text(_) | WsMessage::Binary(_) => exists|
            received: WebSocketResult<Message>,
        | #[trigger]
            is_received_as(router, frame, decode, received) && match received {
                Ok(message) => is_accepted_as(before, message, encode, now, after, report),
                Err(error) => {
                    &&& report.result is Ok
                    &&& report.answer is None
                    &&& report.events@.len() == 1
                    &&& report.events@[0] matches WebSocketEvent::Error(published)
                    &&& published@ == error@
                    &&& is_untouched(before, after)
                },
            },
    }
}

/// What the contracts say of a received message is what it comes to.
proof fn accepting_is_this<E: FnOnce(&Message) -> Result<String, String>>(
    before: HeartbeatModel,
    message: Message,
    encode: E,
    now: u64,
    after: HeartbeatModel,
    report: ReceiveReport,
)
    requires
        accepted_as(before, message, encode, now, after, report),
    ensures
        is_accepted_as(before, message, encode, now, after, report),
{
    events_have_their_models(report.events@);
    match message.message_type {
        MessageType::Ping => {
            let answer = choose|answer: WebSocketResult<Option<WsMessage>>| #[trigger]
                answer_as(before, encode, answer) && match answer {
                    Ok(frame) => report.result is Ok && report.answer == frame,
                    Err(error) => report.result == Err::<(), WebSocketError>(error)
                        && report.answer is None,
                };
            if before.config.enabled {
                let (pong, encoded) = choose|
                    pong: Message,
                    encoded: Result<String, String>,
                | #[trigger]
                    call_ensures(encode, (&pong,), encoded) && is_answer(pong) && match encoded {
                        Ok(json) => answer == Ok::<Option<WsMessage>, WebSocketError>(
                            Some(WsMessage::Text(json)),
                        ),
                        Err(reason) => answer matches Err(error) && error@ == pong_refused(
                            reason@,
                        ),
                    };
                assert(pong@.message_type == TypeModel::Pong);
                assert(is_pong(pong));
                match encoded {
                    Ok(json) => {
                        assert(call_ensures(encode, (&pong,), Ok::<String, String>(json)));
                    },
                    Err(reason) => {
                        assert(call_ensures(encode, (&pong,), Err::<String, String>(reason)));
                    },
                }
            }
        },
        MessageType::Pong => {},
        _ => {
            if let WebSocketEvent::MessageReceived(published) = report.events@[0] {
                crate::laws::message::models_tell_messages_apart(published, message);
            }
        },
    }
}

/// What the contracts say of a frame that came in is what it comes to.
proof fn handling_is_this<
    F: Fn(&Message) -> WebSocketResult<()>,
    D: Fn(&WsMessage) -> Result<Message, String>,
    E: FnOnce(&Message) -> Result<String, String>,
>(
    router: MessageRouter<F>,
    before: HeartbeatModel,
    frame: WsMessage,
    decode: D,
    encode: E,
    now: u64,
    after: HeartbeatModel,
    report: ReceiveReport,
)
    requires
        handled_as(router, before, frame, decode, encode, now, after, report),
    ensures
        is_handled_as(router, before, frame, decode, encode, now, after, report),
{
    events_have_their_models(report.events@);
    if frame is Text || frame is Binary {
        let received = choose|received: WebSocketResult<Message>| #[trigger]
            received_as(router, frame, decode, received) && match received {
                Ok(message) => accepted_as(before, message, encode, now, after, report),
                Err(error) => report.result is Ok && after == before && event_models(
                    report.events@,
                ) == seq![crate::event::EventModel::Error(error@)] && report.answer is None,
            };
        receiving_is_this(router, frame, decode, received);
        if let Ok(message) = received {
            accepting_is_this(before, message, encode, now, after, report);
        }
    }
}

/// Nothing of a client is changed but its heartbeat.
pub open spec fn only_heartbeat_differs<
    F: Fn(&Message) -> WebSocketResult<()>,
    H: Fn(WebSocketEvent) -> WebSocketResult<()>,
    S,
>(before: ClientModel<F, H, S>, after: ClientModel<F, H, S>) -> bool {
    &&& after.config == before.config
    &&& after.state == before.state
    &&& after.connection == before.connection
    &&& after.router == before.router
    &&& after.event_bus == before.event_bus
    &&& after.message_sender == before.message_sender
}

/// A frame that comes in is handled by what it is, at the given time or at the time that the clock
/// shows, and changes nothing of the client but its heartbeat.
pub proof fn frames_are_handled_by_what_they_are<
    F: Fn(&Message) -> WebSocketResult<()>,
    H: Fn(WebSocketEvent) -> WebSocketResult<()>,
    S,
    D: Fn(&WsMessage) -> Result<Message, String>,
    E: FnOnce(&Message) -> Result<String, String>,
>(frame: &WsMessage, decode: D, encode: E, now: u64, report: ReceiveReport)
    ensures
        forall|client: &mut WebSocketClient<F, H, S>| #[trigger]
            call_ensures(
                WebSocketClient::<F, H, S>::handle_received_message_at::<D, E>,
                (client, frame, decode, encode, now),
                report,
            ) ==> only_heartbeat_differs(client@, final(client)@) && is_handled_as(
                client@.router,
                client@.heartbeat,
                *frame,
                decode,
                encode,
                now,
                final(client)@.heartbeat,
                report,
            ),
        forall|client: &mut WebSocketClient<F, H, S>| #[trigger]
            call_ensures(
                WebSocketClient::<F, H, S>::handle_received_message::<D, E>,
                (client, frame, decode, encode),
                report,
            ) ==> only_heartbeat_differs(client@, final(client)@) && exists|
                span: Option<Duration>,
            | #[trigger]
                shown_by_clock(span) && is_handled_as(
                    client@.router,
                    client@.heartbeat,
                    *frame,
                    decode,
                    encode,
                    whole_millis(span),
                    final(client)@.heartbeat,
                    report,
                ),
{
    assert forall|client: &mut WebSocketClient<F, H, S>| #[trigger]
        call_ensures(
            WebSocketClient::<F, H, S>::handle_received_message_at::<D, E>,
            (client, frame, decode, encode, now),
            report,
        ) implies only_heartbeat_differs(client@, final(client)@) && is_handled_as(
        client@.router,
        client@.heartbeat,
        *frame,
        decode,
        encode,
        now,
        final(client)@.heartbeat,
        report,
    ) by {
        handling_is_this(
            client@.router,
            client@.heartbeat,
            *frame,
            decode,
            encode,
            now,
            final(client)@.heartbeat,
            report,
        );
    }
    assert forall|client: &mut WebSocketClient<F, H, S>| #[trigger]
        call_ensures(
            WebSocketClient::<F, H, S>::handle_received_message::<D, E>,
            (client, frame, decode, encode),
            report,
        ) implies only_heartbeat_differs(client@, final(client)@) && exists|
        span: Option<Duration>,
    | #[trigger]
        shown_by_clock(span) && is_handled_as(
            client@.router,
            client@.heartbeat,
            *frame,
            decode,
            encode,
            whole_millis(span),
            final(client)@.heartbeat,
            report,
        ) by {
        let span = choose|span: Option<Duration>| #[trigger]
            shown_by_clock(span) && handled_as(
                client@.router,
                client@.heartbeat,
                *frame,
                decode,
                encode,
                whole_millis(span),
                final(client)@.heartbeat,
                report,
            );
        handling_is_this(
            client@.router,
            client@.heartbeat,
            *frame,
            decode,
            encode,
            whole_millis(span),
            final(client)@.heartbeat,
            report,
        );
    }
}

/// What the message loop gives of a frame that came in: what its handling gives, and behind it the error
/// of its handling, if there was one.
pub open spec fn is_passed_on_as(handling: ReceiveReport, report: LoopReport) -> bool {
    &&& report.answer == handling.answer
    &&& match handling.result {
        Ok(_) => report.events@.len() == handling.events@.len(),
        Err(error) => {
            &&& report.events@.len() == handling.events@.len() + 1
            &&& report.events@.last() matches WebSocketEvent::Error(published)
            &&& published@ == error@
        },
    }
    &&& forall|i: int|
        0 <= i < handling.events@.len() ==> (#[trigger] report.events@[i])@
            == handling.events@[i]@
}

/// What the contracts say of the events of a frame is that they are passed on.
proof fn passing_on_is_this(handling: ReceiveReport, report: LoopReport)
    requires
        event_models(report.events@) == loop_events(handling),
        report.answer == handling.answer,
    ensures
        is_passed_on_as(handling, report),
{
    events_have_their_models(report.events@);
    events_have_their_models(handling.events@);
    assert forall|i: int| 0 <= i < handling.events@.len() implies (#[trigger] report.events@[i])@
        == handling.events@[i]@ by {
        assert(event_models(report.events@)[i] == event_models(handling.events@)[i]);
    }
    if handling.result is Err {
        let last = report.events@.len() - 1;
        assert(report.events@.last() == report.events@[last]);
    }
}

/// A frame that comes in leaves the loop running, and is handled by what it is, at the time that the
/// clock shows.
pub proof fn loops_handle_the_frames_that_come_in<
    F: Fn(&Message) -> WebSocketResult<()>,
    H: Fn(WebSocketEvent) -> WebSocketResult<()>,
    S,
    D: Fn(&WsMessage) -> Result<Message, String>,
    E: FnOnce(&Message) -> Result<String, String>,
>(frame: WsMessage, decode: D, encode: E, report: LoopReport)
    ensures
        forall|client: &mut WebSocketClient<F, H, S>| #[trigger]
            call_ensures(
                WebSocketClient::<F, H, S>::message_loop::<D, E>,
                (client, LoopInput::Received(frame), decode, encode),
                report,
            ) ==> {
                &&& !report.ends
                &&& only_heartbeat_differs(client@, final(client)@)
                &&& exists|span: Option<Duration>, handling: ReceiveReport| #[trigger]
                    shown_by_clock(span) && #[trigger] is_handled_as(
                        client@.router,
                        client@.heartbeat,
                        frame,
                        decode,
                        encode,
                        whole_millis(span),
                        final(client)@.heartbeat,
                        handling,
                    ) && is_passed_on_as(handling, report)
            },
{
    assert forall|client: &mut WebSocketClient<F, H, S>| #[trigger]
        call_ensures(
            WebSocketClient::<F, H, S>::message_loop::<D, E>,
            (client, LoopInput::Received(frame), decode, encode),
            report,
        ) implies {
        &&& !report.ends
        &&& only_heartbeat_differs(client@, final(client)@)
        &&& exists|span: Option<Duration>, handling: ReceiveReport| #[trigger]
            shown_by_clock(span) && #[trigger] is_handled_as(
                client@.router,
                client@.heartbeat,
                frame,
                decode,
                encode,
                whole_millis(span),
                final(client)@.heartbeat,
                handling,
            ) && is_passed_on_as(handling, report)
    } by {
        let (span, handling) = choose|span: Option<Duration>, handling: ReceiveReport| #[trigger]
            shown_by_clock(span) && #[trigger] handled_as(
                client@.router,
                client@.heartbeat,
                frame,
                decode,
                encode,
                whole_millis(span),
                final(client)@.heartbeat,
                handling,
            ) && event_models(report.events@) == loop_events(handling) && report.answer
                == handling.answer;
        handling_is_this(
            client@.router,
            client@.heartbeat,
            frame,
            decode,
            encode,
            whole_millis(span),
            final(client)@.heartbeat,
            handling,
        );
        passing_on_is_this(handling, report);
    }
}

/// Whatever else happens in the loop, nothing is to be sent. Frames that go out leave it running, and so
/// does an answer that could not be sent, which is published. A failure to receive or to send ends it and
/// is published; the end of the connection ends it, is published and shows in the state; the end of what
/// goes out ends it silently.
pub proof fn loops_end_with_the_connection<
    F: Fn(&Message) -> WebSocketResult<()>,
    H: Fn(WebSocketEvent) -> WebSocketResult<()>,
    S,
    D: Fn(&WsMessage) -> Result<Message, String>,
    E: FnOnce(&Message) -> Result<String, String>,
>(input: LoopInput, decode: D, encode: E, report: LoopReport)
    requires
        !(input is Received),
    ensures
        forall|client: &mut WebSocketClient<F, H, S>| #[trigger]
            call_ensures(
                WebSocketClient::<F, H, S>::message_loop::<D, E>,
                (client, input, decode, encode),
                report,
            ) ==> {
                &&& report.answer is None
                &&& report.ends <==> !(input is Sent || input is Answered)
                &&& only_heartbeat_differs(
                    ClientModel { connection: final(client)@.connection, ..client@ },
                    final(client)@,
                )
                &&& is_untouched(client@.heartbeat, final(client)@.heartbeat)
                &&& final(client)@.connection.config == client@.connection.config
                &&& final(client)@.connection.retry_count == client@.connection.retry_count
                &&& input is RemoteClosed ==> final(client)@.connection.state is Disconnected
                &&& !(input is RemoteClosed) ==> final(client)@.connection.state
                    == client@.connection.state
                &&& match input {
                    LoopInput::Sent | LoopInput::SenderClosed | LoopInput::Answered(Ok(_)) =>
                        report.events@.len() == 0,
                    LoopInput::Answered(Err(reason)) => {
                        &&& report.events@.len() == 1
                        &&& report.events@[0] matches WebSocketEvent::Error(
                            WebSocketError::SendFailed(text),
                        )
                        &&& text@ == "Pong 发送失败: "@ + reason@
                    },
                    LoopInput::ReceiveFailed(error) => {
                        &&& report.events@.len() == 1
                        &&& report.events@[0] matches WebSocketEvent::Error(published)
                        &&& published@ == error@
                    },
                    LoopInput::SendFailed(reason) => {
                        &&& report.events@.len() == 1
                        &&& report.events@[0] matches WebSocketEvent::Error(
                            WebSocketError::SendFailed(text),
                        )
                        &&& text@ == reason@
                    },
                    LoopInput::RemoteClosed => {
                        &&& report.events@.len() == 1
                        &&& report.events@[0] matches WebSocketEvent::Disconnected(Some(reason))
                        &&& reason@ == "连接被远程关闭"@
                    },
                    LoopInput::Received(_) => true,
                }
            },
{
    events_have_their_models(report.events@);
}

/// A message handler that is registered stands behind the others of its kind, an event handler under its
/// name, and an event handler that is removed is gone. The rest of the client stays.
pub proof fn clients_keep_their_handlers<
    F: Fn(&Message) -> WebSocketResult<()>,
    H: Fn(WebSocketEvent) -> WebSocketResult<()>,
    S,
>(
    kind: MessageType,
    other: MessageType,
    message_handler: F,
    name: String,
    text: &str,
    event_handler: H,
    nothing: (),
)
    ensures
        forall|client: &mut WebSocketClient<F, H, S>| #[trigger]
            call_ensures(
                WebSocketClient::<F, H, S>::register_message_handler,
                (client, kind, message_handler),
                nothing,
            ) ==> {
                &&& same_kind(kind, other) ==> final(client)@.router.handlers_of(other@)
                    == client@.router.handlers_of(other@).push(message_handler)
                &&& !same_kind(kind, other) ==> final(client)@.router.handlers_of(other@)
                    == client@.router.handlers_of(other@)
                &&& final(client)@.state == client@.state
                &&& final(client)@.config == client@.config
                &&& final(client)@.connection == client@.connection
                &&& final(client)@.heartbeat == client@.heartbeat
                &&& final(client)@.event_bus == client@.event_bus
                &&& final(client)@.message_sender == client@.message_sender
            },
        forall|client: &mut WebSocketClient<F, H, S>| #[trigger]
            call_ensures(
                WebSocketClient::<F, H, S>::register_event_handler,
                (client, name, event_handler),
                nothing,
            ) ==> {
                &&& final(client)@.event_bus.handlers()@ == client@.event_bus.handlers()@.insert(
                    name@,
                    event_handler,
                )
                &&& final(client)@.event_bus.channel() == client@.event_bus.channel()
                &&& final(client)@.state == client@.state
                &&& final(client)@.config == client@.config
                &&& final(client)@.connection == client@.connection
                &&& final(client)@.heartbeat == client@.heartbeat
                &&& final(client)@.router == client@.router
                &&& final(client)@.message_sender == client@.message_sender
            },
        forall|client: &mut WebSocketClient<F, H, S>| #[trigger]
            call_ensures(
                WebSocketClient::<F, H, S>::unregister_event_handler,
                (client, text),
                nothing,
            ) ==> {
                &&& final(client)@.event_bus.handlers()@ == client@.event_bus.handlers()@.remove(
                    text@,
                )
                &&& final(client)@.event_bus.channel() == client@.event_bus.channel()
                &&& final(client)@.state == client@.state
                &&& final(client)@.config == client@.config
                &&& final(client)@.connection == client@.connection
                &&& final(client)@.heartbeat == client@.heartbeat
                &&& final(client)@.router == client@.router
                &&& final(client)@.message_sender == client@.message_sender
            },
{
    assert(kind@ == other@ <==> same_kind(kind, other));
}

/// The connection and the heartbeat of a client are lent as they are, and what is done to them is done to
/// the client.
pub proof fn parts_are_lent<
    F: Fn(&Message) -> WebSocketResult<()>,
    H: Fn(WebSocketEvent) -> WebSocketResult<()>,
    S,
>()
    ensures
        forall|client: &mut WebSocketClient<F, H, S>, connection: &mut ConnectionManager| #[trigger]
            call_ensures(
                WebSocketClient::<F, H, S>::connection_mut,
                (client,),
                connection,
            ) ==> {
                &&& connection@ == client@.connection
                &&& final(client)@.connection == final(connection)@
                &&& final(client)@.heartbeat == client@.heartbeat
                &&& final(client)@.state == client@.state
                &&& final(client)@.config == client@.config
                &&& final(client)@.router == client@.router
                &&& final(client)@.event_bus == client@.event_bus
                &&& final(client)@.message_sender == client@.message_sender
            },
        forall|client: &mut WebSocketClient<F, H, S>, heartbeat: &mut HeartbeatManager| #[trigger]
            call_ensures(WebSocketClient::<F, H, S>::heartbeat_mut, (client,), heartbeat) ==> {
                &&& heartbeat@ == client@.heartbeat
                &&& final(client)@.heartbeat == final(heartbeat)@
                &&& final(client)@.connection == client@.connection
                &&& final(client)@.state == client@.state
                &&& final(client)@.config == client@.config
                &&& final(client)@.router == client@.router
                &&& final(client)@.event_bus == client@.event_bus
                &&& final(client)@.message_sender == client@.message_sender
            },
{
}

/// Two states of a client are equal exactly if they are of one name and say the same, and so are two
/// states of a connection.
pub proof fn equal_states_say_the_same(
    one: &ClientState,
    other: &ClientState,
    answer: bool,
    connection: &ConnectionState,
    other_connection: &ConnectionState,
    connection_answer: bool,
)
    requires
        call_ensures(<ClientState as PartialEq>::eq, (one, other), answer),
        call_ensures(
            <ConnectionState as PartialEq>::eq,
            (connection, other_connection),
            connection_answer,
        ),
    ensures
        answer <==> match (*one, *other) {
            (ClientState::Initialized, ClientState::Initialized) => true,
            (ClientState::Starting, ClientState::Starting) => true,
            (ClientState::Running, ClientState::Running) => true,
            (ClientState::Stopping, ClientState::Stopping) => true,
            (ClientState::Stopped, ClientState::Stopped) => true,
            (ClientState::Error(reason), ClientState::Error(other_reason)) => reason@
                == other_reason@,
            _ => false,
        },
        connection_answer <==> match (*connection, *other_connection) {
            (ConnectionState::Disconnected, ConnectionState::Disconnected) => true,
            (ConnectionState::Connecting, ConnectionState::Connecting) => true,
            (ConnectionState::Connected, ConnectionState::Connected) => true,
            (ConnectionState::Reconnecting, ConnectionState::Reconnecting) => true,
            (ConnectionState::Failed(reason), ConnectionState::Failed(other_reason)) => reason@
                == other_reason@,
            _ => false,
        },
{
}

} // verus!
