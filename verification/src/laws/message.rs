//! Laws of the messages: how they are built, framed, read and routed.
use vstd::prelude::*;

use crate::error::{WebSocketError, WebSocketResult};
use crate::message::{
    answered, json_text, outcome_of, read_as, routed, Message, MessageProcessor, MessageRouter,
    MessageSerializer, MessageType, TypeModel, WsMessage,
};
use crate::table::Table;
use crate::text::lossy;
use crate::time::shown_by_utc_clock;

verus! {

/// Two kinds are the same: of one variant, and of one name where they have names.
pub open spec fn same_kind(one: MessageType, other: MessageType) -> bool {
    match (one, other) {
        (MessageType::Data, MessageType::Data) => true,
        (MessageType::Ping, MessageType::Ping) => true,
        (MessageType::Pong, MessageType::Pong) => true,
        (MessageType::Control, MessageType::Control) => true,
        (MessageType::Custom(name), MessageType::Custom(other_name)) => name@ == other_name@,
        _ => false,
    }
}

/// Two optional texts are the same.
pub open spec fn same_text(one: Option<String>, other: Option<String>) -> bool {
    match (one, other) {
        (Some(text), Some(other_text)) => text@ == other_text@,
        (None, None) => true,
        _ => false,
    }
}

/// Two messages are the same, part by part.
pub open spec fn same_message(one: Message, other: Message) -> bool {
    &&& same_kind(one.message_type, other.message_type)
    &&& same_text(one.id, other.id)
    &&& one.payload == other.payload
    &&& one.timestamp == other.timestamp
    &&& one.metadata@ == other.metadata@
}

/// Two kinds have one model exactly if they are the same, and two messages too.
pub proof fn models_tell_messages_apart(one: Message, other: Message)
    ensures
        one.message_type@ == other.message_type@ <==> same_kind(
            one.message_type,
            other.message_type,
        ),
        one@ == other@ <==> same_message(one, other),
{
}

/// A clone of a message is the same message.
pub proof fn clones_are_the_same(message: &Message, copy: Message)
    requires
        call_ensures(<Message as Clone>::clone, (message,), copy),
    ensures
        same_message(copy, *message),
{
}

/// A message of a kind and with a payload, without id or metadata.
pub open spec fn is_plain(
    message: Message,
    kind: MessageType,
    payload: serde_json::Value,
) -> bool {
    &&& same_kind(message.message_type, kind)
    &&& message.id is None
    &&& message.payload == payload
    &&& forall|key: Seq<char>| !#[trigger] message.metadata@.contains_key(key)
}

/// A message made at a time is of the given kind, with the given payload and that time. One made now
/// has the time that the clock shows.
pub proof fn messages_are_made_as_told(
    kind: MessageType,
    payload: serde_json::Value,
    time: i64,
    message: Message,
)
    ensures
        call_ensures(Message::at, (kind, payload, time), message) ==> is_plain(
            message,
            kind,
            payload,
        ) && message.timestamp == time,
        call_ensures(Message::new, (kind, payload), message) ==> is_plain(message, kind, payload)
            && shown_by_utc_clock(message.timestamp),
        call_ensures(Message::data, (payload,), message) ==> is_plain(
            message,
            MessageType::Data,
            payload,
        ) && shown_by_utc_clock(message.timestamp),
        call_ensures(Message::ping, (), message) ==> is_plain(
            message,
            MessageType::Ping,
            json_text("ping"@),
        ) && shown_by_utc_clock(message.timestamp),
        call_ensures(Message::pong, (), message) ==> is_plain(
            message,
            MessageType::Pong,
            json_text("pong"@),
        ) && shown_by_utc_clock(message.timestamp),
{
    let made = message@.message_type;
    assert(made == kind@ ==> same_kind(message.message_type, kind));
}

/// A message under another id, or with more metadata, is otherwise the same.
pub proof fn builders_change_one_part(
    message: Message,
    text: String,
    content: serde_json::Value,
    built: Message,
)
    ensures
        call_ensures(Message::with_id, (message, text), built) ==> {
            &&& built.id matches Some(id)
            &&& id@ == text@
            &&& same_kind(built.message_type, message.message_type)
            &&& built.payload == message.payload
            &&& built.timestamp == message.timestamp
            &&& built.metadata@ == message.metadata@
        },
        call_ensures(Message::with_metadata, (message, text, content), built) ==> {
            &&& built.metadata@.contains_key(text@)
            &&& built.metadata@[text@] == content
            &&& forall|key: Seq<char>|
                key != text@ ==> {
                    &&& #[trigger] built.metadata@.contains_key(key)
                        <==> message.metadata@.contains_key(key)
                    &&& built.metadata@.contains_key(key) ==> built.metadata@[key]
                        == message.metadata@[key]
                }
            &&& same_text(built.id, message.id)
            &&& same_kind(built.message_type, message.message_type)
            &&& built.payload == message.payload
            &&& built.timestamp == message.timestamp
        },
{
}

/// A message is told to be a heartbeat or the answer to one exactly by its kind.
pub proof fn heartbeats_are_told_by_their_kind(message: &Message, ping: bool, pong: bool)
    requires
        call_ensures(Message::is_ping, (message,), ping),
        call_ensures(Message::is_pong, (message,), pong),
    ensures
        ping <==> message.message_type is Ping,
        pong <==> message.message_type is Pong,
{
}

/// What an encoder made of a message is framed as text, as it is. What it could not make is an error
/// that says why.
pub proof fn encoded_messages_are_text<E: FnOnce(&Message) -> Result<String, String>>(
    message: &Message,
    encode: E,
    result: WebSocketResult<WsMessage>,
)
    requires
        call_ensures(MessageSerializer::serialize::<E>, (message, encode), result),
    ensures
        match result {
            Ok(frame) => exists|json: String| #[trigger]
                call_ensures(encode, (message,), Ok::<String, String>(json)) && frame
                    == WsMessage::Text(json),
            Err(error) => exists|reason: String| #[trigger]
                call_ensures(encode, (message,), Err::<String, String>(reason)) && (
                error matches WebSocketError::ParseError(text) && text@ == "序列化失败: "@
                    + reason@),
        },
{
    let encoded = choose|encoded: Result<String, String>| #[trigger]
        call_ensures(encode, (message,), encoded) && crate::message::framed_as(encoded, result);
    match encoded {
        Ok(json) => {
            assert(call_ensures(encode, (message,), Ok::<String, String>(json)));
        },
        Err(reason) => {
            assert(call_ensures(encode, (message,), Err::<String, String>(reason)));
        },
    }
}

/// A message that goes out is framed as the encoder made it.
pub proof fn outgoing_messages_are_encoded<
    F: Fn(&Message) -> WebSocketResult<()>,
    E: FnOnce(&Message) -> Result<String, String>,
>(
    processor: &MessageProcessor<F>,
    message: Message,
    encode: E,
    result: WebSocketResult<WsMessage>,
)
    requires
        call_ensures(MessageProcessor::<F>::prepare_send::<E>, (processor, message, encode), result),
    ensures
        match result {
            Ok(frame) => exists|json: String| #[trigger]
                call_ensures(encode, (&message,), Ok::<String, String>(json)) && frame
                    == WsMessage::Text(json),
            Err(error) => exists|reason: String| #[trigger]
                call_ensures(encode, (&message,), Err::<String, String>(reason)) && (
                error matches WebSocketError::ParseError(text) && text@ == "序列化失败: "@
                    + reason@),
        },
{
    let encoded = choose|encoded: Result<String, String>| #[trigger]
        call_ensures(encode, (&message,), encoded) && crate::message::framed_as(encoded, result);
    match encoded {
        Ok(json) => {
            assert(call_ensures(encode, (&message,), Ok::<String, String>(json)));
        },
        Err(reason) => {
            assert(call_ensures(encode, (&message,), Err::<String, String>(reason)));
        },
    }
}

/// The answers of the encoder and of the decoder are taken as they are: JSON as text, a message as that
/// message, and a refusal as an error that says why, by the kind of frame.
pub proof fn codec_answers_are_taken(
    encoded: Result<String, String>,
    framed: WebSocketResult<WsMessage>,
    frame: &WsMessage,
    decoded: Result<Message, String>,
    read: WebSocketResult<Message>,
)
    requires
        call_ensures(MessageSerializer::framed, (encoded,), framed),
        call_ensures(MessageSerializer::decoded, (frame, decoded), read),
        *frame is Text || *frame is Binary,
    ensures
        match encoded {
            Ok(json) => framed == Ok::<WsMessage, WebSocketError>(WsMessage::Text(json)),
            Err(reason) => framed matches Err(WebSocketError::ParseError(text)) && text@
                == "序列化失败: "@ + reason@,
        },
        match decoded {
            Ok(message) => read == Ok::<Message, WebSocketError>(message),
            Err(reason) => read matches Err(WebSocketError::ParseError(text)) && text@ == if
            *frame is Text {
                "反序列化失败: "@ + reason@
            } else {
                "二进制反序列化失败: "@ + reason@
            },
        },
{
}

/// What a frame is read as: JSON content as what the decoder makes of it, a ping or pong of the protocol
/// as a message of that kind that carries its data as text, and the other frames as errors.
pub open spec fn is_read_as<D: Fn(&WsMessage) -> Result<Message, String>>(
    frame: WsMessage,
    decode: D,
    read: WebSocketResult<Message>,
) -> bool {
    match (frame, read) {
        (WsMessage::Text(_), Ok(message)) => call_ensures(
            decode,
            (&frame,),
            Ok::<Message, String>(message),
        ),
        (WsMessage::Binary(_), Ok(message)) => call_ensures(
            decode,
            (&frame,),
            Ok::<Message, String>(message),
        ),
        (WsMessage::Text(_), Err(error)) => exists|reason: String| #[trigger]
            call_ensures(decode, (&frame,), Err::<Message, String>(reason)) && (
            error matches WebSocketError::ParseError(text) && text@ == "反序列化失败: "@ + reason@),
        (WsMessage::Binary(_), Err(error)) => exists|reason: String| #[trigger]
            call_ensures(decode, (&frame,), Err::<Message, String>(reason)) && (
            error matches WebSocketError::ParseError(text) && text@ == "二进制反序列化失败: "@
                + reason@),
        (WsMessage::Ping(data), Ok(message)) => is_plain(
            message,
            MessageType::Ping,
            json_text(lossy(data@)),
        ) && shown_by_utc_clock(message.timestamp),
        (WsMessage::Pong(data), Ok(message)) => is_plain(
            message,
            MessageType::Pong,
            json_text(lossy(data@)),
        ) && shown_by_utc_clock(message.timestamp),
        (WsMessage::Close(_), Err(error)) => error is ConnectionClosed,
        (WsMessage::Frame, Err(error)) => error matches WebSocketError::ParseError(text) && text@
            == "不支持的消息类型"@,
        _ => false,
    }
}

/// What the contracts say a frame is read as is what it is read as.
proof fn reading_is_this<D: Fn(&WsMessage) -> Result<Message, String>>(
    frame: WsMessage,
    decode: D,
    read: WebSocketResult<Message>,
)
    requires
        read_as(frame, decode, read),
    ensures
        is_read_as(frame, decode, read),
{
    if frame is Text || frame is Binary {
        let decoded = choose|decoded: Result<Message, String>| #[trigger]
            call_ensures(decode, (&frame,), decoded) && crate::message::decoded_as(
                crate::message::refusal_prefix(frame),
                decoded,
                read,
            );
        match decoded {
            Ok(message) => {
                assert(call_ensures(decode, (&frame,), Ok::<Message, String>(message)));
            },
            Err(reason) => {
                assert(call_ensures(decode, (&frame,), Err::<Message, String>(reason)));
            },
        }
    } else {
        match read {
            Ok(message) => {
                let kind = message@.message_type;
                assert(kind is Ping || kind is Pong);
            },
            Err(_) => {},
        }
    }
}

/// A frame is read as what it carries.
pub proof fn frames_are_read_as_they_are<D: Fn(&WsMessage) -> Result<Message, String>>(
    frame: &WsMessage,
    decode: D,
    read: WebSocketResult<Message>,
)
    requires
        call_ensures(MessageSerializer::deserialize::<D>, (frame, decode), read),
    ensures
        is_read_as(*frame, decode, read),
{
    reading_is_this(*frame, decode, read);
}

/// What the handlers of a message make of it: it is accepted only if each of them accepted it, and
/// refused with an error only if one of them gave that error and all before it accepted the message.
pub open spec fn is_judged_as<F: Fn(&Message) -> WebSocketResult<()>>(
    handlers: Seq<F>,
    message: Message,
    result: WebSocketResult<()>,
) -> bool {
    match result {
        Ok(_) => forall|i: int|
            0 <= i < handlers.len() ==> call_ensures(
                #[trigger] handlers[i],
                (&message,),
                Ok::<(), WebSocketError>(()),
            ),
        Err(error) => exists|i: int|
            0 <= i < handlers.len() && call_ensures(
                #[trigger] handlers[i],
                (&message,),
                Err::<(), WebSocketError>(error),
            ) && forall|j: int|
                0 <= j < i ==> call_ensures(
                    #[trigger] handlers[j],
                    (&message,),
                    Ok::<(), WebSocketError>(()),
                ),
    }
}

/// What the contracts say of the handlers of a message is what they make of it.
proof fn routing_is_judging<F: Fn(&Message) -> WebSocketResult<()>>(
    handlers: Seq<F>,
    message: Message,
    result: WebSocketResult<()>,
)
    requires
        routed(handlers, message, result),
    ensures
        is_judged_as(handlers, message, result),
{
    let answers = choose|answers: Seq<WebSocketResult<()>>| #[trigger]
        answered(handlers, message, answers) && outcome_of(handlers.len(), answers, result);
    assert forall|i: int| 0 <= i < answers.len() && answers[i] is Ok implies call_ensures(
        #[trigger] handlers[i],
        (&message,),
        Ok::<(), WebSocketError>(()),
    ) by {
        let unit = answers[i]->Ok_0;
        assert(unit == ());
        assert(call_ensures(handlers[i], (&message,), answers[i]));
    }
    if let Err(error) = result {
        let last = answers.len() - 1;
        assert(call_ensures(handlers[last], (&message,), answers[last]));
        assert(answers[last] == Err::<(), WebSocketError>(error));
    }
}

/// A message goes to the handlers of its kind, in order, up to the first one that refuses it.
pub proof fn messages_go_to_the_handlers_of_their_kind<F: Fn(&Message) -> WebSocketResult<()>>(
    router: &MessageRouter<F>,
    message: &Message,
    result: WebSocketResult<()>,
)
    requires
        call_ensures(MessageRouter::<F>::route_message, (router, message), result),
    ensures
        is_judged_as(router.handlers_of(message.message_type@), *message, result),
{
    routing_is_judging(router.handlers_of(message.message_type@), *message, result);
}

/// A handler is registered behind the others of its kind, and of no other kind. A new router has none.
pub proof fn handlers_are_registered_for_their_kind<F: Fn(&Message) -> WebSocketResult<()>>(
    kind: MessageType,
    handler: F,
    other: MessageType,
    nothing: (),
)
    ensures
        forall|router: &mut MessageRouter<F>| #[trigger]
            call_ensures(
                MessageRouter::<F>::register_handler,
                (router, kind, handler),
                nothing,
            ) ==> if same_kind(kind, other) {
                final(router).handlers_of(other@) == router.handlers_of(other@).push(handler)
            } else {
                final(router).handlers_of(other@) == router.handlers_of(other@)
            },
        forall|router: MessageRouter<F>| #[trigger]
            call_ensures(MessageRouter::<F>::new, (), router) ==> router.handlers_of(other@).len()
                == 0,
        forall|processor: MessageProcessor<F>| #[trigger]
            call_ensures(MessageProcessor::<F>::new, (), processor) ==> processor.router()
                .handlers_of(other@).len() == 0,
{
    assert(kind@ == other@ <==> same_kind(kind, other));
}

/// The router of a processor is lent as it is, and what is done to it is done to the processor.
pub proof fn routers_are_lent<F: Fn(&Message) -> WebSocketResult<()>>()
    ensures
        forall|processor: &mut MessageProcessor<F>, router: &mut MessageRouter<F>| #[trigger]
            call_ensures(MessageProcessor::<F>::router_mut, (processor,), router) ==> *router
                == processor.router() && final(processor).router() == *final(router),
{
}

/// What receiving a frame comes to: a message that it was read as and that each handler of its kind
/// accepted, the error of reading it, or the error of a handler of the kind that it was read as.
pub open spec fn is_received_as<
    F: Fn(&Message) -> WebSocketResult<()>,
    D: Fn(&WsMessage) -> Result<Message, String>,
>(
    router: MessageRouter<F>,
    frame: WsMessage,
    decode: D,
    received: WebSocketResult<Message>,
) -> bool {
    match received {
        Ok(message) => is_read_as(frame, decode, Ok::<Message, WebSocketError>(message))
            && is_judged_as(
            router.handlers_of(message.message_type@),
            message,
            Ok::<(), WebSocketError>(()),
        ),
        Err(error) => is_read_as(frame, decode, Err::<Message, WebSocketError>(error)) || exists|
            message: Message,
        | #[trigger]
            is_read_as(frame, decode, Ok::<Message, WebSocketError>(message)) && is_judged_as(
                router.handlers_of(message.message_type@),
                message,
                Err::<(), WebSocketError>(error),
            ),
    }
}

/// What the contracts say a frame is received as is what it is received as.
pub proof fn receiving_is_this<
    F: Fn(&Message) -> WebSocketResult<()>,
    D: Fn(&WsMessage) -> Result<Message, String>,
>(
    router: MessageRouter<F>,
    frame: WsMessage,
    decode: D,
    received: WebSocketResult<Message>,
)
    requires
        crate::message::received_as(router, frame, decode, received),
    ensures
        is_received_as(router, frame, decode, received),
{
    let read = choose|read: WebSocketResult<Message>| #[trigger]
        read_as(frame, decode, read) && match read {
            Ok(message) => exists|answer: WebSocketResult<()>| #[trigger]
                routed(router.handlers_of(message@.message_type), message, answer)
                    && match answer {
                    Ok(_) => received == Ok::<Message, WebSocketError>(message),
                    Err(error) => received == Err::<Message, WebSocketError>(error),
                },
            Err(error) => received == Err::<Message, WebSocketError>(error),
        };
    reading_is_this(frame, decode, read);
    if let Ok(message) = read {
        let handlers = router.handlers_of(message@.message_type);
        let answer = choose|answer: WebSocketResult<()>| #[trigger]
            routed(handlers, message, answer) && match answer {
                Ok(_) => received == Ok::<Message, WebSocketError>(message),
                Err(error) => received == Err::<Message, WebSocketError>(error),
            };
        routing_is_judging(handlers, message, answer);
        assert(is_read_as(frame, decode, Ok::<Message, WebSocketError>(message)));
        match answer {
            Ok(unit) => {
                assert(unit == ());
            },
            Err(_) => {},
        }
    }
}

/// A frame that comes in is read, and its message goes to every handler of its kind, whatever that kind
/// is: it is received only if each of them accepted it.
pub proof fn frames_are_received_by_every_handler<
    F: Fn(&Message) -> WebSocketResult<()>,
    D: Fn(&WsMessage) -> Result<Message, String>,
>(
    processor: &MessageProcessor<F>,
    frame: WsMessage,
    decode: D,
    received: WebSocketResult<Message>,
    processed: WebSocketResult<()>,
)
    ensures
        call_ensures(
            MessageProcessor::<F>::receive::<D>,
            (processor, &frame, decode),
            received,
        ) ==> is_received_as(processor.router(), frame, decode, received),
        call_ensures(
            MessageProcessor::<F>::process_received::<D>,
            (processor, frame, decode),
            processed,
        ) ==> match processed {
            Ok(_) => exists|message: Message| #[trigger]
                is_received_as(
                    processor.router(),
                    frame,
                    decode,
                    Ok::<Message, WebSocketError>(message),
                ),
            Err(error) => is_received_as(
                processor.router(),
                frame,
                decode,
                Err::<Message, WebSocketError>(error),
            ),
        },
{
    if call_ensures(MessageProcessor::<F>::receive::<D>, (processor, &frame, decode), received) {
        receiving_is_this(processor.router(), frame, decode, received);
    }
    if call_ensures(
        MessageProcessor::<F>::process_received::<D>,
        (processor, frame, decode),
        processed,
    ) {
        let outcome = choose|outcome: WebSocketResult<Message>| #[trigger]
            crate::message::received_as(processor.router(), frame, decode, outcome)
                && match outcome {
                Ok(_) => processed is Ok,
                Err(error) => processed == Err::<(), WebSocketError>(error),
            };
        receiving_is_this(processor.router(), frame, decode, outcome);
    }
}

/// A message that a handler of its kind can only refuse is not received: the error is one that a handler
/// of its kind gave.
pub proof fn refusing_handlers_keep_messages_out<
    F: Fn(&Message) -> WebSocketResult<()>,
    D: Fn(&WsMessage) -> Result<Message, String>,
>(
    router: MessageRouter<F>,
    frame: WsMessage,
    decode: D,
    message: Message,
    at: int,
    received: WebSocketResult<Message>,
)
    requires
        frame is Text || frame is Binary,
        is_received_as(router, frame, decode, received),
        forall|decoded: Result<Message, String>| #[trigger]
            call_ensures(decode, (&frame,), decoded) ==> decoded == Ok::<Message, String>(message),
        0 <= at < router.handlers_of(message.message_type@).len(),
        forall|answer: WebSocketResult<()>| #[trigger]
            call_ensures(
                router.handlers_of(message.message_type@)[at],
                (&message,),
                answer,
            ) ==> answer is Err,
    ensures
        received matches Err(error) && exists|i: int|
            0 <= i <= at && call_ensures(
                #[trigger] router.handlers_of(message.message_type@)[i],
                (&message,),
                Err::<(), WebSocketError>(error),
            ),
{
    let handlers = router.handlers_of(message.message_type@);
    match received {
        Ok(other) => {
            assert(call_ensures(decode, (&frame,), Ok::<Message, String>(other)));
            assert(call_ensures(handlers[at], (&message,), Ok::<(), WebSocketError>(())));
        },
        Err(error) => {
            if is_read_as(frame, decode, Err::<Message, WebSocketError>(error)) {
                let reason = choose|reason: String| #[trigger]
                    call_ensures(decode, (&frame,), Err::<Message, String>(reason));
                assert(call_ensures(decode, (&frame,), Err::<Message, String>(reason)));
            }
            let other = choose|other: Message| #[trigger]
                is_read_as(frame, decode, Ok::<Message, WebSocketError>(other)) && is_judged_as(
                    router.handlers_of(other.message_type@),
                    other,
                    Err::<(), WebSocketError>(error),
                );
            assert(call_ensures(decode, (&frame,), Ok::<Message, String>(other)));
            let i = choose|i: int|
                0 <= i < handlers.len() && call_ensures(
                    #[trigger] handlers[i],
                    (&message,),
                    Err::<(), WebSocketError>(error),
                ) && forall|j: int|
                    0 <= j < i ==> call_ensures(
                        #[trigger] handlers[j],
                        (&message,),
                        Ok::<(), WebSocketError>(()),
                    );
            if at < i {
                assert(call_ensures(handlers[at], (&message,), Ok::<(), WebSocketError>(())));
            }
        },
    }
}

/// A table gives back what was put in last under a key, loses what was taken out, and keeps the rest.
pub proof fn tables_keep_what_is_put_in(
    key: String,
    content: serde_json::Value,
    nothing: (),
    taken: Option<serde_json::Value>,
    found: Option<&serde_json::Value>,
    table: &Table<String, serde_json::Value>,
)
    ensures
        forall|changed: &mut Table<String, serde_json::Value>| #[trigger]
            call_ensures(
                Table::<String, serde_json::Value>::insert,
                (changed, key, content),
                nothing,
            ) ==> forall|other: Seq<char>|
                {
                    &&& #[trigger] final(changed)@.contains_key(other) <==> other == key@
                        || changed@.contains_key(other)
                    &&& final(changed)@.contains_key(other) ==> final(changed)@[other] == if other
                        == key@ {
                        content
                    } else {
                        changed@[other]
                    }
                },
        forall|changed: &mut Table<String, serde_json::Value>| #[trigger]
            call_ensures(
                Table::<String, serde_json::Value>::remove,
                (changed, &key),
                taken,
            ) ==> {
                &&& taken is Some <==> changed@.contains_key(key@)
                &&& taken matches Some(content) ==> content == changed@[key@]
                &&& forall|other: Seq<char>|
                    {
                        &&& #[trigger] final(changed)@.contains_key(other) <==> other != key@
                            && changed@.contains_key(other)
                        &&& final(changed)@.contains_key(other) ==> final(changed)@[other]
                            == changed@[other]
                    }
            },
        call_ensures(Table::<String, serde_json::Value>::get, (table, &key), found) ==> {
            &&& found is Some <==> table@.contains_key(key@)
            &&& found matches Some(content) ==> *content == table@[key@]
        },
{
}

/// Two kinds are equal exactly if they are the same.
pub proof fn equality_is_being_the_same(one: &MessageType, other: &MessageType, answer: bool)
    requires
        call_ensures(<MessageType as PartialEq>::eq, (one, other), answer),
    ensures
        answer <==> same_kind(*one, *other),
{
    assert(one@ == other@ <==> same_kind(*one, *other));
}

/// A table that was duplicated holds the same, and lists each of its keys once, with what stands under
/// it.
pub proof fn tables_list_what_they_hold(
    table: &Table<String, serde_json::Value>,
    copy: Table<String, serde_json::Value>,
    length: usize,
    i: usize,
    key: &String,
    content: &serde_json::Value,
)
    ensures
        call_ensures(Table::<String, serde_json::Value>::duplicate, (table,), copy) ==> copy@
            == table@,
        call_ensures(Table::<String, serde_json::Value>::len, (table,), length) && i < length
            && call_ensures(Table::<String, serde_json::Value>::key_at, (table, i), key)
            && call_ensures(Table::<String, serde_json::Value>::value_at, (table, i), content)
            ==> table@.contains_key(key@) && table@[key@] == *content,
{
    if call_ensures(Table::<String, serde_json::Value>::len, (table,), length) && i < length
        && call_ensures(Table::<String, serde_json::Value>::key_at, (table, i), key) {
        assert(table.keys().contains(table.keys()[i as int]));
    }
}

} // verus!
