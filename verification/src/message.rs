//! Messages: how they are built, framed, routed and processed.
use vstd::prelude::*;

use crate::error::{ErrorModel, WebSocketError, WebSocketResult};
use crate::table::{Key, Table};
use crate::text::{lossy, lossy_text, prefixed};
use crate::time::{shown_by_utc_clock, utc_millis};

verus! {

/// `serde_json::Value`, the JSON content of a message. The library carries it unread.
#[verifier::external_type_specification]
#[verifier::external_body]
pub struct ExValue(serde_json::Value);

/// `serde_json::Value::clone`: the clone is the same JSON value.
pub assume_specification[ <serde_json::Value as Clone>::clone ](value: &serde_json::Value) -> (copy:
    serde_json::Value)
    ensures
        copy == *value,
;

/// The JSON string that holds a text.
pub uninterp spec fn json_text(text: Seq<char>) -> serde_json::Value;

/// `serde_json::Value::String`: the JSON string that holds `text`.
#[verifier::external_body]
fn json_string(text: String) -> (value: serde_json::Value)
    ensures
        value == json_text(text@),
{
    serde_json::Value::String(text)
}

/// The kind of a message.
#[derive(Debug, Hash)]
pub enum MessageType {
    /// Ordinary data.
    Data,
    /// A heartbeat that asks for an answer.
    Ping,
    /// The answer to a heartbeat.
    Pong,
    /// A control message.
    Control,
    /// A kind of the user's own.
    Custom(String),
}

/// The mathematical model of [`MessageType`].
pub enum TypeModel {
    Data,
    Ping,
    Pong,
    Control,
    Custom(Seq<char>),
}

impl View for MessageType {
    type V = TypeModel;

    open spec fn view(&self) -> TypeModel {
        match self {
            MessageType::Data => TypeModel::Data,
            MessageType::Ping => TypeModel::Ping,
            MessageType::Pong => TypeModel::Pong,
            MessageType::Control => TypeModel::Control,
            MessageType::Custom(name) => TypeModel::Custom(name@),
        }
    }
}

impl Clone for MessageType {
    fn clone(&self) -> (copy: Self)
        ensures
            copy == *self,
    {
        match self {
            MessageType::Data => MessageType::Data,
            MessageType::Ping => MessageType::Ping,
            MessageType::Pong => MessageType::Pong,
            MessageType::Control => MessageType::Control,
            MessageType::Custom(name) => MessageType::Custom(name.clone()),
        }
    }
}

impl vstd::std_specs::cmp::PartialEqSpecImpl for MessageType {
    open spec fn obeys_eq_spec() -> bool {
        true
    }

    open spec fn eq_spec(&self, other: &Self) -> bool {
        self@ == other@
    }
}

impl PartialEq for MessageType {
    fn eq(&self, other: &Self) -> (answer: bool) {
        self.same(other)
    }
}

impl Eq for MessageType {

}

impl Key for MessageType {
    fn same(&self, other: &Self) -> (answer: bool) {
        match (self, other) {
            (MessageType::Data, MessageType::Data) => true,
            (MessageType::Ping, MessageType::Ping) => true,
            (MessageType::Pong, MessageType::Pong) => true,
            (MessageType::Control, MessageType::Control) => true,
            (MessageType::Custom(name), MessageType::Custom(other_name)) => *name == *other_name,
            _ => false,
        }
    }

    fn copy(&self) -> (copy: Self) {
        self.clone()
    }
}

/// A message.
#[derive(Debug)]
pub struct Message {
    /// What kind of message it is.
    pub message_type: MessageType,
    /// What identifies it, if anything.
    pub id: Option<String>,
    /// Its content.
    pub payload: serde_json::Value,
    /// When it was made, in milliseconds since the Unix epoch.
    pub timestamp: i64,
    /// What else is known of it.
    pub metadata: Table<String, serde_json::Value>,
}

/// The mathematical model of [`Message`].
pub struct MessageModel {
    pub message_type: TypeModel,
    pub id: Option<Seq<char>>,
    pub payload: serde_json::Value,
    pub timestamp: i64,
    pub metadata: Map<Seq<char>, serde_json::Value>,
}

/// The model of an optional text.
pub open spec fn optional_text(text: Option<String>) -> Option<Seq<char>> {
    match text {
        Some(text) => Some(text@),
        None => None,
    }
}

impl View for Message {
    type V = MessageModel;

    open spec fn view(&self) -> MessageModel {
        MessageModel {
            message_type: self.message_type@,
            id: optional_text(self.id),
            payload: self.payload,
            timestamp: self.timestamp,
            metadata: self.metadata@,
        }
    }
}

/// A message without id or metadata.
pub open spec fn plain_message(
    message_type: TypeModel,
    payload: serde_json::Value,
    timestamp: i64,
) -> MessageModel {
    MessageModel { message_type, id: None, payload, timestamp, metadata: Map::empty() }
}

/// A message without id or metadata, made at a time that the clock showed.
pub open spec fn made_now(
    message: MessageModel,
    message_type: TypeModel,
    payload: serde_json::Value,
) -> bool {
    &&& message == plain_message(message_type, payload, message.timestamp)
    &&& shown_by_utc_clock(message.timestamp)
    &&& message.timestamp >= 0
}

impl Clone for Message {
    fn clone(&self) -> (copy: Self)
        ensures
            copy@ == self@,
    {
        Message {
            message_type: self.message_type.clone(),
            id: match &self.id {
                Some(id) => Some(id.clone()),
                None => None,
            },
            payload: self.payload.clone(),
            timestamp: self.timestamp,
            metadata: self.metadata.duplicate(),
        }
    }
}

impl Message {
    /// A message made at a given time.
    pub fn at(message_type: MessageType, payload: serde_json::Value, timestamp: i64) -> (message:
        Self)
        ensures
            message@ == plain_message(message_type@, payload, timestamp),
    {
        Message { message_type, id: None, payload, timestamp, metadata: Table::new() }
    }

    /// A message made now.
    pub fn new(message_type: MessageType, payload: serde_json::Value) -> (message: Self)
        ensures
            made_now(message@, message_type@, payload),
    {
        Self::at(message_type, payload, utc_millis())
    }

    /// A data message made now.
    pub fn data(payload: serde_json::Value) -> (message: Self)
        ensures
            made_now(message@, TypeModel::Data, payload),
    {
        Self::new(MessageType::Data, payload)
    }

    /// A heartbeat made now.
    pub fn ping() -> (message: Self)
        ensures
            made_now(message@, TypeModel::Ping, json_text("ping"@)),
    {
        Self::new(MessageType::Ping, json_string("ping".to_string()))
    }

    /// The answer to a heartbeat, made now.
    pub fn pong() -> (message: Self)
        ensures
            made_now(message@, TypeModel::Pong, json_text("pong"@)),
    {
        Self::new(MessageType::Pong, json_string("pong".to_string()))
    }

    /// The message under another id.
    pub fn with_id(self, id: String) -> (message: Self)
        ensures
            message@ == (MessageModel { id: Some(id@), ..self@ }),
    {
        Message {
            message_type: self.message_type,
            id: Some(id),
            payload: self.payload,
            timestamp: self.timestamp,
            metadata: self.metadata,
        }
    }

    /// The message with one more piece of metadata, in place of any under the same key.
    pub fn with_metadata(self, key: String, value: serde_json::Value) -> (message: Self)
        ensures
            message@ == (MessageModel { metadata: self@.metadata.insert(key@, value), ..self@ }),
    {
        let mut metadata = self.metadata;
        metadata.insert(key, value);
        Message {
            message_type: self.message_type,
            id: self.id,
            payload: self.payload,
            timestamp: self.timestamp,
            metadata,
        }
    }

    /// Tells whether the message is a heartbeat.
    pub fn is_ping(&self) -> (answer: bool)
        ensures
            answer == (self@.message_type == TypeModel::Ping),
    {
        matches!(self.message_type, MessageType::Ping)
    }

    /// Tells whether the message answers a heartbeat.
    pub fn is_pong(&self) -> (answer: bool)
        ensures
            answer == (self@.message_type == TypeModel::Pong),
    {
        matches!(self.message_type, MessageType::Pong)
    }
}

/// A frame of the WebSocket protocol, as far as the client looks into it.
#[derive(Debug)]
pub enum WsMessage {
    /// A text frame.
    Text(String),
    /// A binary frame.
    Binary(Vec<u8>),
    /// A ping of the protocol.
    Ping(Vec<u8>),
    /// A pong of the protocol.
    Pong(Vec<u8>),
    /// A close frame, with the reason that it gives, if any.
    Close(Option<String>),
    /// A raw frame.
    Frame,
}

/// Turns messages into frames and frames into messages. The JSON text of a message is made and
/// read by an encoder and a decoder that the caller hands in.
pub struct MessageSerializer;

/// What becomes of the encoder's answer.
pub open spec fn framed_as(
    encoded: Result<String, String>,
    result: WebSocketResult<WsMessage>,
) -> bool {
    match encoded {
        Ok(json) => result == Ok::<WsMessage, WebSocketError>(WsMessage::Text(json)),
        Err(reason) => result matches Err(error) && error@ == ErrorModel::ParseError(
            "序列化失败: "@ + reason@,
        ),
    }
}

/// What a message is turned into, given the encoder.
pub open spec fn serialized_as<E: FnOnce(&Message) -> Result<String, String>>(
    message: Message,
    encode: E,
    result: WebSocketResult<WsMessage>,
) -> bool {
    exists|encoded: Result<String, String>| #[trigger]
        call_ensures(encode, (&message,), encoded) && framed_as(encoded, result)
}

/// What becomes of the decoder's answer. A refusal is reported behind `prefix`.
pub open spec fn decoded_as(
    prefix: Seq<char>,
    decoded: Result<Message, String>,
    result: WebSocketResult<Message>,
) -> bool {
    match decoded {
        Ok(message) => result == Ok::<Message, WebSocketError>(message),
        Err(reason) => result matches Err(error) && error@ == ErrorModel::ParseError(
            prefix + reason@,
        ),
    }
}

/// The frames whose content is JSON.
pub open spec fn carries_json(frame: WsMessage) -> bool {
    frame is Text || frame is Binary
}

/// The prefix under which an unreadable frame is reported.
pub open spec fn refusal_prefix(frame: WsMessage) -> Seq<char> {
    if frame is Text {
        "反序列化失败: "@
    } else {
        "二进制反序列化失败: "@
    }
}

/// What a frame without JSON content is read as.
pub open spec fn read_directly(frame: WsMessage, result: WebSocketResult<Message>) -> bool {
    match frame {
        WsMessage::Ping(data) => result matches Ok(message) && made_now(
            message@,
            TypeModel::Ping,
            json_text(lossy(data@)),
        ),
        WsMessage::Pong(data) => result matches Ok(message) && made_now(
            message@,
            TypeModel::Pong,
            json_text(lossy(data@)),
        ),
        WsMessage::Close(_) => result matches Err(error) && error@ == ErrorModel::ConnectionClosed,
        _ => result matches Err(error) && error@ == ErrorModel::ParseError("不支持的消息类型"@),
    }
}

/// What a frame is read as, given the decoder: JSON content is what the decoder says of the
/// frame, and the decoder has no say in the other frames.
pub open spec fn read_as<D: Fn(&WsMessage) -> Result<Message, String>>(
    frame: WsMessage,
    decode: D,
    result: WebSocketResult<Message>,
) -> bool {
    if carries_json(frame) {
        exists|decoded: Result<Message, String>| #[trigger]
            call_ensures(decode, (&frame,), decoded) && decoded_as(
                refusal_prefix(frame),
                decoded,
                result,
            )
    } else {
        read_directly(frame, result)
    }
}

impl MessageSerializer {
    /// The frame for what the encoder answered.
    pub fn framed(encoded: Result<String, String>) -> (result: WebSocketResult<WsMessage>)
        ensures
            framed_as(encoded, result),
    {
        match encoded {
            Ok(json) => Ok(WsMessage::Text(json)),
            Err(reason) => Err(WebSocketError::ParseError(prefixed("序列化失败: ", reason.as_str()))),
        }
    }

    /// The message for what the decoder answered about a frame with JSON content.
    pub fn decoded(frame: &WsMessage, decoded: Result<Message, String>) -> (result: WebSocketResult<
        Message,
    >)
        requires
            carries_json(*frame),
        ensures
            decoded_as(refusal_prefix(*frame), decoded, result),
    {
        match decoded {
            Ok(message) => Ok(message),
            Err(reason) => {
                let prefix: &str = match frame {
                    WsMessage::Text(_) => "反序列化失败: ",
                    _ => "二进制反序列化失败: ",
                };
                Err(WebSocketError::ParseError(prefixed(prefix, reason.as_str())))
            },
        }
    }

    /// Turns a message into a frame.
    pub fn serialize<E: FnOnce(&Message) -> Result<String, String>>(message: &Message, encode: E) -> (result:
        WebSocketResult<WsMessage>)
        requires
            call_requires(encode, (message,)),
        ensures
            serialized_as(*message, encode, result),
    {
        Self::framed(encode(message))
    }

    /// Turns a frame into a message.
    pub fn deserialize<D: Fn(&WsMessage) -> Result<Message, String>>(
        frame: &WsMessage,
        decode: D,
    ) -> (result: WebSocketResult<Message>)
        requires
            carries_json(*frame) ==> call_requires(decode, (frame,)),
        ensures
            read_as(*frame, decode, result),
    {
        match frame {
            WsMessage::Text(_) | WsMessage::Binary(_) => Self::decoded(frame, decode(frame)),
            WsMessage::Ping(data) => Ok(
                Message::new(MessageType::Ping, json_string(lossy_text(data.as_slice()))),
            ),
            WsMessage::Pong(data) => Ok(
                Message::new(MessageType::Pong, json_string(lossy_text(data.as_slice()))),
            ),
            WsMessage::Close(_) => Err(WebSocketError::ConnectionClosed),
            WsMessage::Frame => Err(WebSocketError::ParseError("不支持的消息类型".to_string())),
        }
    }
}

/// What routing a message through `handlers` gives: they run in order, and the first error
/// ends it.
pub open spec fn routed<F: Fn(&Message) -> WebSocketResult<()>>(
    handlers: Seq<F>,
    message: Message,
    result: WebSocketResult<()>,
) -> bool {
    exists|answers: Seq<WebSocketResult<()>>| #[trigger]
        answered(handlers, message, answers) && outcome_of(handlers.len(), answers, result)
}

/// `answers` are what the first handlers answered on a message.
pub open spec fn answered<F: Fn(&Message) -> WebSocketResult<()>>(
    handlers: Seq<F>,
    message: Message,
    answers: Seq<WebSocketResult<()>>,
) -> bool {
    answers.len() <= handlers.len() && forall|i: int|
        0 <= i < answers.len() ==> call_ensures(handlers[i], (&message,), #[trigger] answers[i])
}

/// The outcome of `answers`: the error that came last, or success once all have answered.
pub open spec fn outcome_of(
    handlers: nat,
    answers: Seq<WebSocketResult<()>>,
    result: WebSocketResult<()>,
) -> bool {
    match result {
        Ok(_) => answers.len() == handlers && forall|i: int|
            0 <= i < answers.len() ==> (#[trigger] answers[i]) is Ok,
        Err(error) => answers.len() > 0 && answers.last() == Err::<(), WebSocketError>(error)
            && forall|i: int| 0 <= i < answers.len() - 1 ==> (#[trigger] answers[i]) is Ok,
    }
}

/// A handler may accept a message.
pub open spec fn may_accept<F: Fn(&Message) -> WebSocketResult<()>>(
    handler: F,
    message: Message,
) -> bool {
    exists|answer: WebSocketResult<()>| #[trigger]
        call_ensures(handler, (&message,), answer) && answer is Ok
}

/// Each of the handlers that the message can get to can take it: it gets to a handler only past
/// those before it, and past none that refuses it.
pub open spec fn can_pass<F: Fn(&Message) -> WebSocketResult<()>>(
    handlers: Seq<F>,
    message: Message,
) -> bool {
    forall|i: int|
        0 <= i < handlers.len() && (forall|j: int|
            0 <= j < i ==> may_accept(#[trigger] handlers[j], message)) ==> call_requires(
            #[trigger] handlers[i],
            (&message,),
        )
}

/// A handler was added behind the others of a kind, and the other kinds kept theirs.
pub open spec fn registered<F: Fn(&Message) -> WebSocketResult<()>>(
    before: MessageRouter<F>,
    message_type: TypeModel,
    handler: F,
    after: MessageRouter<F>,
) -> bool {
    forall|other: TypeModel|
        (#[trigger] after.handlers_of(other)) == if other == message_type {
            before.handlers_of(other).push(handler)
        } else {
            before.handlers_of(other)
        }
}

/// Routes messages to the handlers of their kind.
pub struct MessageRouter<F: Fn(&Message) -> WebSocketResult<()>> {
    handlers: Table<MessageType, Vec<F>>,
}

impl<F: Fn(&Message) -> WebSocketResult<()>> MessageRouter<F> {
    /// The handlers of a kind, in the order in which they were registered.
    pub closed spec fn handlers_of(&self, message_type: TypeModel) -> Seq<F> {
        if self.handlers@.contains_key(message_type) {
            self.handlers@[message_type]@
        } else {
            Seq::empty()
        }
    }

    /// A router without handlers.
    pub fn new() -> (router: Self)
        ensures
            forall|message_type: TypeModel|
                (#[trigger] router.handlers_of(message_type)) == Seq::<F>::empty(),
    {
        MessageRouter { handlers: Table::new() }
    }

    /// Adds a handler behind the others of its kind.
    pub fn register_handler(&mut self, message_type: MessageType, handler: F)
        ensures
            registered(*old(self), message_type@, handler, *final(self)),
            forall|other: TypeModel|
                (#[trigger] final(self).handlers_of(other)) == if other == message_type@ {
                    old(self).handlers_of(other).push(handler)
                } else {
                    old(self).handlers_of(other)
                },
    {
        let mut handlers: Vec<F> = match self.handlers.remove(&message_type) {
            Some(handlers) => handlers,
            None => Vec::new(),
        };
        handlers.push(handler);
        self.handlers.insert(message_type, handlers);
    }

    /// Hands a message to the handlers of its kind, in order, up to the first error.
    pub fn route_message(&self, message: &Message) -> (result: WebSocketResult<()>)
        requires
            can_pass(self.handlers_of(message@.message_type), *message),
        ensures
            routed(self.handlers_of(message@.message_type), *message, result),
    {
        let ghost registered = self.handlers_of(message@.message_type);
        let ghost mut answers: Seq<WebSocketResult<()>> = Seq::empty();
        match self.handlers.get(&message.message_type) {
            Some(handlers) => {
                assert(handlers@ == registered);
                let mut i: usize = 0;
                while i < handlers.len()
                    invariant
                        i <= handlers.len(),
                        handlers@ == registered,
                        registered == self.handlers_of(message@.message_type),
                        answers.len() == i,
                        answered(registered, *message, answers),
                        forall|j: int| 0 <= j < i ==> (#[trigger] answers[j]) is Ok,
                        forall|j: int|
                            0 <= j < i ==> may_accept(#[trigger] registered[j], *message),
                        can_pass(registered, *message),
                    decreases handlers.len() - i,
                {
                    assert(call_requires(registered[i as int], (message,)));
                    let handler = &handlers[i];
                    let answer = handler(message);
                    proof {
                        answers = answers.push(answer);
                    }
                    assert(call_ensures(registered[i as int], (message,), answer));
                    match answer {
                        Ok(_) => {},
                        Err(error) => {
                            assert(answered(registered, *message, answers));
                            assert(outcome_of(
                                registered.len(),
                                answers,
                                Err::<(), WebSocketError>(error),
                            ));
                            return Err(error);
                        },
                    }
                    i = i + 1;
                }
            },
            None => {},
        }
        assert(answered(registered, *message, answers));
        Ok(())
    }
}

impl<F: Fn(&Message) -> WebSocketResult<()>> Default for MessageRouter<F> {
    fn default() -> (router: Self)
        ensures
            forall|message_type: TypeModel|
                (#[trigger] router.handlers_of(message_type)) == Seq::<F>::empty(),
    {
        Self::new()
    }
}

/// Processes the frames that come in and the messages that go out.
pub struct MessageProcessor<F: Fn(&Message) -> WebSocketResult<()>> {
    router: MessageRouter<F>,
}

/// What receiving a frame gives: the message that it is read as, once its handlers have
/// accepted it.
pub open spec fn received_as<
    F: Fn(&Message) -> WebSocketResult<()>,
    D: Fn(&WsMessage) -> Result<Message, String>,
>(
    router: MessageRouter<F>,
    frame: WsMessage,
    decode: D,
    result: WebSocketResult<Message>,
) -> bool {
    exists|read: WebSocketResult<Message>| #[trigger]
        read_as(frame, decode, read) && match read {
            Ok(message) => exists|answer: WebSocketResult<()>| #[trigger]
                routed(router.handlers_of(message@.message_type), message, answer)
                    && match answer {
                    Ok(_) => result == Ok::<Message, WebSocketError>(message),
                    Err(error) => result == Err::<Message, WebSocketError>(error),
                },
            Err(error) => result == Err::<Message, WebSocketError>(error),
        }
}

/// Whatever message a frame is read as, the handlers that it can get to can take it.
pub open spec fn can_receive<
    F: Fn(&Message) -> WebSocketResult<()>,
    D: Fn(&WsMessage) -> Result<Message, String>,
>(router: MessageRouter<F>, frame: WsMessage, decode: D) -> bool {
    forall|message: Message| #[trigger]
        read_as(frame, decode, Ok::<Message, WebSocketError>(message)) ==> can_pass(
            router.handlers_of(message@.message_type),
            message,
        )
}

impl<F: Fn(&Message) -> WebSocketResult<()>> MessageProcessor<F> {
    /// The router of the processor.
    pub closed spec fn router(&self) -> MessageRouter<F> {
        self.router
    }

    /// A processor without handlers.
    pub fn new() -> (processor: Self)
        ensures
            forall|message_type: TypeModel|
                (#[trigger] processor.router().handlers_of(message_type)) == Seq::<F>::empty(),
    {
        MessageProcessor { router: MessageRouter::new() }
    }

    /// The router, to register handlers with.
    pub fn router_mut(&mut self) -> (router: &mut MessageRouter<F>)
        ensures
            *router == old(self).router(),
            final(self).router() == *final(router),
    {
        &mut self.router
    }

    /// Reads a frame, hands the message to its handlers, and gives the message back if none of
    /// them refused it.
    pub fn receive<D: Fn(&WsMessage) -> Result<Message, String>>(
        &self,
        frame: &WsMessage,
        decode: D,
    ) -> (result: WebSocketResult<Message>)
        requires
            carries_json(*frame) ==> call_requires(decode, (frame,)),
            can_receive(self.router(), *frame, decode),
        ensures
            received_as(self.router(), *frame, decode, result),
    {
        let read = MessageSerializer::deserialize(frame, decode);
        match read {
            Ok(message) => {
                assert(read_as(*frame, decode, Ok::<Message, WebSocketError>(message)));
                let answer = self.router.route_message(&message);
                match answer {
                    Ok(_) => Ok(message),
                    Err(error) => Err(error),
                }
            },
            Err(error) => {
                assert(read_as(*frame, decode, Err::<Message, WebSocketError>(error)));
                Err(error)
            },
        }
    }

    /// Reads a frame and hands the message to its handlers.
    pub fn process_received<D: Fn(&WsMessage) -> Result<Message, String>>(
        &self,
        frame: WsMessage,
        decode: D,
    ) -> (result: WebSocketResult<()>)
        requires
            carries_json(frame) ==> call_requires(decode, (&frame,)),
            can_receive(self.router(), frame, decode),
        ensures
            exists|received: WebSocketResult<Message>| #[trigger]
                received_as(self.router(), frame, decode, received) && match received {
                    Ok(_) => result is Ok,
                    Err(error) => result == Err::<(), WebSocketError>(error),
                },
    {
        let received = self.receive(&frame, decode);
        match received {
            Ok(message) => {
                assert(received_as(
                    self.router(),
                    frame,
                    decode,
                    Ok::<Message, WebSocketError>(message),
                ));
                Ok(())
            },
            Err(error) => {
                assert(received_as(
                    self.router(),
                    frame,
                    decode,
                    Err::<Message, WebSocketError>(error),
                ));
                Err(error)
            },
        }
    }

    /// Turns a message that goes out into a frame.
    pub fn prepare_send<E: FnOnce(&Message) -> Result<String, String>>(
        &self,
        message: Message,
        encode: E,
    ) -> (result: WebSocketResult<WsMessage>)
        requires
            call_requires(encode, (&message,)),
        ensures
            serialized_as(message, encode, result),
    {
        MessageSerializer::serialize(&message, encode)
    }
}

impl<F: Fn(&Message) -> WebSocketResult<()>> Default for MessageProcessor<F> {
    fn default() -> (processor: Self)
        ensures
            forall|message_type: TypeModel|
                (#[trigger] processor.router().handlers_of(message_type)) == Seq::<F>::empty(),
    {
        Self::new()
    }
}

/// The decoder undoes the encoder on a message: of the JSON that the encoder made of it, the decoder
/// makes that message.
pub open spec fn undoes<
    E: FnOnce(&Message) -> Result<String, String>,
    D: Fn(&WsMessage) -> Result<Message, String>,
>(encode: E, decode: D, message: Message) -> bool {
    forall|json: String, decoded: Result<Message, String>|
        #[trigger] call_ensures(encode, (&message,), Ok::<String, String>(json)) && #[trigger]
        call_ensures(decode, (&WsMessage::Text(json),), decoded) ==> (decoded matches Ok(back)
            && back@ == message@)
}

/// A message that was turned into a frame is in a text frame, and is read back from it as it was,
/// time stamp included, if the decoder undoes the encoder on it.
pub proof fn serialization_round_trip<
    E: FnOnce(&Message) -> Result<String, String>,
    D: Fn(&WsMessage) -> Result<Message, String>,
>(message: Message, encode: E, decode: D, frame: WsMessage, read: WebSocketResult<Message>)
    requires
        undoes(encode, decode, message),
        serialized_as(message, encode, Ok(frame)),
        read_as(frame, decode, read),
    ensures
        frame is Text,
        read matches Ok(back) && back@ == message@,
{
    let encoded = choose|encoded: Result<String, String>| #[trigger]
        call_ensures(encode, (&message,), encoded) && framed_as(encoded, Ok(frame));
    let decoded = choose|decoded: Result<Message, String>| #[trigger]
        call_ensures(decode, (&frame,), decoded) && decoded_as(
            refusal_prefix(frame),
            decoded,
            read,
        );
    assert(encoded matches Ok(json) && frame == WsMessage::Text(json));
    assert(decoded is Ok);
}

/// Two answers of the decoder are alike: they give equal messages, or both refuse.
pub open spec fn alike(one: Result<Message, String>, other: Result<Message, String>) -> bool {
    match (one, other) {
        (Ok(message), Ok(other_message)) => message@ == other_message@,
        (Err(_), Err(_)) => true,
        _ => false,
    }
}

/// A refusal of the decoder, reported behind `prefix`.
pub open spec fn refused_behind(prefix: Seq<char>, error: ErrorModel) -> bool {
    exists|reason: Seq<char>| error == ErrorModel::ParseError(#[trigger] (prefix + reason))
}

/// A text frame and a binary frame that the decoder answers alike are read as equal messages, or are
/// both refused, each behind its own prefix. With a decoder that reads a text like its bytes, these
/// are a text and the bytes of it.
pub proof fn text_and_binary_are_read_alike<D: Fn(&WsMessage) -> Result<Message, String>>(
    text: String,
    bytes: Vec<u8>,
    decode: D,
    from_text: WebSocketResult<Message>,
    from_bytes: WebSocketResult<Message>,
)
    requires
        forall|one: Result<Message, String>, other: Result<Message, String>|
            #[trigger] call_ensures(decode, (&WsMessage::Text(text),), one) && #[trigger]
            call_ensures(decode, (&WsMessage::Binary(bytes),), other) ==> alike(one, other),
        read_as(WsMessage::Text(text), decode, from_text),
        read_as(WsMessage::Binary(bytes), decode, from_bytes),
    ensures
        match (from_text, from_bytes) {
            (Ok(message), Ok(other_message)) => message@ == other_message@,
            (Err(error), Err(other_error)) => refused_behind("反序列化失败: "@, error@)
                && refused_behind("二进制反序列化失败: "@, other_error@),
            _ => false,
        },
{
    let one = choose|one: Result<Message, String>| #[trigger]
        call_ensures(decode, (&WsMessage::Text(text),), one) && decoded_as(
            refusal_prefix(WsMessage::Text(text)),
            one,
            from_text,
        );
    let other = choose|other: Result<Message, String>| #[trigger]
        call_ensures(decode, (&WsMessage::Binary(bytes),), other) && decoded_as(
            refusal_prefix(WsMessage::Binary(bytes)),
            other,
            from_bytes,
        );
    assert(alike(one, other));
}

/// A message that no handler is registered for is accepted.
pub proof fn unhandled_is_accepted<F: Fn(&Message) -> WebSocketResult<()>>(
    handlers: Seq<F>,
    message: Message,
    result: WebSocketResult<()>,
)
    requires
        handlers.len() == 0,
        routed(handlers, message, result),
    ensures
        result is Ok,
{
}

/// A message is accepted if none of its handlers can refuse it.
pub proof fn accepted_by_all_is_accepted<F: Fn(&Message) -> WebSocketResult<()>>(
    handlers: Seq<F>,
    message: Message,
    result: WebSocketResult<()>,
)
    requires
        routed(handlers, message, result),
        forall|i: int, answer: WebSocketResult<()>|
            0 <= i < handlers.len() && #[trigger] call_ensures(handlers[i], (&message,), answer)
                ==> answer is Ok,
    ensures
        result is Ok,
{
    let answers = choose|answers: Seq<WebSocketResult<()>>| #[trigger]
        answered(handlers, message, answers) && outcome_of(handlers.len(), answers, result);
    if result is Err {
        let last = answers.len() - 1;
        assert(call_ensures(handlers[last], (&message,), answers[last]));
    }
}

/// A message is refused if one of its handlers refuses it in any case, and the error is one that a
/// handler up to that one gave.
pub proof fn refused_by_one_is_refused<F: Fn(&Message) -> WebSocketResult<()>>(
    handlers: Seq<F>,
    message: Message,
    result: WebSocketResult<()>,
    at: int,
)
    requires
        routed(handlers, message, result),
        0 <= at < handlers.len(),
        forall|answer: WebSocketResult<()>| #[trigger]
            call_ensures(handlers[at], (&message,), answer) ==> answer is Err,
    ensures
        result is Err,
        exists|i: int| 0 <= i <= at && #[trigger] call_ensures(handlers[i], (&message,), result),
{
    let answers = choose|answers: Seq<WebSocketResult<()>>| #[trigger]
        answered(handlers, message, answers) && outcome_of(handlers.len(), answers, result);
    if at < answers.len() {
        assert(call_ensures(handlers[at], (&message,), answers[at]));
    }
    let last = answers.len() - 1;
    assert(call_ensures(handlers[last], (&message,), answers[last]));
    assert(answers[last] == result);
}

} // verus!
