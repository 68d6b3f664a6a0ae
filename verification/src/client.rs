//! The client: its life cycle, and what becomes of the messages that come and go.
use vstd::prelude::*;

use crate::config::{config_fault, ClientConfig};
use crate::connection::{ConnectionManager, ConnectionModel, StateModel};
use crate::error::{error_text, result_model, ErrorModel, WebSocketError, WebSocketResult};
use crate::event::{
    channel_capacity, event_models, valid_capacity, EventBuilder, EventBus, EventModel, WebSocketEvent,
};
use crate::heartbeat::{
    answer_as, ended, is_answer, noted_at, pong_unsent, HeartbeatManager, HeartbeatModel,
};
use crate::message::{
    can_receive, carries_json, framed_as, made_now, optional_text, received_as, registered, serialized_as,
    Message, MessageProcessor, MessageRouter, MessageType, TypeModel, WsMessage,
};
use crate::text::{prefixed, quoted, quoted_text};
use crate::time::{shown_by_clock, unix_millis, whole_millis, Duration};

verus! {

/// The state of the client.
#[derive(Debug)]
pub enum ClientState {
    /// It was never started.
    Initialized,
    /// It is being started.
    Starting,
    /// It runs.
    Running,
    /// It is being stopped.
    Stopping,
    /// It was stopped.
    Stopped,
    /// It failed.
    Error(String),
}

/// The mathematical model of [`ClientState`].
pub enum ClientStateModel {
    Initialized,
    Starting,
    Running,
    Stopping,
    Stopped,
    Error(Seq<char>),
}

impl View for ClientState {
    type V = ClientStateModel;

    open spec fn view(&self) -> ClientStateModel {
        match self {
            ClientState::Initialized => ClientStateModel::Initialized,
            ClientState::Starting => ClientStateModel::Starting,
            ClientState::Running => ClientStateModel::Running,
            ClientState::Stopping => ClientStateModel::Stopping,
            ClientState::Stopped => ClientStateModel::Stopped,
            ClientState::Error(reason) => ClientStateModel::Error(reason@),
        }
    }
}

impl Clone for ClientState {
    fn clone(&self) -> (copy: Self)
        ensures
            copy == *self,
    {
        match self {
            ClientState::Initialized => ClientState::Initialized,
            ClientState::Starting => ClientState::Starting,
            ClientState::Running => ClientState::Running,
            ClientState::Stopping => ClientState::Stopping,
            ClientState::Stopped => ClientState::Stopped,
            ClientState::Error(reason) => ClientState::Error(reason.clone()),
        }
    }
}

impl vstd::std_specs::cmp::PartialEqSpecImpl for ClientState {
    open spec fn obeys_eq_spec() -> bool {
        true
    }

    open spec fn eq_spec(&self, other: &Self) -> bool {
        self@ == other@
    }
}

impl PartialEq for ClientState {
    fn eq(&self, other: &Self) -> (answer: bool) {
        match (self, other) {
            (ClientState::Initialized, ClientState::Initialized) => true,
            (ClientState::Starting, ClientState::Starting) => true,
            (ClientState::Running, ClientState::Running) => true,
            (ClientState::Stopping, ClientState::Stopping) => true,
            (ClientState::Stopped, ClientState::Stopped) => true,
            (ClientState::Error(reason), ClientState::Error(other_reason)) => *reason
                == *other_reason,
            _ => false,
        }
    }
}

/// How a state is written for debugging.
pub open spec fn state_text(state: ClientStateModel) -> Seq<char> {
    match state {
        ClientStateModel::Initialized => "Initialized"@,
        ClientStateModel::Starting => "Starting"@,
        ClientStateModel::Running => "Running"@,
        ClientStateModel::Stopping => "Stopping"@,
        ClientStateModel::Stopped => "Stopped"@,
        ClientStateModel::Error(reason) => "Error("@ + quoted(reason) + ")"@,
    }
}

impl ClientState {
    /// Writes the state for debugging.
    pub fn text(&self) -> (text: String)
        ensures
            text@ == state_text(self@),
    {
        match self {
            ClientState::Initialized => "Initialized".to_string(),
            ClientState::Starting => "Starting".to_string(),
            ClientState::Running => "Running".to_string(),
            ClientState::Stopping => "Stopping".to_string(),
            ClientState::Stopped => "Stopped".to_string(),
            ClientState::Error(reason) => prefixed(
                "Error(",
                quoted_text(reason.as_str()).as_str(),
            ).concat(")"),
        }
    }
}

/// The client. `F` are its message handlers, `H` its event handlers, and `S` is what its frames
/// are handed to once it is connected.
pub struct WebSocketClient<
    F: Fn(&Message) -> WebSocketResult<()>,
    H: Fn(WebSocketEvent) -> WebSocketResult<()>,
    S,
> {
    config: ClientConfig,
    state: ClientState,
    connection_manager: ConnectionManager,
    message_processor: MessageProcessor<F>,
    heartbeat_manager: HeartbeatManager,
    event_bus: EventBus<H>,
    message_sender: Option<S>,
}

/// The mathematical model of [`WebSocketClient`].
pub struct ClientModel<
    F: Fn(&Message) -> WebSocketResult<()>,
    H: Fn(WebSocketEvent) -> WebSocketResult<()>,
    S,
> {
    pub config: ClientConfig,
    pub state: ClientStateModel,
    pub connection: ConnectionModel,
    pub router: MessageRouter<F>,
    pub heartbeat: HeartbeatModel,
    pub event_bus: EventBus<H>,
    pub message_sender: Option<S>,
}

impl<
    F: Fn(&Message) -> WebSocketResult<()>,
    H: Fn(WebSocketEvent) -> WebSocketResult<()>,
    S,
> View for WebSocketClient<F, H, S> {
    type V = ClientModel<F, H, S>;

    closed spec fn view(&self) -> ClientModel<F, H, S> {
        ClientModel {
            config: self.config,
            state: self.state@,
            connection: self.connection_manager@,
            router: self.message_processor.router(),
            heartbeat: self.heartbeat_manager@,
            event_bus: self.event_bus,
            message_sender: self.message_sender,
        }
    }
}

/// A client as it begins.
pub open spec fn fresh<
    F: Fn(&Message) -> WebSocketResult<()>,
    H: Fn(WebSocketEvent) -> WebSocketResult<()>,
    S,
>(client: ClientModel<F, H, S>, config: ClientConfig) -> bool {
    &&& client.config == config
    &&& client.state == ClientStateModel::Initialized
    &&& client.connection == ConnectionModel {
        config,
        state: StateModel::Disconnected,
        retry_count: 0,
    }
    &&& forall|message_type: TypeModel|
        (#[trigger] client.router.handlers_of(message_type)) == Seq::<F>::empty()
    &&& client.heartbeat == HeartbeatModel {
        config: config.heartbeat,
        is_running: false,
        last_pong: 0,
        pending_ping: false,
    }
    &&& client.event_bus.handlers()@ == Map::<Seq<char>, H>::empty()
    &&& channel_capacity(client.event_bus.channel()) == config.message.queue_size
    &&& client.message_sender == None::<S>
}

/// The states from which the client can be started.
pub open spec fn may_start(state: ClientStateModel) -> bool {
    state == ClientStateModel::Initialized || state == ClientStateModel::Stopped
}

/// The error of starting a client in a state that does not allow it.
pub open spec fn start_refused(state: ClientStateModel) -> ErrorModel {
    ErrorModel::InternalError("客户端状态无效，当前状态: "@ + state_text(state))
}

/// The client once a start has begun.
pub open spec fn after_start<
    F: Fn(&Message) -> WebSocketResult<()>,
    H: Fn(WebSocketEvent) -> WebSocketResult<()>,
    S,
>(before: ClientModel<F, H, S>) -> ClientModel<F, H, S> {
    if may_start(before.state) {
        ClientModel { state: ClientStateModel::Starting, ..before }
    } else {
        before
    }
}

/// The client once a start has ended: a connection makes it run, a failure leaves it as it is.
pub open spec fn after_finish_start<
    F: Fn(&Message) -> WebSocketResult<()>,
    H: Fn(WebSocketEvent) -> WebSocketResult<()>,
    S,
>(before: ClientModel<F, H, S>, connected: WebSocketResult<S>) -> ClientModel<F, H, S> {
    match connected {
        Ok(sender) => ClientModel {
            state: ClientStateModel::Running,
            message_sender: Some(sender),
            ..before
        },
        Err(_) => before,
    }
}

/// The client once a stop has begun.
pub open spec fn after_stop<
    F: Fn(&Message) -> WebSocketResult<()>,
    H: Fn(WebSocketEvent) -> WebSocketResult<()>,
    S,
>(before: ClientModel<F, H, S>) -> ClientModel<F, H, S> {
    ClientModel {
        state: ClientStateModel::Stopping,
        heartbeat: ended(before.heartbeat),
        message_sender: None,
        ..before
    }
}

/// The client once a stop has ended.
pub open spec fn after_finish_stop<
    F: Fn(&Message) -> WebSocketResult<()>,
    H: Fn(WebSocketEvent) -> WebSocketResult<()>,
    S,
>(before: ClientModel<F, H, S>) -> ClientModel<F, H, S> {
    ClientModel {
        state: ClientStateModel::Stopped,
        connection: ConnectionModel { state: StateModel::Disconnected, ..before.connection },
        ..before
    }
}

/// What sending a message comes to.
#[derive(Debug)]
pub struct SendReport {
    /// What the sending gives back.
    pub result: WebSocketResult<()>,
    /// The event to publish, if any.
    pub event: Option<WebSocketEvent>,
}

/// The error of a message that was not taken.
pub open spec fn not_taken() -> ErrorModel {
    ErrorModel::SendFailed("消息发送通道已关闭"@)
}

/// The error of a message that is larger than allowed.
pub open spec fn oversized() -> ErrorModel {
    ErrorModel::SendFailed("消息大小超过最大限制"@)
}

/// The size of what a frame carries, in bytes; none for the frames that carry no message.
pub open spec fn frame_size(frame: WsMessage) -> nat {
    match frame {
        WsMessage::Text(text) => vstd::utf8::encode_utf8(text@).len(),
        WsMessage::Binary(data) => data@.len(),
        _ => 0,
    }
}

/// The size of what a frame carries, in bytes; none for the frames that carry no message.
fn size_of_frame(frame: &WsMessage) -> (size: usize)
    ensures
        size == frame_size(*frame),
{
    match frame {
        WsMessage::Text(text) => text.as_str().as_bytes().len(),
        WsMessage::Binary(data) => data.len(),
        _ => 0,
    }
}

/// A frame that a message may go out in: one that the message is turned into, and not larger than
/// allowed.
pub open spec fn due_frame<E: FnOnce(&Message) -> Result<String, String>>(
    message: Message,
    encode: E,
    max_size: usize,
    frame: WsMessage,
) -> bool {
    frame_size(frame) <= max_size && exists|copy: Message| #[trigger]
        serialized_as(copy, encode, Ok::<WsMessage, WebSocketError>(frame)) && copy@ == message@
}

/// What sending a message gives: without a sender the connection is closed; a message that cannot
/// be encoded, or that is larger than allowed once it is, is not sent; otherwise its frame is handed
/// to the sender, and what the sender answers is reported.
pub open spec fn sent_with<
    S,
    E: FnOnce(&Message) -> Result<String, String>,
    G: FnOnce(&S, WsMessage) -> Result<(), String>,
>(
    sender: Option<S>,
    max_size: usize,
    message: Message,
    encode: E,
    hand: G,
    report: SendReport,
) -> bool {
    match sender {
        None => result_model(report.result) == Err::<(), ErrorModel>(ErrorModel::ConnectionClosed)
            && report.event is None,
        Some(sender) => exists|copy: Message, prepared: WebSocketResult<WsMessage>| #[trigger]
            serialized_as(copy, encode, prepared) && copy@ == message@ && prepared_as(
                sender,
                max_size,
                message,
                prepared,
                hand,
                report,
            ),
    }
}

/// What becomes of a message that was turned into a frame, or could not be.
pub open spec fn prepared_as<S, G: FnOnce(&S, WsMessage) -> Result<(), String>>(
    sender: S,
    max_size: usize,
    message: Message,
    prepared: WebSocketResult<WsMessage>,
    hand: G,
    report: SendReport,
) -> bool {
    match prepared {
        Ok(frame) => if frame_size(frame) > max_size {
            failed_as(message, oversized(), report)
        } else {
            exists|taken: Result<(), String>| #[trigger]
                call_ensures(hand, (&sender, frame), taken) && taken_as(message, taken, report)
        },
        Err(error) => report.result == Err::<(), WebSocketError>(error) && report.event is None,
    }
}

/// What the sender's answer is reported as.
pub open spec fn taken_as(message: Message, taken: Result<(), String>, report: SendReport) -> bool {
    match taken {
        Ok(_) => report.result is Ok && (report.event matches Some(event) && event@
            == EventModel::MessageSent(message@)),
        Err(_) => failed_as(message, not_taken(), report),
    }
}

/// The report that a message was not sent because of an error.
pub open spec fn failed_as(message: Message, error: ErrorModel, report: SendReport) -> bool {
    result_model(report.result) == Err::<(), ErrorModel>(error) && (report.event matches Some(event)
        && event@ == EventModel::MessageSendFailed(message@, error_text(error)))
}

impl SendReport {
    /// The report that a message was not sent because of an error.
    fn failed(message: Message, error: WebSocketError) -> (report: Self)
        ensures
            failed_as(message, error@, report),
    {
        let event = EventBuilder::message_send_failed(message, error.to_string());
        SendReport { result: Err(error), event: Some(event) }
    }
}

/// What a frame that came in comes to.
#[derive(Debug)]
pub struct ReceiveReport {
    /// What the handling gives back.
    pub result: WebSocketResult<()>,
    /// The events to publish, in order.
    pub events: Vec<WebSocketEvent>,
    /// The frame to send, if any.
    pub answer: Option<WsMessage>,
}

/// What a message that its handlers accepted comes to: the answer to a heartbeat is noted, a
/// heartbeat is answered, and anything else is published.
pub open spec fn accepted_as<E: FnOnce(&Message) -> Result<String, String>>(
    before: HeartbeatModel,
    message: Message,
    encode: E,
    now: u64,
    after: HeartbeatModel,
    report: ReceiveReport,
) -> bool {
    if message@.message_type == TypeModel::Pong {
        &&& report.result is Ok
        &&& after == noted_at(before, now)
        &&& event_models(report.events@) == if before.config.enabled {
            seq![EventModel::HeartbeatReceived]
        } else {
            Seq::<EventModel>::empty()
        }
        &&& report.answer is None
    } else if message@.message_type == TypeModel::Ping {
        &&& exists|answer: WebSocketResult<Option<WsMessage>>| #[trigger]
            answer_as(before, encode, answer) && match answer {
                Ok(frame) => report.result is Ok && report.answer == frame,
                Err(error) => report.result == Err::<(), WebSocketError>(error)
                    && report.answer is None,
            }
        &&& after == before
        &&& event_models(report.events@) == Seq::<EventModel>::empty()
    } else {
        &&& report.result is Ok
        &&& after == before
        &&& event_models(report.events@) == seq![EventModel::MessageReceived(message@)]
        &&& report.answer is None
    }
}

/// What a frame that came in comes to: one with JSON content is received as a message, and
/// reported if it is not accepted; a close frame is published; the others are passed over.
pub open spec fn handled_as<
    F: Fn(&Message) -> WebSocketResult<()>,
    D: Fn(&WsMessage) -> Result<Message, String>,
    E: FnOnce(&Message) -> Result<String, String>,
>(
    router: MessageRouter<F>,
    before: HeartbeatModel,
    frame: WsMessage,
    decode: D,
    encode: E,
    now: u64,
    after: HeartbeatModel,
    report: ReceiveReport,
) -> bool {
    if carries_json(frame) {
        exists|received: WebSocketResult<Message>| #[trigger]
            received_as(router, frame, decode, received) && match received {
                Ok(message) => accepted_as(before, message, encode, now, after, report),
                Err(error) => report.result is Ok && after == before && event_models(
                    report.events@,
                ) == seq![EventModel::Error(error@)] && report.answer is None,
            }
    } else {
        &&& report.result is Ok
        &&& after == before
        &&& event_models(report.events@) == match frame {
            WsMessage::Close(reason) => seq![EventModel::Disconnected(optional_text(reason))],
            _ => Seq::<EventModel>::empty(),
        }
        &&& report.answer is None
    }
}

/// A frame that came in can be handled: if it has JSON content, it can be decoded, and the handlers
/// that its message can get to can take it. Nothing is asked of the other frames.
pub open spec fn can_handle<
    F: Fn(&Message) -> WebSocketResult<()>,
    D: Fn(&WsMessage) -> Result<Message, String>,
>(router: MessageRouter<F>, frame: WsMessage, decode: D) -> bool {
    carries_json(frame) ==> call_requires(decode, (&frame,)) && can_receive(router, frame, decode)
}

/// An answer may be due on a frame that came in: the heartbeat is switched on, and the frame may be
/// received as a heartbeat of the peer.
pub open spec fn answer_due<
    F: Fn(&Message) -> WebSocketResult<()>,
    D: Fn(&WsMessage) -> Result<Message, String>,
>(
    router: MessageRouter<F>,
    heartbeat: HeartbeatModel,
    frame: WsMessage,
    decode: D,
) -> bool {
    heartbeat.config.enabled && carries_json(frame) && exists|message: Message| #[trigger]
        received_as(router, frame, decode, Ok::<Message, WebSocketError>(message))
            && message@.message_type == TypeModel::Ping
}

/// The answers to a heartbeat can be encoded.
pub open spec fn can_encode_answer<E: FnOnce(&Message) -> Result<String, String>>(
    encode: E,
) -> bool {
    forall|pong: Message| is_answer(pong) ==> #[trigger] call_requires(encode, (&pong,))
}

/// What happened in the message loop.
#[derive(Debug)]
pub enum LoopInput {
    /// A frame came in.
    Received(WsMessage),
    /// Receiving failed.
    ReceiveFailed(WebSocketError),
    /// The peer closed the connection.
    RemoteClosed,
    /// A frame went out.
    Sent,
    /// A frame could not go out, for the given reason.
    SendFailed(String),
    /// No more frames will go out.
    SenderClosed,
    /// The answer to a heartbeat was handed on, or could not be, for the given reason.
    Answered(Result<(), String>),
}

/// What follows in the message loop.
#[derive(Debug)]
pub struct LoopReport {
    /// The events to publish, in order.
    pub events: Vec<WebSocketEvent>,
    /// The frame to hand on, if any. Whether that worked comes back as input.
    pub answer: Option<WsMessage>,
    /// Whether the loop ends.
    pub ends: bool,
}

/// What the message loop publishes of a frame that came in: the events of its handling, and then
/// the error of its handling, if there was one.
pub open spec fn loop_events(handling: ReceiveReport) -> Seq<EventModel> {
    match handling.result {
        Ok(_) => event_models(handling.events@),
        Err(error) => event_models(handling.events@).push(EventModel::Error(error@)),
    }
}

impl<
    F: Fn(&Message) -> WebSocketResult<()>,
    H: Fn(WebSocketEvent) -> WebSocketResult<()>,
    S,
> WebSocketClient<F, H, S> {
    /// A client with a configuration, if the configuration is valid.
    pub fn new(config: ClientConfig) -> (result: WebSocketResult<Self>)
        requires
            config_fault(config) is None ==> valid_capacity(config.message.queue_size),
        ensures
            match config_fault(config) {
                Some(fault) => result matches Err(error) && error@ == ErrorModel::ConfigError(fault),
                None => result matches Ok(client) && fresh(client@, config),
            },
    {
        match config.validate() {
            Ok(_) => {},
            Err(error) => {
                return Err(error);
            },
        }
        let event_bus = EventBus::new(config.message.queue_size);
        let connection_manager = ConnectionManager::new(config.clone());
        let message_processor = MessageProcessor::new();
        let heartbeat_manager = HeartbeatManager::new(config.heartbeat);
        Ok(
            WebSocketClient {
                config,
                state: ClientState::Initialized,
                connection_manager,
                message_processor,
                heartbeat_manager,
                event_bus,
                message_sender: None,
            },
        )
    }

    /// Begins to start the client, if its state allows that. The connection is due next.
    pub fn start(&mut self) -> (result: WebSocketResult<()>)
        ensures
            final(self)@ == after_start(old(self)@),
            result_model(result) == if may_start(old(self)@.state) {
                Ok::<(), ErrorModel>(())
            } else {
                Err::<(), ErrorModel>(start_refused(old(self)@.state))
            },
    {
        if !matches!(self.state, ClientState::Initialized | ClientState::Stopped) {
            return Err(
                WebSocketError::InternalError(
                    prefixed("客户端状态无效，当前状态: ", self.state.text().as_str()),
                ),
            );
        }
        self.state = ClientState::Starting;
        Ok(())
    }

    /// Keeps what the frames are handed to.
    fn start_message_loop(&mut self, sender: S)
        ensures
            final(self)@ == (ClientModel { message_sender: Some(sender), ..old(self)@ }),
    {
        self.message_sender = Some(sender);
    }

    /// Ends the start of the client: with what its frames are handed to if the connection was
    /// made, with the error if it was not.
    pub fn finish_start(&mut self, connected: WebSocketResult<S>) -> (result: WebSocketResult<()>)
        ensures
            final(self)@ == after_finish_start(old(self)@, connected),
            match connected {
                Ok(_) => result is Ok,
                Err(error) => result == Err::<(), WebSocketError>(error),
            },
    {
        match connected {
            Ok(sender) => {
                self.start_message_loop(sender);
                self.state = ClientState::Running;
                Ok(())
            },
            Err(error) => Err(error),
        }
    }

    /// Begins to stop the client: its heartbeat stops, and no frame is taken any more. The end of
    /// the message loop is due next.
    pub fn stop(&mut self)
        ensures
            final(self)@ == after_stop(old(self)@),
    {
        self.state = ClientState::Stopping;
        self.heartbeat_manager.stop();
        self.message_sender = None;
    }

    /// Ends the stop of the client, and gives the event to publish.
    pub fn finish_stop(&mut self) -> (event: WebSocketEvent)
        ensures
            final(self)@ == after_finish_stop(old(self)@),
            event@ == EventModel::Disconnected(Some("客户端主动停止"@)),
    {
        let event = self.connection_manager.disconnect(Some("客户端主动停止".to_string()));
        self.state = ClientState::Stopped;
        event
    }

    /// Sends a message. Its frame is handed to the sender no more than once, and nothing else is.
    pub fn send_message<
        E: FnOnce(&Message) -> Result<String, String>,
        G: FnOnce(&S, WsMessage) -> Result<(), String>,
    >(&self, message: Message, encode: E, hand: G) -> (report: SendReport)
        requires
            self@.message_sender is Some ==> forall|copy: Message|
                copy@ == message@ ==> #[trigger] call_requires(encode, (&copy,)),
            self@.message_sender matches Some(sender) ==> forall|frame: WsMessage|
                due_frame(message, encode, self@.config.message.max_size, frame)
                    ==> #[trigger] call_requires(hand, (&sender, frame)),
        ensures
            sent_with(
                self@.message_sender,
                self@.config.message.max_size,
                message,
                encode,
                hand,
                report,
            ),
    {
        match &self.message_sender {
            Some(sender) => {
                let copy = message.clone();
                let ghost encoded = copy;
                let ghost given = message;
                let max_size: usize = self.config.message.max_size;
                let prepared = self.message_processor.prepare_send(copy, encode);
                let ghost made = prepared;
                assert(serialized_as(encoded, encode, made));
                let report = match prepared {
                    Ok(frame) => if size_of_frame(&frame) > max_size {
                        SendReport::failed(
                            message,
                            WebSocketError::SendFailed("消息大小超过最大限制".to_string()),
                        )
                    } else {
                        assert(due_frame(message, encode, max_size, frame));
                        let taken = hand(sender, frame);
                        let ghost told = taken;
                        let report = match taken {
                            Ok(_) => SendReport {
                                result: Ok(()),
                                event: Some(EventBuilder::message_sent(message)),
                            },
                            Err(_) => SendReport::failed(
                                message,
                                WebSocketError::SendFailed("消息发送通道已关闭".to_string()),
                            ),
                        };
                        assert(call_ensures(hand, (sender, frame), told) && taken_as(
                            given,
                            told,
                            report,
                        ));
                        report
                    },
                    Err(error) => SendReport { result: Err(error), event: None },
                };
                assert(prepared_as(*sender, max_size, given, made, hand, report));
                report
            },
            None => SendReport { result: Err(WebSocketError::ConnectionClosed), event: None },
        }
    }

    /// Sends data.
    pub fn send_data<
        E: FnOnce(&Message) -> Result<String, String>,
        G: FnOnce(&S, WsMessage) -> Result<(), String>,
    >(&self, data: serde_json::Value, encode: E, hand: G) -> (report: SendReport)
        requires
            self@.message_sender is Some ==> forall|message: Message|
                made_now(message@, TypeModel::Data, data) ==> #[trigger] call_requires(
                    encode,
                    (&message,),
                ),
            self@.message_sender matches Some(sender) ==> forall|message: Message, frame: WsMessage|
                made_now(message@, TypeModel::Data, data) && #[trigger] due_frame(
                    message,
                    encode,
                    self@.config.message.max_size,
                    frame,
                ) ==> call_requires(hand, (&sender, frame)),
        ensures
            exists|message: Message| #[trigger]
                sent_with(
                    self@.message_sender,
                    self@.config.message.max_size,
                    message,
                    encode,
                    hand,
                    report,
                ) && made_now(message@, TypeModel::Data, data),
    {
        let message = Message::data(data);
        let ghost made = message;
        let report = self.send_message(message, encode, hand);
        assert(sent_with(
            self@.message_sender,
            self@.config.message.max_size,
            made,
            encode,
            hand,
            report,
        ));
        report
    }

    /// Registers a handler for the messages of a kind.
    pub fn register_message_handler(&mut self, message_type: MessageType, handler: F)
        ensures
            registered(old(self)@.router, message_type@, handler, final(self)@.router),
            forall|other: TypeModel|
                (#[trigger] final(self)@.router.handlers_of(other)) == if other == message_type@ {
                    old(self)@.router.handlers_of(other).push(handler)
                } else {
                    old(self)@.router.handlers_of(other)
                },
            final(self)@ == (ClientModel { router: final(self)@.router, ..old(self)@ }),
    {
        self.message_processor.router_mut().register_handler(message_type, handler);
    }

    /// Registers a handler for the events under a name, in place of any other under that name.
    pub fn register_event_handler(&mut self, name: String, handler: H)
        ensures
            final(self)@.event_bus.handlers()@ == old(self)@.event_bus.handlers()@.insert(
                name@,
                handler,
            ),
            final(self)@.event_bus.channel() == old(self)@.event_bus.channel(),
            final(self)@ == (ClientModel { event_bus: final(self)@.event_bus, ..old(self)@ }),
    {
        self.event_bus.register_handler(name, handler);
    }

    /// Removes the handler for the events under a name, if there is one.
    pub fn unregister_event_handler(&mut self, name: &str)
        ensures
            final(self)@.event_bus.handlers()@ == old(self)@.event_bus.handlers()@.remove(name@),
            final(self)@.event_bus.channel() == old(self)@.event_bus.channel(),
            final(self)@ == (ClientModel { event_bus: final(self)@.event_bus, ..old(self)@ }),
    {
        self.event_bus.unregister_handler(name);
    }

    /// The state of the client.
    pub fn get_state(&self) -> (state: ClientState)
        ensures
            state@ == self@.state,
    {
        self.state.clone()
    }

    /// Tells whether the client runs.
    pub fn is_running(&self) -> (answer: bool)
        ensures
            answer == (self@.state == ClientStateModel::Running),
    {
        matches!(self.state, ClientState::Running)
    }

    /// The bus that the events of the client are published on.
    pub fn event_bus(&self) -> (event_bus: &EventBus<H>)
        ensures
            *event_bus == self@.event_bus,
    {
        &self.event_bus
    }

    /// The connection of the client, to make it with.
    pub fn connection_mut(&mut self) -> (connection: &mut ConnectionManager)
        ensures
            connection@ == old(self)@.connection,
            final(self)@ == (ClientModel { connection: final(connection)@, ..old(self)@ }),
    {
        &mut self.connection_manager
    }

    /// The heartbeat of the client, to run it with.
    pub fn heartbeat_mut(&mut self) -> (heartbeat: &mut HeartbeatManager)
        ensures
            heartbeat@ == old(self)@.heartbeat,
            final(self)@ == (ClientModel { heartbeat: final(heartbeat)@, ..old(self)@ }),
    {
        &mut self.heartbeat_manager
    }

    /// Handles a frame that came in at a given time.
    pub fn handle_received_message_at<
        D: Fn(&WsMessage) -> Result<Message, String>,
        E: FnOnce(&Message) -> Result<String, String>,
    >(&mut self, frame: &WsMessage, decode: D, encode: E, now: u64) -> (report: ReceiveReport)
        requires
            can_handle(old(self)@.router, *frame, decode),
            answer_due(old(self)@.router, old(self)@.heartbeat, *frame, decode)
                ==> can_encode_answer(encode),
        ensures
            final(self)@ == (ClientModel { heartbeat: final(self)@.heartbeat, ..old(self)@ }),
            handled_as(
                old(self)@.router,
                old(self)@.heartbeat,
                *frame,
                decode,
                encode,
                now,
                final(self)@.heartbeat,
                report,
            ),
    {
        let mut events: Vec<WebSocketEvent> = Vec::new();
        let mut result: WebSocketResult<()> = Ok(());
        let mut answer: Option<WsMessage> = None;
        assert(event_models(events@) =~= Seq::<EventModel>::empty());
        match frame {
            WsMessage::Text(_) | WsMessage::Binary(_) => {
                let received = self.message_processor.receive(frame, decode);
                let ghost outcome = received;
                match received {
                    Ok(message) => {
                        if message.is_pong() {
                            match self.heartbeat_manager.handle_pong_at(now) {
                                Some(event) => {
                                    events.push(event);
                                    assert(event_models(events@)
                                        =~= seq![EventModel::HeartbeatReceived]);
                                },
                                None => {},
                            }
                        } else if message.is_ping() {
                            assert(received_as(old(self)@.router, *frame, decode, outcome));
                            match self.heartbeat_manager.answer_ping(encode) {
                                Ok(frame) => {
                                    assert(answer_as(old(self)@.heartbeat, encode, Ok(frame)));
                                    answer = frame;
                                },
                                Err(error) => {
                                    assert(answer_as(old(self)@.heartbeat, encode, Err(error)));
                                    result = Err(error);
                                },
                            }
                        } else {
                            let ghost model = message@;
                            events.push(EventBuilder::message_received(message));
                            assert(event_models(events@)
                                =~= seq![EventModel::MessageReceived(model)]);
                        }
                    },
                    Err(error) => {
                        let ghost model = error@;
                        events.push(EventBuilder::error(error));
                        assert(event_models(events@) =~= seq![EventModel::Error(model)]);
                    },
                }
                assert(received_as(old(self)@.router, *frame, decode, outcome));
            },
            WsMessage::Close(reason) => {
                let reason = match reason {
                    Some(reason) => Some(reason.clone()),
                    None => None,
                };
                let ghost model = optional_text(reason);
                events.push(EventBuilder::disconnected(reason));
                assert(event_models(events@) =~= seq![EventModel::Disconnected(model)]);
            },
            _ => {},
        }
        ReceiveReport { result, events, answer }
    }

    /// Handles a frame that came in now.
    pub fn handle_received_message<
        D: Fn(&WsMessage) -> Result<Message, String>,
        E: FnOnce(&Message) -> Result<String, String>,
    >(&mut self, frame: &WsMessage, decode: D, encode: E) -> (report: ReceiveReport)
        requires
            can_handle(old(self)@.router, *frame, decode),
            answer_due(old(self)@.router, old(self)@.heartbeat, *frame, decode)
                ==> can_encode_answer(encode),
        ensures
            final(self)@ == (ClientModel { heartbeat: final(self)@.heartbeat, ..old(self)@ }),
            exists|span: Option<Duration>| #[trigger]
                shown_by_clock(span) && handled_as(
                    old(self)@.router,
                    old(self)@.heartbeat,
                    *frame,
                    decode,
                    encode,
                    whole_millis(span),
                    final(self)@.heartbeat,
                    report,
                ),
    {
        self.handle_received_message_at(frame, decode, encode, unix_millis())
    }

    /// Takes what happened in the message loop, and decides what follows.
    pub fn message_loop<
        D: Fn(&WsMessage) -> Result<Message, String>,
        E: FnOnce(&Message) -> Result<String, String>,
    >(&mut self, input: LoopInput, decode: D, encode: E) -> (report: LoopReport)
        requires
            input matches LoopInput::Received(frame) ==> can_handle(
                old(self)@.router,
                frame,
                decode,
            ) && (answer_due(old(self)@.router, old(self)@.heartbeat, frame, decode)
                ==> can_encode_answer(encode)),
        ensures
            report.ends == !(input is Received || input is Sent || input is Answered),
            !(input is Received) ==> report.answer is None,
            match input {
                LoopInput::Received(frame) => {
                    &&& final(self)@ == (ClientModel {
                        heartbeat: final(self)@.heartbeat,
                        ..old(self)@
                    })
                    &&& exists|span: Option<Duration>, handling: ReceiveReport| #[trigger]
                        shown_by_clock(span) && #[trigger] handled_as(
                            old(self)@.router,
                            old(self)@.heartbeat,
                            frame,
                            decode,
                            encode,
                            whole_millis(span),
                            final(self)@.heartbeat,
                            handling,
                        ) && event_models(report.events@) == loop_events(handling)
                            && report.answer == handling.answer
                },
                LoopInput::RemoteClosed => {
                    &&& final(self)@ == (ClientModel {
                        connection: ConnectionModel {
                            state: StateModel::Disconnected,
                            ..old(self)@.connection
                        },
                        ..old(self)@
                    })
                    &&& event_models(report.events@) == seq![
                        EventModel::Disconnected(Some("连接被远程关闭"@)),
                    ]
                },
                LoopInput::ReceiveFailed(error) => {
                    &&& final(self)@ == old(self)@
                    &&& event_models(report.events@) == seq![EventModel::Error(error@)]
                },
                LoopInput::SendFailed(reason) => {
                    &&& final(self)@ == old(self)@
                    &&& event_models(report.events@) == seq![
                        EventModel::Error(ErrorModel::SendFailed(reason@)),
                    ]
                },
                LoopInput::Answered(sent) => {
                    &&& final(self)@ == old(self)@
                    &&& event_models(report.events@) == match sent {
                        Ok(_) => Seq::<EventModel>::empty(),
                        Err(reason) => seq![EventModel::Error(pong_unsent(reason@))],
                    }
                },
                LoopInput::Sent | LoopInput::SenderClosed => {
                    &&& final(self)@ == old(self)@
                    &&& event_models(report.events@) == Seq::<EventModel>::empty()
                },
            },
    {
        let mut events: Vec<WebSocketEvent> = Vec::new();
        assert(event_models(events@) =~= Seq::<EventModel>::empty());
        match input {
            LoopInput::Received(frame) => {
                let handling = self.handle_received_message(&frame, decode, encode);
                let ghost whole = handling;
                let ghost models = event_models(handling.events@);
                events = handling.events;
                match handling.result {
                    Ok(_) => {},
                    Err(error) => {
                        let ghost model = error@;
                        events.push(EventBuilder::error(error));
                        assert(event_models(events@) =~= models.push(EventModel::Error(model)));
                    },
                }
                assert(event_models(events@) == loop_events(whole));
                LoopReport { events, answer: handling.answer, ends: false }
            },
            LoopInput::Answered(sent) => {
                match HeartbeatManager::answer_sent(sent) {
                    Ok(_) => {},
                    Err(error) => {
                        let ghost model = error@;
                        events.push(EventBuilder::error(error));
                        assert(event_models(events@) =~= seq![EventModel::Error(model)]);
                    },
                }
                LoopReport { events, answer: None, ends: false }
            },
            LoopInput::ReceiveFailed(error) => {
                let ghost model = error@;
                events.push(EventBuilder::error(error));
                assert(event_models(events@) =~= seq![EventModel::Error(model)]);
                LoopReport { events, answer: None, ends: true }
            },
            LoopInput::RemoteClosed => {
                events.push(self.connection_manager.disconnect(Some("连接被远程关闭".to_string())));
                assert(event_models(events@) =~= seq![
                    EventModel::Disconnected(Some("连接被远程关闭"@)),
                ]);
                LoopReport { events, answer: None, ends: true }
            },
            LoopInput::Sent => LoopReport { events, answer: None, ends: false },
            LoopInput::SendFailed(reason) => {
                let ghost text = reason@;
                events.push(EventBuilder::error(WebSocketError::SendFailed(reason)));
                assert(event_models(events@) =~= seq![
                    EventModel::Error(ErrorModel::SendFailed(text)),
                ]);
                LoopReport { events, answer: None, ends: true }
            },
            LoopInput::SenderClosed => LoopReport { events, answer: None, ends: true },
        }
    }
}

/// A step in the life of the client.
pub enum LifeStep<S> {
    Start,
    FinishStart(WebSocketResult<S>),
    Stop,
    FinishStop,
}

/// The client after a step in its life.
pub open spec fn after_step<
    F: Fn(&Message) -> WebSocketResult<()>,
    H: Fn(WebSocketEvent) -> WebSocketResult<()>,
    S,
>(before: ClientModel<F, H, S>, step: LifeStep<S>) -> ClientModel<F, H, S> {
    match step {
        LifeStep::Start => after_start(before),
        LifeStep::FinishStart(connected) => after_finish_start(before, connected),
        LifeStep::Stop => after_stop(before),
        LifeStep::FinishStop => after_finish_stop(before),
    }
}

/// The client after steps in its life.
pub open spec fn after_steps<
    F: Fn(&Message) -> WebSocketResult<()>,
    H: Fn(WebSocketEvent) -> WebSocketResult<()>,
    S,
>(before: ClientModel<F, H, S>, steps: Seq<LifeStep<S>>) -> ClientModel<F, H, S>
    decreases steps.len(),
{
    if steps.len() == 0 {
        before
    } else {
        after_step(after_steps(before, steps.drop_last()), steps.last())
    }
}

/// Whatever steps a client has taken, it can send while it runs, and it is in no error state.
pub proof fn running_client_can_send<
    F: Fn(&Message) -> WebSocketResult<()>,
    H: Fn(WebSocketEvent) -> WebSocketResult<()>,
    S,
>(client: ClientModel<F, H, S>, config: ClientConfig, steps: Seq<LifeStep<S>>)
    requires
        fresh(client, config),
    ensures
        after_steps(client, steps).state == ClientStateModel::Running ==> after_steps(
            client,
            steps,
        ).message_sender is Some,
        !(after_steps(client, steps).state is Error),
    decreases steps.len(),
{
    if steps.len() > 0 {
        running_client_can_send(client, config, steps.drop_last());
    }
}

/// Whatever steps a client has taken, its configuration, its message handlers and its event handlers
/// are as they were.
pub proof fn steps_keep_handlers<
    F: Fn(&Message) -> WebSocketResult<()>,
    H: Fn(WebSocketEvent) -> WebSocketResult<()>,
    S,
>(client: ClientModel<F, H, S>, steps: Seq<LifeStep<S>>)
    ensures
        after_steps(client, steps).config == client.config,
        after_steps(client, steps).router == client.router,
        after_steps(client, steps).event_bus == client.event_bus,
    decreases steps.len(),
{
    if steps.len() > 0 {
        steps_keep_handlers(client, steps.drop_last());
    }
}

/// A client that was started is not started again, whether the connection was made or not, until
/// it was stopped.
pub proof fn start_is_refused_until_stopped<
    F: Fn(&Message) -> WebSocketResult<()>,
    H: Fn(WebSocketEvent) -> WebSocketResult<()>,
    S,
>(client: ClientModel<F, H, S>, connected: WebSocketResult<S>)
    requires
        may_start(client.state),
    ensures
        !may_start(after_start(client).state),
        !may_start(after_finish_start(after_start(client), connected).state),
        !may_start(after_stop(after_finish_start(after_start(client), connected)).state),
        may_start(
            after_finish_stop(
                after_stop(after_finish_start(after_start(client), connected)),
            ).state,
        ),
{
}

/// A client that was started and stopped is as it was before, but that it is stopped, disconnected,
/// without a running heartbeat and without anything to hand its frames to.
pub proof fn stop_undoes_start<
    F: Fn(&Message) -> WebSocketResult<()>,
    H: Fn(WebSocketEvent) -> WebSocketResult<()>,
    S,
>(client: ClientModel<F, H, S>, connected: WebSocketResult<S>)
    requires
        may_start(client.state),
    ensures
        after_finish_stop(after_stop(after_finish_start(after_start(client), connected))) == (
        ClientModel {
            state: ClientStateModel::Stopped,
            connection: ConnectionModel { state: StateModel::Disconnected, ..client.connection },
            heartbeat: ended(client.heartbeat),
            message_sender: None,
            ..client
        }),
{
}

/// From when a stop begins until the next start has ended, sending a message fails because the
/// connection is closed, and nothing is published.
pub proof fn stopped_client_sends_nothing<
    F: Fn(&Message) -> WebSocketResult<()>,
    H: Fn(WebSocketEvent) -> WebSocketResult<()>,
    S,
    E: FnOnce(&Message) -> Result<String, String>,
    G: FnOnce(&S, WsMessage) -> Result<(), String>,
>(client: ClientModel<F, H, S>, message: Message, encode: E, hand: G, report: SendReport)
    requires
        exists|stage: ClientModel<F, H, S>|
            (stage == after_stop(client) || stage == after_finish_stop(after_stop(client)) || stage
                == after_start(after_finish_stop(after_stop(client)))) && #[trigger] sent_with(
                stage.message_sender,
                stage.config.message.max_size,
                message,
                encode,
                hand,
                report,
            ),
    ensures
        result_model(report.result) == Err::<(), ErrorModel>(ErrorModel::ConnectionClosed),
        report.event is None,
{
}

/// Sending a message succeeds exactly if the event that it was sent is to be published, and the event
/// that it could not be sent is to be published exactly if that is the error.
pub proof fn send_is_reported<
    S,
    E: FnOnce(&Message) -> Result<String, String>,
    G: FnOnce(&S, WsMessage) -> Result<(), String>,
>(sender: Option<S>, max_size: usize, message: Message, encode: E, hand: G, report: SendReport)
    requires
        sent_with(sender, max_size, message, encode, hand, report),
    ensures
        report.result is Ok <==> (report.event matches Some(event) && event@
            == EventModel::MessageSent(message@)),
        (report.result matches Err(error) && error is SendFailed) <==> (report.event matches Some(
            event,
        ) && event@ is MessageSendFailed),
        report.event is Some <==> (report.result is Ok || (report.result matches Err(error) && error
            is SendFailed)),
{
}

/// A message that the encoder can only make larger than allowed is refused, and there is no frame
/// that it may go out in.
pub proof fn oversized_message_is_refused<
    S,
    E: FnOnce(&Message) -> Result<String, String>,
    G: FnOnce(&S, WsMessage) -> Result<(), String>,
>(sender: S, max_size: usize, message: Message, encode: E, hand: G, report: SendReport)
    requires
        sent_with(Some(sender), max_size, message, encode, hand, report),
        forall|copy: Message, encoded: Result<String, String>| #[trigger]
            call_ensures(encode, (&copy,), encoded) && copy@ == message@ ==> (encoded matches Ok(
                json,
            ) && vstd::utf8::encode_utf8(json@).len() > max_size),
    ensures
        result_model(report.result) == Err::<(), ErrorModel>(oversized()),
        forall|frame: WsMessage| !#[trigger] due_frame(message, encode, max_size, frame),
{
    let (copy, prepared) = choose|copy: Message, prepared: WebSocketResult<WsMessage>| #[trigger]
        serialized_as(copy, encode, prepared) && copy@ == message@ && prepared_as(
            sender,
            max_size,
            message,
            prepared,
            hand,
            report,
        );
    let encoded = choose|encoded: Result<String, String>| #[trigger]
        call_ensures(encode, (&copy,), encoded) && framed_as(encoded, prepared);
    assert(encoded is Ok);
}

/// A frame that came in gives at most one event, in the message loop too. Where its handling fails,
/// that is the error, and it gives no other.
pub proof fn frame_gives_at_most_one_event<
    F: Fn(&Message) -> WebSocketResult<()>,
    D: Fn(&WsMessage) -> Result<Message, String>,
    E: FnOnce(&Message) -> Result<String, String>,
>(
    router: MessageRouter<F>,
    before: HeartbeatModel,
    frame: WsMessage,
    decode: D,
    encode: E,
    now: u64,
    after: HeartbeatModel,
    report: ReceiveReport,
)
    requires
        handled_as(router, before, frame, decode, encode, now, after, report),
    ensures
        loop_events(report).len() <= 1,
        report.result is Err ==> event_models(report.events@) == Seq::<EventModel>::empty(),
{
}

/// A frame of the protocol's own leaves the client as it is: only messages count as heartbeats.
pub proof fn protocol_frames_are_no_heartbeats<
    F: Fn(&Message) -> WebSocketResult<()>,
    D: Fn(&WsMessage) -> Result<Message, String>,
    E: FnOnce(&Message) -> Result<String, String>,
>(
    router: MessageRouter<F>,
    before: HeartbeatModel,
    frame: WsMessage,
    decode: D,
    encode: E,
    now: u64,
    after: HeartbeatModel,
    report: ReceiveReport,
)
    requires
        frame is Ping || frame is Pong || frame is Frame,
        handled_as(router, before, frame, decode, encode, now, after, report),
    ensures
        after == before,
        report.result is Ok,
        event_models(report.events@) == Seq::<EventModel>::empty(),
        report.answer is None,
        !answer_due(router, before, frame, decode),
{
}

/// Nothing is sent but the answer to a heartbeat of the peer, as text, and only while the heartbeat is
/// switched on. A frame that may not be received as one is not answered.
pub proof fn only_heartbeats_are_answered<
    F: Fn(&Message) -> WebSocketResult<()>,
    D: Fn(&WsMessage) -> Result<Message, String>,
    E: FnOnce(&Message) -> Result<String, String>,
>(
    router: MessageRouter<F>,
    before: HeartbeatModel,
    frame: WsMessage,
    decode: D,
    encode: E,
    now: u64,
    after: HeartbeatModel,
    report: ReceiveReport,
)
    requires
        handled_as(router, before, frame, decode, encode, now, after, report),
    ensures
        report.answer is Some ==> answer_due(router, before, frame, decode),
        report.answer matches Some(answer) ==> exists|pong: Message, json: String|
            is_answer(pong) && answer == WsMessage::Text(json) && #[trigger] call_ensures(
                encode,
                (&pong,),
                Ok::<String, String>(json),
            ),
        report.answer is Some ==> report.result is Ok && event_models(report.events@) == Seq::<
            EventModel,
        >::empty() && after == before,
{
}

} // verus!
