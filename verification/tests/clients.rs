use std::cell::RefCell;
use std::rc::Rc;

use websocket::client::{ClientState, LoopInput, LoopReport};
use websocket::config::{ClientConfig, MessageConfig};
use websocket::connection::{ConnectOutcome, ConnectionState};
use websocket::error::{WebSocketError, WebSocketResult};
use websocket::event::WebSocketEvent;
use websocket::message::{Message, MessageType, WsMessage};
use websocket::WebSocketClient;

type MessageHandler = Box<dyn Fn(&Message) -> WebSocketResult<()>>;
type EventHandler = Box<dyn Fn(WebSocketEvent) -> WebSocketResult<()>>;
type FrameSink = Box<dyn Fn(WsMessage) -> Result<(), String>>;
type Client = WebSocketClient<MessageHandler, EventHandler, FrameSink>;
type Frames = Rc<RefCell<Vec<String>>>;

fn client() -> Client {
    match Client::new(ClientConfig::new("ws://localhost".to_string())) {
        Ok(client) => client,
        Err(error) => panic!("{:?}", error),
    }
}

/// A sender that keeps the frames.
fn keeping(frames: &Frames) -> FrameSink {
    let frames = Rc::clone(frames);
    Box::new(move |frame| {
        frames.borrow_mut().push(format!("{:?}", frame));
        Ok(())
    })
}

fn running(frames: &Frames) -> Client {
    let mut client = client();
    assert!(client.start().is_ok());
    assert!(client.finish_start(Ok(keeping(frames))).is_ok());
    client
}

/// A message as JSON: its payload.
fn encode(message: &Message) -> Result<String, String> {
    serde_json::to_string(&message.payload).map_err(|error| error.to_string())
}

/// The message that a JSON text stands for: heartbeats by name, data else.
fn decode(frame: &WsMessage) -> Result<Message, String> {
    let value = match frame {
        WsMessage::Text(json) => serde_json::from_str::<serde_json::Value>(json),
        WsMessage::Binary(data) => serde_json::from_slice::<serde_json::Value>(data),
        _ => return Err("no JSON".to_string()),
    };
    let value = value.map_err(|_| "bad".to_string())?;
    let kind = match value.as_str() {
        Some("ping") => MessageType::Ping,
        Some("pong") => MessageType::Pong,
        _ => MessageType::Data,
    };
    Ok(Message::at(kind, value, 5))
}

fn text(json: &str) -> WsMessage {
    WsMessage::Text(json.to_string())
}

/// Hands a frame to a sender.
fn hand(sender: &FrameSink, frame: WsMessage) -> Result<(), String> {
    sender(frame)
}

fn shown(events: &[WebSocketEvent]) -> Vec<String> {
    events.iter().map(|event| format!("{:?}", event)).collect()
}

fn take(client: &mut Client, input: LoopInput) -> LoopReport {
    client.message_loop(input, decode, encode)
}

#[test]
fn client_needs_a_valid_configuration() {
    match Client::new(ClientConfig::new("http://localhost".to_string())) {
        Err(WebSocketError::ConfigError(fault)) => {
            assert_eq!(fault, "URL 必须以 ws:// 或 wss:// 开头");
        }
        Err(error) => panic!("{:?}", error),
        Ok(_) => panic!("made"),
    }
}

#[test]
fn new_client_is_initialized() {
    let client = client();
    assert_eq!(client.get_state(), ClientState::Initialized);
    assert!(!client.is_running());
    assert_eq!(client.event_bus().subscriber_count(), 0);
}

#[test]
fn queue_size_is_the_capacity_of_the_bus() {
    let message = MessageConfig { max_size: 1, queue_size: 2 };
    let config = ClientConfig::new("ws://localhost".to_string()).with_message_config(message);
    let client = match Client::new(config) {
        Ok(client) => client,
        Err(error) => panic!("{:?}", error),
    };
    let mut receiver = client.event_bus().subscribe();
    for _ in 0..3 {
        assert!(client.event_bus().publish(WebSocketEvent::Connected).is_ok());
    }
    assert!(receiver.try_recv().is_err());
}

#[test]
fn client_runs_once_it_is_connected() {
    let frames: Frames = Rc::default();
    let mut client = client();
    assert!(client.start().is_ok());
    assert_eq!(client.get_state(), ClientState::Starting);
    assert!(client.finish_start(Ok(keeping(&frames))).is_ok());
    assert_eq!(client.get_state(), ClientState::Running);
    assert!(client.is_running());
}

#[test]
fn start_is_refused_while_the_client_is_up() {
    let frames: Frames = Rc::default();
    let mut client = running(&frames);
    match client.start() {
        Err(WebSocketError::InternalError(text)) => {
            assert_eq!(text, "客户端状态无效，当前状态: Running");
        }
        other => panic!("{:?}", other),
    }
    assert!(client.is_running());
}

#[test]
fn failed_start_leaves_the_client_starting() {
    let mut client = client();
    assert!(client.start().is_ok());
    let result = client.finish_start(Err(WebSocketError::ConnectionTimeout));
    assert!(matches!(result, Err(WebSocketError::ConnectionTimeout)));
    assert_eq!(client.get_state(), ClientState::Starting);
    match client.start() {
        Err(WebSocketError::InternalError(text)) => {
            assert_eq!(text, "客户端状态无效，当前状态: Starting");
        }
        other => panic!("{:?}", other),
    }
}

#[test]
fn stopped_client_can_be_started_again() {
    let frames: Frames = Rc::default();
    let mut client = running(&frames);
    client.heartbeat_mut().start();
    client.stop();
    assert_eq!(client.get_state(), ClientState::Stopping);
    assert!(!client.heartbeat_mut().is_running());
    let event = client.finish_stop();
    assert!(matches!(event, WebSocketEvent::Disconnected(Some(reason)) if reason == "客户端主动停止"));
    assert_eq!(client.get_state(), ClientState::Stopped);
    assert_eq!(client.connection_mut().get_state(), ConnectionState::Disconnected);
    assert!(client.start().is_ok());
    assert!(client.finish_start(Ok(keeping(&frames))).is_ok());
    assert!(client.is_running());
}

#[test]
fn states_are_written_for_debugging() {
    assert_eq!(ClientState::Initialized.text(), "Initialized");
    assert_eq!(ClientState::Starting.text(), "Starting");
    assert_eq!(ClientState::Running.text(), "Running");
    assert_eq!(ClientState::Stopping.text(), "Stopping");
    assert_eq!(ClientState::Stopped.text(), "Stopped");
    let failed = ClientState::Error("a \"b\"\n".to_string());
    assert_eq!(failed.text(), "Error(\"a \\\"b\\\"\\n\")");
    assert_eq!(failed.text(), format!("{:?}", failed));
    assert_eq!(failed.clone(), failed);
    assert_ne!(failed, ClientState::Error("a".to_string()));
    assert_ne!(failed, ClientState::Stopped);
}

#[test]
fn sent_message_is_handed_on_and_reported() {
    let frames: Frames = Rc::default();
    let client = running(&frames);
    let message = Message::at(MessageType::Data, serde_json::Value::from(42), 8);
    let report = client.send_message(message, encode, hand);
    assert!(report.result.is_ok());
    assert!(matches!(report.event, Some(WebSocketEvent::MessageSent(m)) if m.timestamp == 8));
    assert_eq!(*frames.borrow(), vec!["Text(\"42\")"]);
}

#[test]
fn sent_data_is_a_data_message() {
    let frames: Frames = Rc::default();
    let client = running(&frames);
    let report = client.send_data(serde_json::Value::Bool(true), encode, hand);
    assert!(report.result.is_ok());
    match report.event {
        Some(WebSocketEvent::MessageSent(message)) => {
            assert_eq!(message.message_type, MessageType::Data);
            assert_eq!(message.payload, serde_json::Value::Bool(true));
        }
        other => panic!("{:?}", other),
    }
    assert_eq!(*frames.borrow(), vec!["Text(\"true\")"]);
}

#[test]
fn client_that_is_not_up_sends_nothing() {
    let frames: Frames = Rc::default();
    let mut client = client();
    let report = client.send_message(Message::ping(), encode, hand);
    assert!(matches!(report.result, Err(WebSocketError::ConnectionClosed)));
    assert!(report.event.is_none());
    assert!(client.start().is_ok());
    assert!(client.finish_start(Ok(keeping(&frames))).is_ok());
    client.stop();
    let report = client.send_message(Message::ping(), encode, hand);
    assert!(matches!(report.result, Err(WebSocketError::ConnectionClosed)));
    assert!(frames.borrow().is_empty());
}

#[test]
fn message_that_cannot_be_encoded_is_not_sent() {
    let frames: Frames = Rc::default();
    let client = running(&frames);
    let refuse = |_: &Message| Err::<String, String>("too deep".to_string());
    let report = client.send_message(Message::ping(), refuse, hand);
    match report.result {
        Err(WebSocketError::ParseError(reason)) => assert_eq!(reason, "序列化失败: too deep"),
        other => panic!("{:?}", other),
    }
    assert!(report.event.is_none());
    assert!(frames.borrow().is_empty());
}

#[test]
fn message_that_is_not_taken_is_reported() {
    let mut client = client();
    assert!(client.start().is_ok());
    let refusing: FrameSink = Box::new(|_| Err("gone".to_string()));
    assert!(client.finish_start(Ok(refusing)).is_ok());
    let report = client.send_message(Message::ping(), encode, hand);
    match report.result {
        Err(WebSocketError::SendFailed(reason)) => assert_eq!(reason, "消息发送通道已关闭"),
        other => panic!("{:?}", other),
    }
    match report.event {
        Some(WebSocketEvent::MessageSendFailed(message, reason)) => {
            assert!(message.is_ping());
            assert_eq!(reason, "消息发送失败: 消息发送通道已关闭");
        }
        other => panic!("{:?}", other),
    }
}

#[test]
fn received_data_reaches_handlers_and_listeners() {
    let heard: Frames = Rc::default();
    let mut client = client();
    let written = Rc::clone(&heard);
    client.register_message_handler(
        MessageType::Data,
        Box::new(move |message| {
            written.borrow_mut().push(message.payload.to_string());
            Ok(())
        }),
    );
    let report = client.handle_received_message(&text("7"), decode, encode);
    assert!(report.result.is_ok());
    assert_eq!(report.events.len(), 1);
    assert!(matches!(&report.events[0], WebSocketEvent::MessageReceived(m) if m.payload == 7));
    assert_eq!(*heard.borrow(), vec!["7"]);
    let binary = WsMessage::Binary(vec![b'8']);
    let report = client.handle_received_message(&binary, decode, encode);
    assert!(matches!(&report.events[0], WebSocketEvent::MessageReceived(m) if m.payload == 8));
}

#[test]
fn unreadable_or_refused_frame_is_an_error_event() {
    let mut client = client();
    let report = client.handle_received_message(&text("{"), decode, encode);
    assert!(report.result.is_ok());
    assert_eq!(shown(&report.events), vec!["Error(ParseError(\"反序列化失败: bad\"))"]);
    client.register_message_handler(
        MessageType::Data,
        Box::new(|_| Err(WebSocketError::HeartbeatTimeout)),
    );
    let report = client.handle_received_message(&text("1"), decode, encode);
    assert!(report.result.is_ok());
    assert_eq!(shown(&report.events), vec!["Error(HeartbeatTimeout)"]);
}

#[test]
fn received_pong_is_noted() {
    let mut client = client();
    client.heartbeat_mut().ping_sent(true);
    let report = client.handle_received_message_at(&text("\"pong\""), decode, encode, 77);
    assert!(report.result.is_ok());
    assert_eq!(shown(&report.events), vec!["HeartbeatReceived"]);
    let stats = client.heartbeat_mut().get_stats_at(77);
    assert!(!stats.pending_ping);
    assert_eq!(stats.last_pong_time, 77);
}

#[test]
fn received_ping_is_answered() {
    let mut client = client();
    let report = client.handle_received_message(&text("\"ping\""), decode, encode);
    assert!(report.result.is_ok());
    assert!(report.events.is_empty());
    assert!(matches!(report.answer, Some(WsMessage::Text(json)) if json == "\"pong\""));
}

#[test]
fn answer_that_cannot_be_encoded_is_an_error() {
    let mut client = client();
    let refuse = |_: &Message| Err::<String, String>("too deep".to_string());
    let report = client.handle_received_message(&text("\"ping\""), decode, refuse);
    match report.result {
        Err(WebSocketError::ParseError(reason)) => assert_eq!(reason, "Pong 序列化失败: too deep"),
        other => panic!("{:?}", other),
    }
    assert!(report.answer.is_none());
}

#[test]
fn nothing_but_a_ping_is_answered() {
    let mut client = client();
    client.register_message_handler(
        MessageType::Ping,
        Box::new(|_| Err(WebSocketError::HeartbeatTimeout)),
    );
    let frames = vec![
        text("7"),
        text("\"pong\""),
        text("\"ping\""),
        text("{"),
        WsMessage::Close(None),
        WsMessage::Ping(vec![1]),
        WsMessage::Pong(vec![1]),
        WsMessage::Frame,
    ];
    for frame in frames {
        assert!(client.handle_received_message(&frame, decode, encode).answer.is_none());
    }
}

#[test]
fn handlers_run_on_messages_only() {
    let mut client = client();
    for kind in [MessageType::Ping, MessageType::Pong, MessageType::Data] {
        client.register_message_handler(kind, Box::new(|_| panic!("not a message")));
    }
    let frames = vec![
        WsMessage::Ping(vec![]),
        WsMessage::Pong(vec![]),
        WsMessage::Frame,
        WsMessage::Close(None),
    ];
    for frame in frames {
        assert!(client.handle_received_message(&frame, decode, encode).result.is_ok());
    }
}

#[test]
fn heartbeats_are_ignored_where_they_are_switched_off() {
    let config = ClientConfig::new("ws://localhost".to_string()).without_heartbeat();
    let mut client = match Client::new(config) {
        Ok(client) => client,
        Err(error) => panic!("{:?}", error),
    };
    for json in ["\"ping\"", "\"pong\""] {
        let report = client.handle_received_message_at(&text(json), decode, encode, 9);
        assert!(report.result.is_ok());
        assert!(report.events.is_empty());
        assert!(report.answer.is_none());
    }
    assert_eq!(client.heartbeat_mut().get_stats_at(9).last_pong_time, 0);
}

#[test]
fn close_frame_is_a_disconnection() {
    let mut client = client();
    let close = WsMessage::Close(Some("bye".to_string()));
    let report = client.handle_received_message(&close, decode, encode);
    assert_eq!(shown(&report.events), vec!["Disconnected(Some(\"bye\"))"]);
    let report = client.handle_received_message(&WsMessage::Close(None), decode, encode);
    assert_eq!(shown(&report.events), vec!["Disconnected(None)"]);
}

#[test]
fn protocol_frames_are_passed_over() {
    let mut client = client();
    client.heartbeat_mut().ping_sent(true);
    for frame in [WsMessage::Ping(vec![1]), WsMessage::Pong(vec![]), WsMessage::Frame] {
        let report = client.handle_received_message_at(&frame, decode, encode, 3);
        assert!(report.result.is_ok());
        assert!(report.events.is_empty());
    }
    assert!(client.heartbeat_mut().get_stats_at(3).pending_ping);
}

#[test]
fn loop_goes_on_after_a_frame() {
    let mut client = client();
    let report = take(&mut client, LoopInput::Received(text("7")));
    assert!(!report.ends);
    assert_eq!(report.events.len(), 1);
    let report = take(&mut client, LoopInput::Sent);
    assert!(!report.ends);
    assert!(report.events.is_empty());
}

#[test]
fn loop_reports_a_pong_that_could_not_be_sent() {
    let mut client = client();
    let report = take(&mut client, LoopInput::Received(text("\"ping\"")));
    assert!(!report.ends);
    assert!(report.events.is_empty());
    assert!(matches!(report.answer, Some(WsMessage::Text(json)) if json == "\"pong\""));
    let report = take(&mut client, LoopInput::Answered(Ok(())));
    assert!(!report.ends);
    assert!(report.events.is_empty());
    let report = take(&mut client, LoopInput::Answered(Err("gone".to_string())));
    assert!(!report.ends);
    assert!(report.answer.is_none());
    assert_eq!(shown(&report.events), vec!["Error(SendFailed(\"Pong 发送失败: gone\"))"]);
}

#[test]
fn loop_ends_with_the_connection() {
    let frames: Frames = Rc::default();
    let mut client = running(&frames);
    client.connection_mut().connect();
    client.connection_mut().finish_connect(ConnectOutcome::Established);
    let report = take(&mut client, LoopInput::RemoteClosed);
    assert!(report.ends);
    assert_eq!(shown(&report.events), vec!["Disconnected(Some(\"连接被远程关闭\"))"]);
    assert!(!client.connection_mut().is_connected());
    assert!(client.is_running());
}

#[test]
fn loop_ends_on_a_failure() {
    let mut client = client();
    let broken = WebSocketError::NetworkError("reset".to_string());
    let report = take(&mut client, LoopInput::ReceiveFailed(broken));
    assert!(report.ends);
    assert_eq!(shown(&report.events), vec!["Error(NetworkError(\"reset\"))"]);
    let report = take(&mut client, LoopInput::SendFailed("pipe".to_string()));
    assert!(report.ends);
    assert_eq!(shown(&report.events), vec!["Error(SendFailed(\"pipe\"))"]);
    let report = take(&mut client, LoopInput::SenderClosed);
    assert!(report.ends);
    assert!(report.events.is_empty());
}

#[test]
fn event_handlers_of_the_client_hear_its_bus() {
    let heard: Frames = Rc::default();
    let mut client = client();
    let written = Rc::clone(&heard);
    client.register_event_handler(
        "logger".to_string(),
        Box::new(move |event| {
            written.borrow_mut().push(format!("{:?}", event));
            Ok(())
        }),
    );
    assert!(client.event_bus().publish(WebSocketEvent::Connected).is_ok());
    assert_eq!(*heard.borrow(), vec!["Connected"]);
    client.unregister_event_handler("logger");
    assert!(client.event_bus().publish(WebSocketEvent::Connected).is_ok());
    assert_eq!(heard.borrow().len(), 1);
}

#[test]
fn handlers_outlive_a_restart() {
    let frames: Frames = Rc::default();
    let heard: Frames = Rc::default();
    let mut client = running(&frames);
    let written = Rc::clone(&heard);
    client.register_message_handler(
        MessageType::Data,
        Box::new(move |message| {
            written.borrow_mut().push(message.payload.to_string());
            Ok(())
        }),
    );
    client.stop();
    client.finish_stop();
    assert!(client.start().is_ok());
    assert!(client.finish_start(Ok(keeping(&frames))).is_ok());
    take(&mut client, LoopInput::Received(text("3")));
    assert_eq!(*heard.borrow(), vec!["3"]);
}

#[test]
fn message_above_the_maximum_size_is_not_sent() {
    let frames: Frames = Rc::default();
    let message = MessageConfig { max_size: 8, queue_size: 4 };
    let config = ClientConfig::new("ws://localhost".to_string()).with_message_config(message);
    let mut client = match Client::new(config) {
        Ok(client) => client,
        Err(error) => panic!("{:?}", error),
    };
    assert!(client.start().is_ok());
    assert!(client.finish_start(Ok(keeping(&frames))).is_ok());
    let text = |content: &str| serde_json::Value::String(content.to_string());
    assert!(client.send_data(text("123456"), encode, hand).result.is_ok());
    assert!(client.send_data(text("大小"), encode, hand).result.is_ok());
    assert_eq!(frames.borrow().len(), 2);
    for content in ["1234567", "大小大"] {
        let report = client.send_data(text(content), encode, hand);
        match report.result {
            Err(WebSocketError::SendFailed(reason)) => assert_eq!(reason, "消息大小超过最大限制"),
            other => panic!("{:?}", other),
        }
        match report.event {
            Some(WebSocketEvent::MessageSendFailed(message, reason)) => {
                assert_eq!(message.payload, text(content));
                assert_eq!(reason, "消息发送失败: 消息大小超过最大限制");
            }
            other => panic!("{:?}", other),
        }
    }
    assert_eq!(frames.borrow().len(), 2);
}
