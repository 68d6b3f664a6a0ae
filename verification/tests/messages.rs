use std::cell::RefCell;
use std::rc::Rc;

use websocket::error::{WebSocketError, WebSocketResult};
use websocket::message::{
    Message, MessageProcessor, MessageRouter, MessageSerializer, MessageType, WsMessage,
};

type Handler = Box<dyn Fn(&Message) -> WebSocketResult<()>>;

fn text(value: &str) -> serde_json::Value {
    serde_json::Value::String(value.to_string())
}

/// A message as JSON: its kind, its payload and its time.
fn encode(message: &Message) -> Result<String, String> {
    let kind = match &message.message_type {
        MessageType::Data => "Data".to_string(),
        MessageType::Ping => "Ping".to_string(),
        MessageType::Pong => "Pong".to_string(),
        MessageType::Control => "Control".to_string(),
        MessageType::Custom(name) => name.clone(),
    };
    let parts = serde_json::Value::Array(vec![
        serde_json::Value::String(kind),
        message.payload.clone(),
        serde_json::Value::from(message.timestamp),
    ]);
    serde_json::to_string(&parts).map_err(|error| error.to_string())
}

fn decode(frame: &WsMessage) -> Result<Message, String> {
    let parsed = match frame {
        WsMessage::Text(json) => serde_json::from_str::<serde_json::Value>(json),
        WsMessage::Binary(data) => serde_json::from_slice::<serde_json::Value>(data),
        _ => return Err("no JSON".to_string()),
    };
    let value = parsed.map_err(|error| error.to_string())?;
    let kind = match value[0].as_str() {
        Some("Data") => MessageType::Data,
        Some("Ping") => MessageType::Ping,
        Some("Pong") => MessageType::Pong,
        Some("Control") => MessageType::Control,
        Some(name) => MessageType::Custom(name.to_string()),
        None => return Err("no kind".to_string()),
    };
    let time = value[2].as_i64().ok_or("no time".to_string())?;
    Ok(Message::at(kind, value[1].clone(), time))
}

fn refuse_to_encode(_: &Message) -> Result<String, String> {
    Err("too deep".to_string())
}

fn unread(_: &WsMessage) -> Result<Message, String> {
    panic!("the decoder has no say in this frame")
}

fn parse_error(result: WebSocketResult<Message>) -> String {
    match result {
        Err(WebSocketError::ParseError(reason)) => reason,
        other => panic!("{:?}", other),
    }
}

#[test]
fn new_messages_are_plain() {
    let message = Message::new(MessageType::Control, text("x"));
    assert_eq!(message.message_type, MessageType::Control);
    assert_eq!(message.id, None);
    assert_eq!(message.payload, text("x"));
    assert_eq!(message.metadata.len(), 0);
    assert!(message.timestamp > 1_577_836_800_000);
}

#[test]
fn heartbeat_messages_carry_their_names() {
    let ping = Message::ping();
    assert!(ping.is_ping() && !ping.is_pong());
    assert_eq!(ping.payload, text("ping"));
    let pong = Message::pong();
    assert!(pong.is_pong() && !pong.is_ping());
    assert_eq!(pong.payload, text("pong"));
    let data = Message::data(text("d"));
    assert!(!data.is_ping() && !data.is_pong());
    assert_eq!(data.message_type, MessageType::Data);
}

#[test]
fn id_and_metadata_are_set() {
    let message = Message::at(MessageType::Data, text("x"), 7)
        .with_id("msg_001".to_string())
        .with_metadata("a".to_string(), text("1"))
        .with_metadata("b".to_string(), text("2"))
        .with_metadata("a".to_string(), text("3"));
    assert_eq!(message.id, Some("msg_001".to_string()));
    assert_eq!(message.timestamp, 7);
    assert_eq!(message.metadata.len(), 2);
    assert_eq!(message.metadata.get(&"a".to_string()), Some(&text("3")));
    assert_eq!(message.metadata.get(&"b".to_string()), Some(&text("2")));
    assert_eq!(message.metadata.get(&"c".to_string()), None);
}

#[test]
fn clones_of_messages_are_equal_in_every_part() {
    let message = Message::at(MessageType::Custom("k".to_string()), text("x"), 9)
        .with_id("i".to_string())
        .with_metadata("a".to_string(), text("1"));
    assert_eq!(format!("{:?}", message.clone()), format!("{:?}", message));
}

#[test]
fn kinds_are_equal_by_name() {
    let custom = |name: &str| MessageType::Custom(name.to_string());
    assert_eq!(custom("a"), custom("a"));
    assert_ne!(custom("a"), custom("b"));
    assert_ne!(custom("Data"), MessageType::Data);
    assert_ne!(MessageType::Ping, MessageType::Pong);
    assert_eq!(MessageType::Control, MessageType::Control);
}

#[test]
fn messages_are_framed_as_text() {
    let message = Message::at(MessageType::Data, text("x"), 5);
    match MessageSerializer::serialize(&message, encode) {
        Ok(WsMessage::Text(json)) => assert_eq!(json, "[\"Data\",\"x\",5]"),
        other => panic!("{:?}", other),
    }
}

#[test]
fn refused_encoding_is_a_parse_error() {
    let message = Message::data(text("x"));
    match MessageSerializer::serialize(&message, refuse_to_encode) {
        Err(WebSocketError::ParseError(reason)) => assert_eq!(reason, "序列化失败: too deep"),
        other => panic!("{:?}", other),
    }
}

#[test]
fn messages_come_back_from_their_frames() {
    for kind in [MessageType::Data, MessageType::Ping, MessageType::Custom("k".to_string())] {
        let message = Message::at(kind, text("内容"), 12);
        let frame = MessageSerializer::serialize(&message, encode).unwrap();
        let back = MessageSerializer::deserialize(&frame, decode).unwrap();
        assert_eq!(format!("{:?}", back), format!("{:?}", message));
    }
}

#[test]
fn binary_frames_are_read_like_text() {
    let frame = WsMessage::Binary("[\"Pong\",null,3]".as_bytes().to_vec());
    let message = MessageSerializer::deserialize(&frame, decode).unwrap();
    assert!(message.is_pong());
    assert_eq!(message.timestamp, 3);
}

#[test]
fn unreadable_frames_are_parse_errors() {
    let refused = |_: &WsMessage| Err::<Message, String>("bad".to_string());
    let in_text = MessageSerializer::deserialize(&WsMessage::Text("{".to_string()), refused);
    assert_eq!(parse_error(in_text), "反序列化失败: bad");
    let in_binary = MessageSerializer::deserialize(&WsMessage::Binary(vec![0]), refused);
    assert_eq!(parse_error(in_binary), "二进制反序列化失败: bad");
}

#[test]
fn protocol_pings_and_pongs_are_messages() {
    let ping = WsMessage::Ping("数据".as_bytes().to_vec());
    let message = MessageSerializer::deserialize(&ping, unread).unwrap();
    assert!(message.is_ping());
    assert_eq!(message.payload, text("数据"));
    let pong = WsMessage::Pong(vec![b'a', 0xff, b'b']);
    let message = MessageSerializer::deserialize(&pong, unread).unwrap();
    assert!(message.is_pong());
    assert_eq!(message.payload, text("a\u{fffd}b"));
}

#[test]
fn close_frames_are_a_closed_connection() {
    let frame = WsMessage::Close(Some("bye".to_string()));
    let result = MessageSerializer::deserialize(&frame, unread);
    assert!(matches!(result, Err(WebSocketError::ConnectionClosed)));
}

#[test]
fn raw_frames_are_not_supported() {
    let result = MessageSerializer::deserialize(&WsMessage::Frame, unread);
    assert_eq!(parse_error(result), "不支持的消息类型");
}

/// A handler that writes its name down and answers as told.
fn handler(name: &str, heard: &Rc<RefCell<Vec<String>>>, accept: bool) -> Handler {
    let name = name.to_string();
    let heard = Rc::clone(heard);
    Box::new(move |_| {
        heard.borrow_mut().push(name.clone());
        if accept {
            Ok(())
        } else {
            Err(WebSocketError::InternalError(name.clone()))
        }
    })
}

#[test]
fn handlers_of_a_kind_run_in_order() {
    let heard = Rc::new(RefCell::new(Vec::new()));
    let mut router: MessageRouter<Handler> = MessageRouter::new();
    router.register_handler(MessageType::Data, handler("first", &heard, true));
    router.register_handler(MessageType::Control, handler("other", &heard, true));
    router.register_handler(MessageType::Data, handler("second", &heard, true));
    assert!(router.route_message(&Message::data(text("x"))).is_ok());
    assert_eq!(*heard.borrow(), vec!["first", "second"]);
}

#[test]
fn first_refusal_ends_the_routing() {
    let heard = Rc::new(RefCell::new(Vec::new()));
    let mut router: MessageRouter<Handler> = MessageRouter::default();
    router.register_handler(MessageType::Data, handler("a", &heard, true));
    router.register_handler(MessageType::Data, handler("b", &heard, false));
    router.register_handler(MessageType::Data, handler("c", &heard, false));
    match router.route_message(&Message::data(text("x"))) {
        Err(WebSocketError::InternalError(name)) => assert_eq!(name, "b"),
        other => panic!("{:?}", other),
    }
    assert_eq!(*heard.borrow(), vec!["a", "b"]);
}

#[test]
fn message_without_handlers_is_accepted() {
    let heard = Rc::new(RefCell::new(Vec::new()));
    let mut router: MessageRouter<Handler> = MessageRouter::new();
    router.register_handler(MessageType::Custom("a".to_string()), handler("a", &heard, false));
    let other = Message::new(MessageType::Custom("b".to_string()), text("x"));
    assert!(router.route_message(&other).is_ok());
    assert!(heard.borrow().is_empty());
}

#[test]
fn received_frames_reach_their_handlers() {
    let heard = Rc::new(RefCell::new(Vec::new()));
    let mut processor: MessageProcessor<Handler> = MessageProcessor::default();
    processor.router_mut().register_handler(MessageType::Data, handler("d", &heard, true));
    let frame = WsMessage::Text("[\"Data\",\"x\",5]".to_string());
    assert_eq!(processor.receive(&frame, decode).unwrap().timestamp, 5);
    assert!(processor.process_received(frame, decode).is_ok());
    assert_eq!(*heard.borrow(), vec!["d", "d"]);
}

#[test]
fn refusals_of_handlers_and_decoder_are_passed_on() {
    let heard = Rc::new(RefCell::new(Vec::new()));
    let mut processor: MessageProcessor<Handler> = MessageProcessor::new();
    processor.router_mut().register_handler(MessageType::Data, handler("d", &heard, false));
    let frame = WsMessage::Text("[\"Data\",\"x\",5]".to_string());
    let refused = processor.process_received(frame, decode);
    assert!(matches!(refused, Err(WebSocketError::InternalError(name)) if name == "d"));
    let unreadable = processor.process_received(WsMessage::Text("[]".to_string()), decode);
    match unreadable {
        Err(WebSocketError::ParseError(reason)) => assert_eq!(reason, "反序列化失败: no kind"),
        other => panic!("{:?}", other),
    }
}

#[test]
fn outgoing_messages_are_prepared_as_text() {
    let processor: MessageProcessor<Handler> = MessageProcessor::new();
    let message = Message::at(MessageType::Pong, text("p"), 1);
    match processor.prepare_send(message, encode) {
        Ok(WsMessage::Text(json)) => assert_eq!(json, "[\"Pong\",\"p\",1]"),
        other => panic!("{:?}", other),
    }
}

#[test]
fn text_and_its_bytes_are_read_alike() {
    for json in ["[\"Data\",\"内容\",5]", "[\"Ping\",null,0]", "[]", "{", "[\"Data\",1]"] {
        let text = MessageSerializer::deserialize(&WsMessage::Text(json.to_string()), decode);
        let bytes = WsMessage::Binary(json.as_bytes().to_vec());
        match (text, MessageSerializer::deserialize(&bytes, decode)) {
            (Ok(one), Ok(other)) => assert_eq!(format!("{:?}", one), format!("{:?}", other)),
            (Err(one), Err(other)) => {
                assert!(one.to_string().starts_with("消息解析失败: 反序列化失败: "));
                assert!(other.to_string().starts_with("消息解析失败: 二进制反序列化失败: "));
            }
            other => panic!("{:?}", other),
        }
    }
}
