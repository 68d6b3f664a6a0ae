use std::cell::RefCell;
use std::rc::Rc;

use websocket::error::{WebSocketError, WebSocketResult};
use websocket::event::{
    EventBuilder, EventBus, EventListener, ListenStep, Received, WebSocketEvent,
};
use websocket::message::{Message, MessageType};

type Handler = Box<dyn Fn(WebSocketEvent) -> WebSocketResult<()>>;

fn message() -> Message {
    Message::at(MessageType::Data, serde_json::Value::Bool(true), 4)
}

/// A handler that writes down what it hears, behind its name, and answers as told.
fn handler(name: &str, heard: &Rc<RefCell<Vec<String>>>, accept: bool) -> Handler {
    let name = name.to_string();
    let heard = Rc::clone(heard);
    Box::new(move |event| {
        heard.borrow_mut().push(format!("{}: {:?}", name, event));
        if accept {
            Ok(())
        } else {
            Err(WebSocketError::InternalError(name.clone()))
        }
    })
}

#[test]
fn builder_makes_each_event() {
    assert!(matches!(EventBuilder::connected(), WebSocketEvent::Connected));
    let lost = EventBuilder::disconnected(Some("why".to_string()));
    assert!(matches!(lost, WebSocketEvent::Disconnected(Some(reason)) if reason == "why"));
    assert!(matches!(EventBuilder::disconnected(None), WebSocketEvent::Disconnected(None)));
    assert!(matches!(EventBuilder::reconnecting(3), WebSocketEvent::Reconnecting(3)));
    assert!(matches!(EventBuilder::reconnected(), WebSocketEvent::Reconnected));
    let failed = EventBuilder::reconnect_failed("x".to_string());
    assert!(matches!(failed, WebSocketEvent::ReconnectFailed(reason) if reason == "x"));
    let received = EventBuilder::message_received(message());
    assert!(matches!(received, WebSocketEvent::MessageReceived(m) if m.timestamp == 4));
    let sent = EventBuilder::message_sent(message());
    assert!(matches!(sent, WebSocketEvent::MessageSent(m) if m.timestamp == 4));
    let unsent = EventBuilder::message_send_failed(message(), "full".to_string());
    assert!(matches!(unsent, WebSocketEvent::MessageSendFailed(m, r) if m.timestamp == 4 && r == "full"));
    assert!(matches!(EventBuilder::heartbeat_sent(), WebSocketEvent::HeartbeatSent));
    assert!(matches!(EventBuilder::heartbeat_received(), WebSocketEvent::HeartbeatReceived));
    assert!(matches!(EventBuilder::heartbeat_timeout(), WebSocketEvent::HeartbeatTimeout));
    let error = EventBuilder::error(WebSocketError::ConnectionClosed);
    assert!(matches!(error, WebSocketEvent::Error(WebSocketError::ConnectionClosed)));
}

#[test]
fn clones_of_events_read_the_same() {
    let events = vec![
        EventBuilder::connected(),
        EventBuilder::disconnected(Some("why".to_string())),
        EventBuilder::reconnecting(2),
        EventBuilder::reconnect_failed("r".to_string()),
        EventBuilder::message_received(message()),
        EventBuilder::message_sent(message()),
        EventBuilder::message_send_failed(message(), "full".to_string()),
        EventBuilder::error(WebSocketError::ParseError("p".to_string())),
    ];
    for event in events {
        assert_eq!(format!("{:?}", event.clone()), format!("{:?}", event));
    }
}

#[test]
fn every_handler_hears_an_event() {
    let heard = Rc::new(RefCell::new(Vec::new()));
    let mut bus: EventBus<Handler> = EventBus::new(4);
    bus.register_handler("a".to_string(), handler("a", &heard, true));
    bus.register_handler("b".to_string(), handler("b", &heard, true));
    assert!(bus.publish(EventBuilder::reconnecting(2)).is_ok());
    let mut heard = heard.borrow().clone();
    heard.sort();
    assert_eq!(heard, vec!["a: Reconnecting(2)", "b: Reconnecting(2)"]);
}

#[test]
fn refusal_keeps_no_other_handler_from_the_event() {
    let heard = Rc::new(RefCell::new(Vec::new()));
    let mut bus: EventBus<Handler> = EventBus::default();
    bus.register_handler("a".to_string(), handler("a", &heard, false));
    bus.register_handler("b".to_string(), handler("b", &heard, true));
    let delivery = bus.deliver(EventBuilder::connected());
    assert_eq!(heard.borrow().len(), 2);
    assert_eq!(delivery.failures.len(), 1);
    assert_eq!(delivery.failures[0].name, "a");
    assert_eq!(delivery.failures[0].error.to_string(), "内部错误: a");
    assert!(bus.publish(EventBuilder::connected()).is_ok());
}

#[test]
fn later_handler_replaces_an_earlier_one_of_its_name() {
    let heard = Rc::new(RefCell::new(Vec::new()));
    let mut bus: EventBus<Handler> = EventBus::new(1);
    bus.register_handler("a".to_string(), handler("old", &heard, true));
    bus.register_handler("a".to_string(), handler("new", &heard, true));
    assert!(bus.publish(EventBuilder::connected()).is_ok());
    assert_eq!(*heard.borrow(), vec!["new: Connected"]);
}

#[test]
fn removed_handler_hears_nothing() {
    let heard = Rc::new(RefCell::new(Vec::new()));
    let mut bus: EventBus<Handler> = EventBus::new(1);
    bus.register_handler("a".to_string(), handler("a", &heard, true));
    bus.register_handler("b".to_string(), handler("b", &heard, true));
    bus.unregister_handler("a");
    bus.unregister_handler("nobody");
    assert!(bus.publish(EventBuilder::connected()).is_ok());
    assert_eq!(*heard.borrow(), vec!["b: Connected"]);
}

#[test]
fn event_without_subscribers_is_given_back() {
    let bus: EventBus<Handler> = EventBus::new(2);
    let delivery = bus.deliver(EventBuilder::reconnecting(7));
    match delivery.receivers {
        Err(WebSocketEvent::Reconnecting(attempt)) => assert_eq!(attempt, 7),
        other => panic!("{:?}", other),
    }
    assert!(delivery.failures.is_empty());
    assert!(bus.publish(EventBuilder::connected()).is_ok());
}

#[test]
fn subscribers_receive_and_are_counted() {
    let bus: EventBus<Handler> = EventBus::new(2);
    assert_eq!(bus.subscriber_count(), 0);
    let mut first = bus.subscribe();
    let mut second = bus.subscribe();
    assert_eq!(bus.subscriber_count(), 2);
    let delivery = bus.deliver(EventBuilder::reconnecting(7));
    assert!(matches!(delivery.receivers, Ok(2)));
    assert!(matches!(first.try_recv(), Ok(WebSocketEvent::Reconnecting(7))));
    assert!(matches!(second.try_recv(), Ok(WebSocketEvent::Reconnecting(7))));
    drop(second);
    assert_eq!(bus.subscriber_count(), 1);
}

#[test]
fn capacity_limits_how_far_a_subscriber_falls_behind() {
    let bus: EventBus<Handler> = EventBus::new(2);
    let mut receiver = bus.subscribe();
    for attempt in 0..3 {
        assert!(bus.publish(EventBuilder::reconnecting(attempt)).is_ok());
    }
    assert!(receiver.try_recv().is_err());
    assert!(matches!(receiver.try_recv(), Ok(WebSocketEvent::Reconnecting(1))));
    assert!(matches!(receiver.try_recv(), Ok(WebSocketEvent::Reconnecting(2))));
}

#[test]
fn listener_hears_the_events_of_its_bus() {
    let heard = Rc::new(RefCell::new(Vec::new()));
    let bus: EventBus<Handler> = EventBus::new(2);
    let mut listener: EventListener<Handler> = EventListener::new(&bus);
    listener.register_handler("l".to_string(), handler("l", &heard, true));
    listener.register_handler("m".to_string(), handler("m", &heard, false));
    assert!(bus.publish(EventBuilder::heartbeat_sent()).is_ok());
    let event = listener.receiver_mut().try_recv().unwrap();
    match listener.listen(Received::Event(event)) {
        ListenStep::Continue(failures) => {
            assert_eq!(failures.len(), 1);
            assert_eq!(failures[0].name, "m");
        }
        ListenStep::Stop => panic!("stopped"),
    }
    assert_eq!(heard.borrow().len(), 2);
}

#[test]
fn listener_passes_over_lost_events_and_stops_with_the_bus() {
    let bus: EventBus<Handler> = EventBus::new(2);
    let listener: EventListener<Handler> = EventListener::new(&bus);
    match listener.listen(Received::Lagged(3)) {
        ListenStep::Continue(failures) => assert!(failures.is_empty()),
        ListenStep::Stop => panic!("stopped"),
    }
    assert!(matches!(listener.listen(Received::Closed), ListenStep::Stop));
}
