use std::cell::RefCell;

use websocket::config::HeartbeatConfig;
use websocket::error::WebSocketError;
use websocket::event::WebSocketEvent;
use websocket::heartbeat::{HealthChecker, HeartbeatManager, HeartbeatStart, HeartbeatTick};
use websocket::message::{Message, WsMessage};
use websocket::time::Duration;

fn enabled() -> HeartbeatManager {
    HeartbeatManager::new(HeartbeatConfig::default())
}

fn disabled() -> HeartbeatManager {
    HeartbeatManager::new(HeartbeatConfig { enabled: false, ..HeartbeatConfig::default() })
}

/// A heartbeat that was sent at the first of all milliseconds after the given one and is without
/// an answer.
fn waiting_since(start: u64) -> HeartbeatManager {
    let mut manager = enabled();
    manager.start_at(start);
    manager.ping_sent(true);
    manager
}

fn encode(message: &Message) -> Result<String, String> {
    serde_json::to_string(&message.payload).map_err(|error| error.to_string())
}

#[test]
fn heartbeat_starts_once() {
    let mut manager = enabled();
    assert!(!manager.is_running());
    assert_eq!(manager.interval(), Duration::from_secs(30));
    assert_eq!(manager.start_at(100), HeartbeatStart::Started);
    assert!(manager.is_running());
    assert_eq!(manager.start_at(200), HeartbeatStart::AlreadyRunning);
    assert_eq!(manager.get_stats_at(300).last_pong_time, 100);
    manager.stop();
    assert!(!manager.is_running());
    assert_eq!(manager.start(), HeartbeatStart::Started);
}

#[test]
fn disabled_heartbeat_does_not_start() {
    let mut manager = disabled();
    assert_eq!(manager.start_at(100), HeartbeatStart::Disabled);
    assert_eq!(manager.start(), HeartbeatStart::Disabled);
    assert!(!manager.is_running());
}

#[test]
fn interval_sends_an_empty_ping() {
    let mut manager = enabled();
    match manager.tick_at(5) {
        HeartbeatTick::Ping(WsMessage::Ping(data)) => assert!(data.is_empty()),
        other => panic!("{:?}", other),
    }
}

#[test]
fn sent_ping_is_reported_and_awaited() {
    let mut manager = enabled();
    assert!(!manager.get_stats_at(0).pending_ping);
    assert!(matches!(manager.ping_sent(true), Some(WebSocketEvent::HeartbeatSent)));
    assert!(manager.get_stats_at(0).pending_ping);
}

#[test]
fn silence_is_borne_up_to_the_timeout() {
    let mut manager = waiting_since(1_000);
    assert!(matches!(manager.tick_at(11_000), HeartbeatTick::Ping(_)));
    assert!(manager.is_healthy_at(11_000));
    match manager.tick_at(11_001) {
        HeartbeatTick::TimedOut(events) => {
            assert_eq!(events.len(), 2);
            assert!(matches!(events[0], WebSocketEvent::HeartbeatTimeout));
            assert!(matches!(
                events[1],
                WebSocketEvent::Error(WebSocketError::HeartbeatTimeout)
            ));
        }
        other => panic!("{:?}", other),
    }
    assert!(!manager.is_healthy_at(11_001));
}

#[test]
fn further_ping_does_not_put_the_timeout_off() {
    let mut manager = waiting_since(1_000);
    assert!(matches!(manager.tick_at(10_000), HeartbeatTick::Ping(_)));
    manager.ping_sent(true);
    assert!(matches!(manager.tick_at(11_001), HeartbeatTick::TimedOut(_)));
}

#[test]
fn answer_restores_the_health() {
    let mut manager = waiting_since(1_000);
    let event = manager.handle_pong_at(50_000);
    assert!(matches!(event, Some(WebSocketEvent::HeartbeatReceived)));
    assert!(manager.is_healthy_at(50_000));
    assert!(manager.is_healthy_at(500_000));
    assert!(matches!(manager.tick_at(500_000), HeartbeatTick::Ping(_)));
}

#[test]
fn disabled_heartbeat_ignores_an_answer() {
    let mut manager = disabled();
    assert!(manager.handle_pong_at(9).is_none());
    assert!(manager.handle_pong().is_none());
    assert_eq!(manager.get_stats_at(9).last_pong_time, 0);
}

#[test]
fn disabled_heartbeat_is_always_healthy() {
    let mut manager = disabled();
    manager.ping_sent(true);
    assert!(manager.is_healthy_at(u64::MAX));
    assert_eq!(manager.is_healthy(), Some(true));
}

#[test]
fn reset_forgets_the_awaited_answer() {
    let mut manager = waiting_since(1_000);
    manager.reset_at(2_000);
    let stats = manager.get_stats_at(90_000);
    assert!(!stats.pending_ping);
    assert!(stats.is_healthy);
    assert_eq!(stats.last_pong_time, 2_000);
}

#[test]
fn stats_tell_how_the_heartbeat_stands() {
    let manager = waiting_since(1_000);
    let stats = manager.get_stats_at(12_500);
    assert!(stats.enabled);
    assert!(stats.is_running);
    assert_eq!(stats.interval, Duration::from_secs(30));
    assert_eq!(stats.timeout, Duration::from_secs(10));
    assert_eq!(stats.last_pong_time, 1_000);
    assert_eq!(stats.time_since_last_pong, Duration::from_millis(11_500));
    assert!(stats.pending_ping);
    assert!(!stats.is_healthy);
}

#[test]
fn clock_decides_what_is_due_now() {
    let mut long_ago = waiting_since(1_000);
    assert_eq!(long_ago.is_healthy(), Some(false));
    assert!(matches!(long_ago.tick(), Some(HeartbeatTick::TimedOut(_))));
    let mut manager = enabled();
    manager.start();
    manager.ping_sent(true);
    assert_eq!(manager.is_healthy(), Some(true));
    assert!(matches!(manager.tick(), Some(HeartbeatTick::Ping(_))));
    assert!(manager.get_stats().unwrap().last_pong_time > 1_577_836_800_000);
    manager.handle_pong();
    manager.reset();
    assert_eq!(manager.is_healthy(), Some(true));
}

#[test]
fn clock_behind_the_last_answer_decides_nothing() {
    let mut manager = waiting_since(u64::MAX);
    assert_eq!(manager.is_healthy(), None);
    assert!(manager.get_stats().is_none());
    assert!(manager.tick().is_none());
}

#[test]
fn ping_of_the_peer_is_answered_with_a_pong() {
    let sent = RefCell::new(Vec::new());
    let send = |frame: WsMessage| {
        sent.borrow_mut().push(format!("{:?}", frame));
        Ok::<(), String>(())
    };
    assert!(enabled().handle_ping(encode, send).is_ok());
    assert_eq!(*sent.borrow(), vec!["Text(\"\\\"pong\\\"\")"]);
    assert!(disabled().handle_ping(encode, send).is_ok());
    assert_eq!(sent.borrow().len(), 1);
}

#[test]
fn unsent_pong_is_an_error() {
    let send = |_: WsMessage| Err::<(), String>("channel closed".to_string());
    match enabled().handle_ping(encode, send) {
        Err(WebSocketError::SendFailed(reason)) => {
            assert_eq!(reason, "Pong 发送失败: channel closed");
        }
        other => panic!("{:?}", other),
    }
}

#[test]
fn unencoded_pong_is_an_error() {
    let refuse = |_: &Message| Err::<String, String>("too deep".to_string());
    let send = |_: WsMessage| -> Result<(), String> { panic!("nothing to send") };
    match enabled().handle_ping(refuse, send) {
        Err(WebSocketError::ParseError(reason)) => {
            assert_eq!(reason, "Pong 序列化失败: too deep");
        }
        other => panic!("{:?}", other),
    }
}

#[test]
fn checker_is_alarmed_by_a_silent_peer() {
    let checker = HealthChecker::new(Duration::from_secs(5));
    assert_eq!(checker.check_interval(), Duration::from_secs(5));
    let silent = checker.check_once(&waiting_since(1_000)).unwrap();
    assert!(checker.is_alarming(&silent));
    let quiet = checker.check_once(&enabled()).unwrap();
    assert!(!checker.is_alarming(&quiet));
}

#[test]
fn answering_peer_is_never_given_up() {
    let mut manager = enabled();
    manager.start_at(0);
    for round in 0..5u64 {
        let now = round * 100_000;
        assert!(matches!(manager.tick_at(now), HeartbeatTick::Ping(_)));
        manager.ping_sent(true);
        manager.handle_pong_at(now + 99_000);
    }
}

#[test]
fn heartbeat_that_was_not_answered_has_ended() {
    let mut manager = waiting_since(1_000);
    assert!(manager.get_stats_at(11_000).is_running);
    assert!(matches!(manager.tick_at(11_001), HeartbeatTick::TimedOut(_)));
    assert!(!manager.is_running());
    assert!(!manager.get_stats_at(11_001).is_running);
    assert_eq!(manager.start_at(12_000), HeartbeatStart::Started);
    assert!(manager.is_healthy_at(12_000));
}

#[test]
fn heartbeat_that_could_not_be_sent_has_ended() {
    let mut manager = enabled();
    manager.start_at(100);
    assert!(matches!(manager.tick_at(100), HeartbeatTick::Ping(_)));
    assert!(manager.is_running());
    assert!(manager.ping_sent(false).is_none());
    assert!(!manager.get_stats_at(200).is_running);
    assert!(!manager.get_stats_at(200).pending_ping);
    assert_eq!(manager.start_at(300), HeartbeatStart::Started);
}
