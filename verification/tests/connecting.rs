use websocket::config::{ClientConfig, ReconnectConfig};
use websocket::connection::{
    ConnectOutcome, ConnectionManager, ConnectionState, RetryReport, RetryStep,
};
use websocket::error::{WebSocketError, WebSocketResult};
use websocket::event::WebSocketEvent;
use websocket::time::Duration;

fn config(max_retries: Option<u32>) -> ClientConfig {
    let reconnect = ReconnectConfig { max_retries, ..ReconnectConfig::default() };
    ClientConfig::new("ws://localhost".to_string()).with_reconnect(reconnect)
}

fn timed_out() -> WebSocketResult<()> {
    Err(WebSocketError::ConnectionTimeout)
}

fn shown(report: &RetryReport) -> Vec<String> {
    report.events.iter().map(|event| format!("{:?}", event)).collect()
}

#[test]
fn new_connection_is_disconnected() {
    let manager = ConnectionManager::new(config(None));
    assert_eq!(manager.get_state(), ConnectionState::Disconnected);
    assert!(!manager.is_connected());
}

#[test]
fn attempt_dials_the_configured_server() {
    let mut manager = ConnectionManager::new(config(None));
    let dial = manager.connect();
    assert_eq!(dial.url, "ws://localhost");
    assert_eq!(dial.timeout, Duration::from_secs(10));
    assert_eq!(manager.get_state(), ConnectionState::Connecting);
}

#[test]
fn established_connection_is_reported() {
    let mut manager = ConnectionManager::new(config(None));
    manager.connect();
    let report = manager.finish_connect(ConnectOutcome::Established);
    assert!(report.result.is_ok());
    assert!(matches!(report.event, WebSocketEvent::Connected));
    assert!(manager.is_connected());
}

#[test]
fn refused_connection_is_reported() {
    let mut manager = ConnectionManager::new(config(None));
    manager.connect();
    let report = manager.finish_connect(ConnectOutcome::Refused("no route".to_string()));
    let text = "WebSocket 连接失败: no route";
    assert_eq!(manager.get_state(), ConnectionState::Failed(text.to_string()));
    match report.result {
        Err(WebSocketError::ConnectionFailed(reason)) => assert_eq!(reason, text),
        other => panic!("{:?}", other),
    }
    match report.event {
        WebSocketEvent::Error(WebSocketError::ConnectionFailed(reason)) => assert_eq!(reason, text),
        other => panic!("{:?}", other),
    }
}

#[test]
fn late_connection_is_reported() {
    let timeout = Duration::from_millis(1500);
    let mut manager = ConnectionManager::new(config(None).with_connect_timeout(timeout));
    manager.connect();
    let report = manager.finish_connect(ConnectOutcome::TimedOut);
    let text = "连接超时，超时时间: 1.5s".to_string();
    assert_eq!(manager.get_state(), ConnectionState::Failed(text));
    assert!(matches!(report.result, Err(WebSocketError::ConnectionTimeout)));
    assert!(matches!(report.event, WebSocketEvent::Error(WebSocketError::ConnectionTimeout)));
}

#[test]
fn states_are_equal_by_their_reason() {
    let failed = |reason: &str| ConnectionState::Failed(reason.to_string());
    assert_eq!(failed("a"), failed("a"));
    assert_ne!(failed("a"), failed("b"));
    assert_ne!(ConnectionState::Connecting, ConnectionState::Connected);
    assert_eq!(ConnectionState::Reconnecting.clone(), ConnectionState::Reconnecting);
}

#[test]
fn first_success_needs_no_further_event() {
    let mut manager = ConnectionManager::new(config(Some(2)));
    let report = manager.connect_with_retry(0, Ok(()));
    assert!(matches!(report.step, RetryStep::Finish(Ok(()))));
    assert!(report.events.is_empty());
}

#[test]
fn recoverable_failure_is_tried_again() {
    let mut manager = ConnectionManager::new(config(Some(2)));
    let report = manager.connect_with_retry(0, timed_out());
    assert!(matches!(report.step, RetryStep::Retry(1)));
    assert_eq!(shown(&report), vec!["Reconnecting(1)"]);
    assert_eq!(manager.get_state(), ConnectionState::Reconnecting);
}

#[test]
fn success_after_a_failure_is_a_reconnection() {
    let mut manager = ConnectionManager::new(config(Some(2)));
    let report = manager.connect_with_retry(1, Ok(()));
    assert!(matches!(report.step, RetryStep::Finish(Ok(()))));
    assert_eq!(shown(&report), vec!["Reconnected"]);
}

#[test]
fn attempts_are_given_up_at_the_limit() {
    let mut manager = ConnectionManager::new(config(Some(2)));
    let mut retries: u32 = 0;
    let mut attempts: u32 = 0;
    let mut events: Vec<String> = Vec::new();
    let error = loop {
        attempts += 1;
        let report = manager.connect_with_retry(retries, timed_out());
        events.extend(shown(&report));
        match report.step {
            RetryStep::Retry(next) => retries = next,
            RetryStep::Finish(Err(error)) => break error,
            RetryStep::Finish(Ok(())) => panic!("connected"),
        }
    };
    assert_eq!(attempts, 3);
    assert_eq!(error.to_string(), "重连失败: 达到最大重连次数 2, 最后错误: 连接超时");
    assert_eq!(
        events,
        vec![
            "Reconnecting(1)",
            "Reconnecting(2)",
            "ReconnectFailed(\"重连失败: 达到最大重连次数 2, 最后错误: 连接超时\")",
            "Error(ReconnectFailed(\"达到最大重连次数 2, 最后错误: 连接超时\"))",
        ]
    );
}

#[test]
fn unlimited_attempts_go_on() {
    let mut manager = ConnectionManager::new(config(None));
    for retries in [0, 5, 0x8000_0000, u32::MAX - 1] {
        let report = manager.connect_with_retry(retries, timed_out());
        assert!(matches!(report.step, RetryStep::Retry(next) if next == retries + 1));
    }
    let report = manager.connect_with_retry(u32::MAX, timed_out());
    assert!(matches!(report.step, RetryStep::Retry(u32::MAX)));
    assert_eq!(shown(&report), vec!["Reconnecting(4294967295)"]);
    assert_eq!(manager.get_state(), ConnectionState::Reconnecting);
    let report = manager.connect_with_retry(u32::MAX, Ok(()));
    assert!(matches!(report.step, RetryStep::Finish(Ok(()))));
}

#[test]
fn largest_limit_is_a_limit() {
    let mut manager = ConnectionManager::new(config(Some(u32::MAX)));
    let report = manager.connect_with_retry(u32::MAX, timed_out());
    match report.step {
        RetryStep::Finish(Err(WebSocketError::ReconnectFailed(text))) => {
            assert_eq!(text, "达到最大重连次数 4294967295, 最后错误: 连接超时");
        }
        other => panic!("{:?}", other),
    }
}

#[test]
fn limit_of_zero_allows_the_first_attempt_only() {
    let mut manager = ConnectionManager::new(config(Some(0)));
    let report = manager.connect_with_retry(0, timed_out());
    assert!(matches!(
        report.step,
        RetryStep::Finish(Err(WebSocketError::ReconnectFailed(_)))
    ));
}

#[test]
fn incurable_error_is_final() {
    let mut manager = ConnectionManager::new(config(Some(2)));
    let refused = Err(WebSocketError::ConfigError("x".to_string()));
    let report = manager.connect_with_retry(0, refused);
    match &report.step {
        RetryStep::Finish(Err(WebSocketError::ConfigError(text))) => assert_eq!(text, "x"),
        other => panic!("{:?}", other),
    }
    assert_eq!(shown(&report), vec!["Error(ConfigError(\"x\"))"]);
    assert_eq!(manager.get_state(), ConnectionState::Disconnected);
}

#[test]
fn without_reconnection_the_first_attempt_decides() {
    let mut manager = ConnectionManager::new(config(Some(2)).without_reconnect());
    let report = manager.connect_with_retry(0, timed_out());
    assert!(matches!(
        report.step,
        RetryStep::Finish(Err(WebSocketError::ConnectionTimeout))
    ));
    assert!(report.events.is_empty());
    let report = manager.connect_with_retry(0, Ok(()));
    assert!(matches!(report.step, RetryStep::Finish(Ok(()))));
}

#[test]
fn wait_grows_from_these_terms() {
    let reconnect = ReconnectConfig {
        initial_interval: Duration::from_millis(250),
        max_interval: Duration::from_secs(30),
        backoff_multiplier_bits: 1.5f64.to_bits(),
        ..ReconnectConfig::default()
    };
    let manager = ConnectionManager::new(config(None).with_reconnect(reconnect));
    let terms = manager.backoff_terms(3);
    assert_eq!(terms.base_millis, 250);
    assert_eq!(f64::from_bits(terms.multiplier_bits), 1.5);
    assert_eq!(terms.exponent, 2);
    assert_eq!(terms.max_millis, 30_000);
    assert_eq!(manager.backoff_terms(0).exponent, -1);
    assert_eq!(manager.backoff_terms(u32::MAX).exponent, i32::MAX);
    assert_eq!(manager.backoff_terms(0x8000_0001).exponent, i32::MAX);
    assert_eq!(manager.backoff_terms(0x7fff_ffff).exponent, i32::MAX - 1);
    assert_eq!(manager.backoff_terms(0x8000_0000).exponent, i32::MAX);
}

#[test]
fn ended_connection_is_reported() {
    let mut manager = ConnectionManager::new(config(None));
    manager.connect();
    manager.finish_connect(ConnectOutcome::Established);
    let event = manager.disconnect(Some("done".to_string()));
    assert!(matches!(event, WebSocketEvent::Disconnected(Some(reason)) if reason == "done"));
    assert_eq!(manager.get_state(), ConnectionState::Disconnected);
}

#[test]
fn late_success_announces_its_attempts() {
    let mut manager = ConnectionManager::new(config(Some(3)));
    let mut retries: u32 = 0;
    let mut events: Vec<String> = Vec::new();
    for attempt in vec![timed_out(), timed_out(), Ok(())] {
        let report = manager.connect_with_retry(retries, attempt);
        events.extend(shown(&report));
        if let RetryStep::Retry(next) = report.step {
            retries = next;
        }
    }
    assert_eq!(events, vec!["Reconnecting(1)", "Reconnecting(2)", "Reconnected"]);
}
