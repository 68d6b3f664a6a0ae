use websocket::config::{ClientConfig, HeartbeatConfig, MessageConfig, ReconnectConfig};
use websocket::error::WebSocketError;
use websocket::time::Duration;

fn valid() -> ClientConfig {
    ClientConfig::new("ws://localhost".to_string())
}

fn fault_of(config: &ClientConfig) -> String {
    match config.validate() {
        Ok(()) => panic!("no fault"),
        Err(WebSocketError::ConfigError(fault)) => fault,
        Err(error) => panic!("{:?}", error),
    }
}

#[test]
fn defaults_are_as_documented() {
    let config = ClientConfig::default();
    assert_eq!(config.url, "");
    assert_eq!(config.connect_timeout, Duration::from_secs(10));
    assert!(config.reconnect.enabled);
    assert_eq!(config.reconnect.max_retries, Some(5));
    assert_eq!(config.reconnect.initial_interval, Duration::from_secs(1));
    assert_eq!(config.reconnect.max_interval, Duration::from_secs(60));
    assert_eq!(f64::from_bits(config.reconnect.backoff_multiplier_bits), 2.0);
    assert!(config.heartbeat.enabled);
    assert_eq!(config.heartbeat.interval, Duration::from_secs(30));
    assert_eq!(config.heartbeat.timeout, Duration::from_secs(10));
    assert_eq!(config.message.max_size, 64 * 1024 * 1024);
    assert_eq!(config.message.queue_size, 1000);
}

#[test]
fn new_configuration_keeps_the_url() {
    let config = ClientConfig::new("wss://echo.websocket.org".to_string());
    assert_eq!(config.url, "wss://echo.websocket.org");
    assert_eq!(config.connect_timeout, Duration::from_secs(10));
    assert!(config.validate().is_ok());
}

#[test]
fn builders_replace_one_part_each() {
    let reconnect = ReconnectConfig {
        enabled: true,
        max_retries: Some(3),
        initial_interval: Duration::from_secs(1),
        max_interval: Duration::from_secs(30),
        backoff_multiplier_bits: 1.5f64.to_bits(),
    };
    let heartbeat = HeartbeatConfig {
        enabled: true,
        interval: Duration::from_secs(5),
        timeout: Duration::from_millis(250),
    };
    let message = MessageConfig { max_size: 1024 * 1024, queue_size: 16 };
    let config = valid()
        .with_connect_timeout(Duration::from_millis(1500))
        .with_reconnect(reconnect)
        .with_heartbeat(heartbeat)
        .with_message_config(message);
    assert_eq!(config.url, "ws://localhost");
    assert_eq!(config.connect_timeout, Duration::from_millis(1500));
    assert_eq!(config.reconnect, reconnect);
    assert_eq!(config.heartbeat, heartbeat);
    assert_eq!(config.message, message);
}

#[test]
fn switching_off_keeps_the_rest() {
    let config = valid().without_reconnect().without_heartbeat();
    assert!(!config.reconnect.enabled);
    assert_eq!(config.reconnect.max_retries, Some(5));
    assert!(!config.heartbeat.enabled);
    assert_eq!(config.heartbeat.interval, Duration::from_secs(30));
    assert!(config.validate().is_ok());
}

#[test]
fn empty_url_is_a_fault() {
    assert_eq!(fault_of(&ClientConfig::default()), "URL 不能为空");
}

#[test]
fn url_needs_a_websocket_scheme() {
    for url in ["http://localhost", "ws:/localhost", "w", "WS://localhost", " ws://localhost"] {
        let config = ClientConfig::new(url.to_string());
        assert_eq!(fault_of(&config), "URL 必须以 ws:// 或 wss:// 开头");
    }
    for url in ["ws://", "wss://", "ws://例子"] {
        assert!(ClientConfig::new(url.to_string()).validate().is_ok());
    }
}

#[test]
fn connect_timeout_must_not_be_zero() {
    let config = valid().with_connect_timeout(Duration::from_secs(0));
    assert_eq!(fault_of(&config), "连接超时时间必须大于0");
}

#[test]
fn heartbeat_interval_must_not_be_zero_while_enabled() {
    let heartbeat = HeartbeatConfig {
        enabled: true,
        interval: Duration::from_millis(0),
        timeout: Duration::from_secs(1),
    };
    let config = valid().with_heartbeat(heartbeat);
    assert_eq!(fault_of(&config), "心跳间隔必须大于0");
    assert!(config.without_heartbeat().validate().is_ok());
}

#[test]
fn reconnect_interval_must_not_be_zero_while_enabled() {
    let reconnect = ReconnectConfig {
        initial_interval: Duration::from_secs(0),
        ..ReconnectConfig::default()
    };
    let config = valid().with_reconnect(reconnect);
    assert_eq!(fault_of(&config), "重连间隔必须大于0");
    assert!(config.without_reconnect().validate().is_ok());
}

#[test]
fn first_fault_is_the_one_reported() {
    let config = ClientConfig::default().with_connect_timeout(Duration::from_secs(0));
    assert_eq!(fault_of(&config), "URL 不能为空");
}
