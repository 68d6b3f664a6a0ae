use websocket::error::{ErrorClassifier, TransportFailure, WebSocketError};

fn every_error() -> Vec<WebSocketError> {
    vec![
        WebSocketError::ConnectionFailed("a".to_string()),
        WebSocketError::ConnectionTimeout,
        WebSocketError::ConnectionClosed,
        WebSocketError::SendFailed("b".to_string()),
        WebSocketError::ParseError("c".to_string()),
        WebSocketError::HeartbeatTimeout,
        WebSocketError::ReconnectFailed("d".to_string()),
        WebSocketError::ConfigError("e".to_string()),
        WebSocketError::NetworkError("f".to_string()),
        WebSocketError::InternalError("g".to_string()),
    ]
}

#[test]
fn errors_are_shown_by_their_text() {
    let texts: Vec<String> = every_error().iter().map(|error| error.to_string()).collect();
    assert_eq!(
        texts,
        vec![
            "连接失败: a",
            "连接超时",
            "连接已关闭",
            "消息发送失败: b",
            "消息解析失败: c",
            "心跳超时",
            "重连失败: d",
            "配置错误: e",
            "网络错误: f",
            "内部错误: g",
        ]
    );
}

#[test]
fn recoverable_errors_are_those_of_the_connection() {
    let answers: Vec<bool> = every_error().iter().map(ErrorClassifier::is_recoverable).collect();
    assert_eq!(
        answers,
        vec![true, true, true, false, false, true, false, false, true, false]
    );
}

#[test]
fn immediate_reconnect_follows_a_lost_peer() {
    for error in every_error() {
        let at_once = ErrorClassifier::requires_immediate_reconnect(&error);
        let expected = matches!(
            error,
            WebSocketError::ConnectionClosed | WebSocketError::HeartbeatTimeout
        );
        assert_eq!(at_once, expected);
        if at_once {
            assert!(ErrorClassifier::is_recoverable(&error));
        }
    }
}

#[test]
fn clones_of_errors_read_the_same() {
    for error in every_error() {
        assert_eq!(format!("{:?}", error.clone()), format!("{:?}", error));
    }
}

#[test]
fn closed_transport_is_a_closed_connection() {
    let closed = tokio_tungstenite::tungstenite::Error::ConnectionClosed;
    assert!(matches!(WebSocketError::from(closed), WebSocketError::ConnectionClosed));
    let already = tokio_tungstenite::tungstenite::Error::AlreadyClosed;
    assert!(matches!(WebSocketError::from(already), WebSocketError::ConnectionClosed));
}

#[test]
fn other_transport_errors_are_network_errors() {
    let other = tokio_tungstenite::tungstenite::Error::AttackAttempt;
    let text = other.to_string();
    match WebSocketError::from(other) {
        WebSocketError::NetworkError(shown) => assert_eq!(shown, text),
        error => panic!("{:?}", error),
    }
}

#[test]
fn transport_failures_become_errors() {
    let text = || "why".to_string();
    let closed = TransportFailure::ConnectionClosed.into_error(text());
    assert!(matches!(closed, WebSocketError::ConnectionClosed));
    let already = TransportFailure::AlreadyClosed.into_error(text());
    assert!(matches!(already, WebSocketError::ConnectionClosed));
    assert_eq!(TransportFailure::Other.into_error(text()).to_string(), "网络错误: why");
}

#[test]
fn json_errors_are_parse_errors() {
    let error = match serde_json::from_str::<serde_json::Value>("{") {
        Ok(value) => panic!("{:?}", value),
        Err(error) => error,
    };
    let text = error.to_string();
    match WebSocketError::from(error) {
        WebSocketError::ParseError(shown) => assert_eq!(shown, text),
        error => panic!("{:?}", error),
    }
}
