//! Errors of the client, and what each of them allows.
use vstd::prelude::*;

use crate::text::prefixed;

verus! {

/// What an operation of the client gives back.
pub type WebSocketResult<T> = Result<T, WebSocketError>;

/// An error of the client.
#[derive(Debug)]
pub enum WebSocketError {
    /// The connection could not be made.
    ConnectionFailed(String),
    /// The connection was not made in time.
    ConnectionTimeout,
    /// The connection is closed.
    ConnectionClosed,
    /// A message could not be sent.
    SendFailed(String),
    /// A message could not be encoded or decoded.
    ParseError(String),
    /// The peer did not answer a heartbeat in time.
    HeartbeatTimeout,
    /// Every attempt to connect again failed.
    ReconnectFailed(String),
    /// The configuration is not valid.
    ConfigError(String),
    /// The network failed.
    NetworkError(String),
    /// The client was used in a way that its state does not allow.
    InternalError(String),
}

/// The mathematical model of [`WebSocketError`]: the same variants, over character sequences.
pub enum ErrorModel {
    ConnectionFailed(Seq<char>),
    ConnectionTimeout,
    ConnectionClosed,
    SendFailed(Seq<char>),
    ParseError(Seq<char>),
    HeartbeatTimeout,
    ReconnectFailed(Seq<char>),
    ConfigError(Seq<char>),
    NetworkError(Seq<char>),
    InternalError(Seq<char>),
}

impl View for WebSocketError {
    type V = ErrorModel;

    open spec fn view(&self) -> ErrorModel {
        match self {
            WebSocketError::ConnectionFailed(text) => ErrorModel::ConnectionFailed(text@),
            WebSocketError::ConnectionTimeout => ErrorModel::ConnectionTimeout,
            WebSocketError::ConnectionClosed => ErrorModel::ConnectionClosed,
            WebSocketError::SendFailed(text) => ErrorModel::SendFailed(text@),
            WebSocketError::ParseError(text) => ErrorModel::ParseError(text@),
            WebSocketError::HeartbeatTimeout => ErrorModel::HeartbeatTimeout,
            WebSocketError::ReconnectFailed(text) => ErrorModel::ReconnectFailed(text@),
            WebSocketError::ConfigError(text) => ErrorModel::ConfigError(text@),
            WebSocketError::NetworkError(text) => ErrorModel::NetworkError(text@),
            WebSocketError::InternalError(text) => ErrorModel::InternalError(text@),
        }
    }
}

/// The model of a result: the value itself, or the model of the error.
pub open spec fn result_model<T>(result: WebSocketResult<T>) -> Result<T, ErrorModel> {
    match result {
        Ok(value) => Ok(value),
        Err(error) => Err(error@),
    }
}

/// The text that an error is shown as.
pub open spec fn error_text(error: ErrorModel) -> Seq<char> {
    match error {
        ErrorModel::ConnectionFailed(text) => "连接失败: "@ + text,
        ErrorModel::ConnectionTimeout => "连接超时"@,
        ErrorModel::ConnectionClosed => "连接已关闭"@,
        ErrorModel::SendFailed(text) => "消息发送失败: "@ + text,
        ErrorModel::ParseError(text) => "消息解析失败: "@ + text,
        ErrorModel::HeartbeatTimeout => "心跳超时"@,
        ErrorModel::ReconnectFailed(text) => "重连失败: "@ + text,
        ErrorModel::ConfigError(text) => "配置错误: "@ + text,
        ErrorModel::NetworkError(text) => "网络错误: "@ + text,
        ErrorModel::InternalError(text) => "内部错误: "@ + text,
    }
}

impl Clone for WebSocketError {
    fn clone(&self) -> (copy: Self)
        ensures
            copy == *self,
    {
        match self {
            WebSocketError::ConnectionFailed(text) => WebSocketError::ConnectionFailed(text.clone()),
            WebSocketError::ConnectionTimeout => WebSocketError::ConnectionTimeout,
            WebSocketError::ConnectionClosed => WebSocketError::ConnectionClosed,
            WebSocketError::SendFailed(text) => WebSocketError::SendFailed(text.clone()),
            WebSocketError::ParseError(text) => WebSocketError::ParseError(text.clone()),
            WebSocketError::HeartbeatTimeout => WebSocketError::HeartbeatTimeout,
            WebSocketError::ReconnectFailed(text) => WebSocketError::ReconnectFailed(text.clone()),
            WebSocketError::ConfigError(text) => WebSocketError::ConfigError(text.clone()),
            WebSocketError::NetworkError(text) => WebSocketError::NetworkError(text.clone()),
            WebSocketError::InternalError(text) => WebSocketError::InternalError(text.clone()),
        }
    }
}

impl WebSocketError {
    /// The text that the error is shown as.
    pub fn to_string(&self) -> (text: String)
        ensures
            text@ == error_text(self@),
    {
        match self {
            WebSocketError::ConnectionFailed(text) => prefixed("连接失败: ", text.as_str()),
            WebSocketError::ConnectionTimeout => "连接超时".to_string(),
            WebSocketError::ConnectionClosed => "连接已关闭".to_string(),
            WebSocketError::SendFailed(text) => prefixed("消息发送失败: ", text.as_str()),
            WebSocketError::ParseError(text) => prefixed("消息解析失败: ", text.as_str()),
            WebSocketError::HeartbeatTimeout => "心跳超时".to_string(),
            WebSocketError::ReconnectFailed(text) => prefixed("重连失败: ", text.as_str()),
            WebSocketError::ConfigError(text) => prefixed("配置错误: ", text.as_str()),
            WebSocketError::NetworkError(text) => prefixed("网络错误: ", text.as_str()),
            WebSocketError::InternalError(text) => prefixed("内部错误: ", text.as_str()),
        }
    }
}

/// `tungstenite::Error`, the error of the WebSocket transport.
#[verifier::external_type_specification]
#[verifier::external_body]
pub struct ExTransportError(tokio_tungstenite::tungstenite::Error);

/// `serde_json::Error`, the error of the JSON encoder and decoder.
#[verifier::external_type_specification]
#[verifier::external_body]
pub struct ExJsonError(serde_json::Error);

/// What the client tells apart among the errors of the transport.
#[derive(Debug, Clone, Copy, PartialEq, Eq, Structural)]
pub enum TransportFailure {
    /// The connection was closed in the regular way.
    ConnectionClosed,
    /// The connection was used after it had been closed.
    AlreadyClosed,
    /// Anything else.
    Other,
}

/// Which variant of `tungstenite::Error` an error is, as far as the client tells them apart.
pub uninterp spec fn transport_failure(error: tokio_tungstenite::tungstenite::Error) -> TransportFailure;

/// Tells the variants of `tungstenite::Error` apart.
#[verifier::external_body]
fn failure_of(error: &tokio_tungstenite::tungstenite::Error) -> (failure: TransportFailure)
    ensures
        failure == transport_failure(*error),
{
    match error {
        tokio_tungstenite::tungstenite::Error::ConnectionClosed => TransportFailure::ConnectionClosed,
        tokio_tungstenite::tungstenite::Error::AlreadyClosed => TransportFailure::AlreadyClosed,
        _ => TransportFailure::Other,
    }
}

/// The error of the client for a failure of the transport that is shown as `text`.
pub open spec fn transport_error(failure: TransportFailure, text: Seq<char>) -> ErrorModel {
    match failure {
        TransportFailure::ConnectionClosed => ErrorModel::ConnectionClosed,
        TransportFailure::AlreadyClosed => ErrorModel::ConnectionClosed,
        TransportFailure::Other => ErrorModel::NetworkError(text),
    }
}

impl TransportFailure {
    /// The error of the client for the failure, which is shown as `text`.
    pub fn into_error(self, text: String) -> (error: WebSocketError)
        ensures
            error@ == transport_error(self, text@),
    {
        match self {
            TransportFailure::ConnectionClosed => WebSocketError::ConnectionClosed,
            TransportFailure::AlreadyClosed => WebSocketError::ConnectionClosed,
            TransportFailure::Other => WebSocketError::NetworkError(text),
        }
    }
}

impl From<tokio_tungstenite::tungstenite::Error> for WebSocketError {
    fn from(error: tokio_tungstenite::tungstenite::Error) -> (converted: Self)
        ensures
            exists|text: String| #[trigger]
                vstd::string::to_string_from_display_ensures(&error, text) && converted@
                    == transport_error(transport_failure(error), text@),
    {
        let text = error.to_string();
        assert(vstd::string::to_string_from_display_ensures(&error, text));
        failure_of(&error).into_error(text)
    }
}

impl vstd::std_specs::convert::FromSpecImpl<tokio_tungstenite::tungstenite::Error> for WebSocketError {
    open spec fn obeys_from_spec() -> bool {
        false
    }

    open spec fn from_spec(error: tokio_tungstenite::tungstenite::Error) -> Self {
        arbitrary()
    }
}

impl From<serde_json::Error> for WebSocketError {
    fn from(error: serde_json::Error) -> (converted: Self)
        ensures
            converted matches WebSocketError::ParseError(text)
                && vstd::string::to_string_from_display_ensures(&error, text),
    {
        WebSocketError::ParseError(error.to_string())
    }
}

impl vstd::std_specs::convert::FromSpecImpl<serde_json::Error> for WebSocketError {
    open spec fn obeys_from_spec() -> bool {
        false
    }

    open spec fn from_spec(error: serde_json::Error) -> Self {
        arbitrary()
    }
}

/// Tells what can be done about an error.
pub struct ErrorClassifier;

/// The errors that a new connection can cure.
pub open spec fn recoverable(error: ErrorModel) -> bool {
    error is ConnectionFailed || error is ConnectionTimeout || error is ConnectionClosed
        || error is NetworkError || error is HeartbeatTimeout
}

/// The errors after which to connect again at once.
pub open spec fn immediate_reconnect(error: ErrorModel) -> bool {
    error is ConnectionClosed || error is HeartbeatTimeout
}

impl ErrorClassifier {
    /// Tells whether a new connection can cure the error.
    pub fn is_recoverable(error: &WebSocketError) -> (answer: bool)
        ensures
            answer == recoverable(error@),
    {
        matches!(
            error,
            WebSocketError::ConnectionFailed(_)
                | WebSocketError::ConnectionTimeout
                | WebSocketError::ConnectionClosed
                | WebSocketError::NetworkError(_)
                | WebSocketError::HeartbeatTimeout
        )
    }

    /// Tells whether to connect again at once.
    pub fn requires_immediate_reconnect(error: &WebSocketError) -> (answer: bool)
        ensures
            answer == immediate_reconnect(error@),
    {
        matches!(error, WebSocketError::ConnectionClosed | WebSocketError::HeartbeatTimeout)
    }
}

/// An error after which to connect again at once is one that a new connection can cure.
pub proof fn immediate_reconnect_is_recoverable(error: ErrorModel)
    requires
        immediate_reconnect(error),
    ensures
        recoverable(error),
{
}

} // verus!
