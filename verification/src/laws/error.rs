//! Laws of the errors and of the text that the library composes.
use vstd::prelude::*;

use crate::error::{transport_failure, ErrorClassifier, TransportFailure, WebSocketError};
use crate::text::{decimal, decimal_text, digit_text, prefixed, starts_with};

verus! {

/// Exactly the errors of the connection and of the heartbeat are recoverable, whatever they say.
pub proof fn recoverable_errors_are_those_of_the_connection(error: &WebSocketError, answer: bool)
    requires
        call_ensures(ErrorClassifier::is_recoverable, (error,), answer),
    ensures
        answer == match *error {
            WebSocketError::ConnectionFailed(_) => true,
            WebSocketError::ConnectionTimeout => true,
            WebSocketError::ConnectionClosed => true,
            WebSocketError::NetworkError(_) => true,
            WebSocketError::HeartbeatTimeout => true,
            WebSocketError::SendFailed(_) => false,
            WebSocketError::ParseError(_) => false,
            WebSocketError::ReconnectFailed(_) => false,
            WebSocketError::ConfigError(_) => false,
            WebSocketError::InternalError(_) => false,
        },
{
}

/// Exactly a closed connection and a heartbeat without an answer ask for a new connection at once.
pub proof fn lost_peers_are_reconnected_at_once(error: &WebSocketError, answer: bool)
    requires
        call_ensures(ErrorClassifier::requires_immediate_reconnect, (error,), answer),
    ensures
        answer <==> *error is ConnectionClosed || *error is HeartbeatTimeout,
{
}

/// An error is shown by its kind and, behind that, by all that it says.
pub proof fn errors_show_what_they_say(error: &WebSocketError, text: String)
    requires
        call_ensures(WebSocketError::to_string, (error,), text),
    ensures
        match *error {
            WebSocketError::ConnectionFailed(said) => text@ == "连接失败: "@ + said@,
            WebSocketError::ConnectionTimeout => text@ == "连接超时"@,
            WebSocketError::ConnectionClosed => text@ == "连接已关闭"@,
            WebSocketError::SendFailed(said) => text@ == "消息发送失败: "@ + said@,
            WebSocketError::ParseError(said) => text@ == "消息解析失败: "@ + said@,
            WebSocketError::HeartbeatTimeout => text@ == "心跳超时"@,
            WebSocketError::ReconnectFailed(said) => text@ == "重连失败: "@ + said@,
            WebSocketError::ConfigError(said) => text@ == "配置错误: "@ + said@,
            WebSocketError::NetworkError(said) => text@ == "网络错误: "@ + said@,
            WebSocketError::InternalError(said) => text@ == "内部错误: "@ + said@,
        },
{
}

/// Two errors have one model only if they are of one kind and say the same.
pub proof fn models_tell_errors_apart(one: WebSocketError, other: WebSocketError)
    requires
        one@ == other@,
    ensures
        match (one, other) {
            (WebSocketError::ConnectionFailed(a), WebSocketError::ConnectionFailed(b)) => a@ == b@,
            (WebSocketError::ConnectionTimeout, WebSocketError::ConnectionTimeout) => true,
            (WebSocketError::ConnectionClosed, WebSocketError::ConnectionClosed) => true,
            (WebSocketError::SendFailed(a), WebSocketError::SendFailed(b)) => a@ == b@,
            (WebSocketError::ParseError(a), WebSocketError::ParseError(b)) => a@ == b@,
            (WebSocketError::HeartbeatTimeout, WebSocketError::HeartbeatTimeout) => true,
            (WebSocketError::ReconnectFailed(a), WebSocketError::ReconnectFailed(b)) => a@ == b@,
            (WebSocketError::ConfigError(a), WebSocketError::ConfigError(b)) => a@ == b@,
            (WebSocketError::NetworkError(a), WebSocketError::NetworkError(b)) => a@ == b@,
            (WebSocketError::InternalError(a), WebSocketError::InternalError(b)) => a@ == b@,
            _ => false,
        },
{
}

/// A transport that is closed, in either way, is a closed connection; any other failure is one of the
/// network and says what the transport said.
pub proof fn transport_failures_are_told_apart(
    failure: TransportFailure,
    text: String,
    error: WebSocketError,
)
    requires
        call_ensures(TransportFailure::into_error, (failure, text), error),
    ensures
        failure != TransportFailure::Other ==> error is ConnectionClosed,
        failure == TransportFailure::Other ==> (error matches WebSocketError::NetworkError(said)
            && said@ == text@),
{
}

/// The value of a text of decimal digits.
pub open spec fn digits_value(text: Seq<char>) -> nat
    decreases text.len(),
{
    if text.len() == 0 {
        0
    } else {
        digits_value(text.drop_last()) * 10 + (text.last() as nat - '0' as nat) as nat
    }
}

/// Every character is a decimal digit.
pub open spec fn all_digits(text: Seq<char>) -> bool {
    forall|i: int| 0 <= i < text.len() ==> '0' <= #[trigger] text[i] && text[i] <= '9'
}

/// A number below ten is written by the one digit of that value.
proof fn digits_have_their_value(digit: nat)
    requires
        digit < 10,
    ensures
        digit_text(digit).len() == 1,
        '0' <= digit_text(digit)[0] && digit_text(digit)[0] <= '9',
        digit_text(digit)[0] as nat == '0' as nat + digit,
{
    reveal_strlit("0");
    reveal_strlit("1");
    reveal_strlit("2");
    reveal_strlit("3");
    reveal_strlit("4");
    reveal_strlit("5");
    reveal_strlit("6");
    reveal_strlit("7");
    reveal_strlit("8");
    reveal_strlit("9");
}

/// A number in decimal consists of digits, has the value of the number, and begins with a zero only
/// if it is the zero itself.
proof fn decimal_has_its_value(number: nat)
    ensures
        all_digits(decimal(number)),
        decimal(number).len() > 0,
        digits_value(decimal(number)) == number,
        decimal(number)[0] == '0' ==> decimal(number).len() == 1,
        number > 0 ==> decimal(number)[0] != '0',
    decreases number,
{
    let text = decimal(number);
    if number < 10 {
        digits_have_their_value(number);
        assert(text.drop_last() =~= Seq::<char>::empty());
        assert(digits_value(text.drop_last()) == 0);
    } else {
        decimal_has_its_value(number / 10);
        digits_have_their_value(number % 10);
        assert(text.drop_last() =~= decimal(number / 10));
        assert(text.last() == digit_text(number % 10)[0]);
    }
}

/// A number in decimal has its value.
pub proof fn decimals_have_their_value(number: u32)
    ensures
        all_digits(decimal(number as nat)),
        digits_value(decimal(number as nat)) == number,
{
    decimal_has_its_value(number as nat);
}

/// A number is written by digits that have its value, without leading zeros.
pub proof fn numbers_are_written_by_their_value(number: u32, text: String)
    requires
        call_ensures(decimal_text, (number,), text),
    ensures
        text@.len() > 0,
        all_digits(text@),
        digits_value(text@) == number,
        text@.len() > 1 ==> text@[0] != '0',
{
    decimal_has_its_value(number as nat);
}

/// A prefix that was put in front of a text is found there, and only what a text begins with is.
pub proof fn prefixes_are_found(prefix: &str, rest: &str, text: String)
    requires
        call_ensures(prefixed, (prefix, rest), text),
    ensures
        text@.len() == prefix@.len() + rest@.len(),
        text@.take(prefix@.len() as int) == prefix@,
        text@.skip(prefix@.len() as int) == rest@,
{
    assert(text@.take(prefix@.len() as int) =~= prefix@);
    assert(text@.skip(prefix@.len() as int) =~= rest@);
}

/// A text begins with a prefix exactly if it has, at each place of the prefix, its character.
pub proof fn beginnings_are_recognised(text: &str, prefix: &str, found: bool)
    requires
        call_ensures(starts_with, (text, prefix), found),
    ensures
        found <==> text@.len() >= prefix@.len() && forall|i: int|
            0 <= i < prefix@.len() ==> text@[i] == #[trigger] prefix@[i],
{
    if text@.len() >= prefix@.len() && forall|i: int|
        0 <= i < prefix@.len() ==> text@[i] == #[trigger] prefix@[i] {
        assert(prefix@ =~= text@.subrange(0, prefix@.len() as int));
    }
}

/// A closed transport is a closed connection, and any other error of the transport one of the network
/// that says what the error is shown as.
pub proof fn transport_errors_are_converted(
    error: tokio_tungstenite::tungstenite::Error,
    converted: WebSocketError,
)
    requires
        call_ensures(
            <WebSocketError as From<tokio_tungstenite::tungstenite::Error>>::from,
            (error,),
            converted,
        ),
    ensures
        transport_failure(error) != TransportFailure::Other ==> converted is ConnectionClosed,
        transport_failure(error) == TransportFailure::Other ==> exists|text: String| #[trigger]
            vstd::string::to_string_from_display_ensures(&error, text) && (
            converted matches WebSocketError::NetworkError(said) && said@ == text@),
{
}

/// An error of the JSON codec is one of reading, and says what the error is shown as.
pub proof fn json_errors_are_converted(error: serde_json::Error, converted: WebSocketError)
    requires
        call_ensures(<WebSocketError as From<serde_json::Error>>::from, (error,), converted),
    ensures
        exists|text: String| #[trigger]
            vstd::string::to_string_from_display_ensures(&error, text) && (
            converted matches WebSocketError::ParseError(said) && said@ == text@),
{
}

} // verus!
