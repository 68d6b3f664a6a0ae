//! Laws of the connection.
use vstd::prelude::*;

use crate::config::ClientConfig;
use crate::connection::{
    attempts_made, final_result, BackoffTerms, ConnectOutcome, ConnectReport, ConnectionManager,
    ConnectionState, Dial, RetryReport, RetryStep, StateModel,
};
use crate::error::{ErrorModel, WebSocketError};
use crate::event::WebSocketEvent;
use crate::laws::error::{all_digits, decimals_have_their_value, digits_value};
use crate::laws::event::events_have_their_models;
use crate::text::decimal;
use crate::time::duration_text;

verus! {

/// The errors after which a new connection may work: those of the connection and of the heartbeat.
pub open spec fn may_be_cured(error: WebSocketError) -> bool {
    match error {
        WebSocketError::ConnectionFailed(_) => true,
        WebSocketError::ConnectionTimeout => true,
        WebSocketError::ConnectionClosed => true,
        WebSocketError::NetworkError(_) => true,
        WebSocketError::HeartbeatTimeout => true,
        _ => false,
    }
}

/// There are attempts left of those that the configuration allows.
pub open spec fn attempts_are_left(config: ClientConfig, retries: u32) -> bool {
    config.reconnect.max_retries matches Some(limit) ==> retries < limit
}

/// After an error that a new connection may cure, and while the configuration leaves attempts, the
/// next attempt follows: it has the next number, is announced by it, and is noted.
pub proof fn failures_are_tried_again(retries: u32, error: WebSocketError)
    requires
        may_be_cured(error),
    ensures
        forall|manager: &mut ConnectionManager, report: RetryReport| #[trigger]
            call_ensures(
                ConnectionManager::connect_with_retry,
                (manager, retries, Err::<(), WebSocketError>(error)),
                report,
            ) && manager@.config.reconnect.enabled && attempts_are_left(manager@.config, retries)
                ==> {
                &&& report.step matches RetryStep::Retry(next)
                &&& next == if retries < u32::MAX {
                    retries + 1
                } else {
                    u32::MAX as int
                }
                &&& report.events@.len() == 1
                &&& report.events@[0] matches WebSocketEvent::Reconnecting(announced)
                &&& announced == next
                &&& final(manager)@.state is Reconnecting
                &&& final(manager)@.retry_count == next
                &&& final(manager)@.config == manager@.config
            },
{
    assert forall|manager: &mut ConnectionManager, report: RetryReport| #[trigger]
        call_ensures(
            ConnectionManager::connect_with_retry,
            (manager, retries, Err::<(), WebSocketError>(error)),
            report,
        ) && manager@.config.reconnect.enabled && attempts_are_left(
            manager@.config,
            retries,
        ) implies {
        &&& report.step matches RetryStep::Retry(next)
        &&& next == if retries < u32::MAX {
            retries + 1
        } else {
            u32::MAX as int
        }
        &&& report.events@.len() == 1
        &&& report.events@[0] matches WebSocketEvent::Reconnecting(announced)
        &&& announced == next
        &&& final(manager)@.state is Reconnecting
        &&& final(manager)@.retry_count == next
        &&& final(manager)@.config == manager@.config
    } by {
        events_have_their_models(report.events@);
    }
}

/// Where the configuration sets a limit and that many attempts to connect again have been made, the
/// attempts are given up, whatever the error: the outcome names the limit that was configured and the
/// last error, it is published as both, and the connection stays as it is.
pub proof fn attempts_are_given_up_at_the_configured_limit(
    retries: u32,
    limit: u32,
    error: WebSocketError,
    shown: String,
)
    requires
        retries >= limit,
        call_ensures(WebSocketError::to_string, (&error,), shown),
    ensures
        forall|manager: &mut ConnectionManager, report: RetryReport| #[trigger]
            call_ensures(
                ConnectionManager::connect_with_retry,
                (manager, retries, Err::<(), WebSocketError>(error)),
                report,
            ) && manager@.config.reconnect.enabled && manager@.config.reconnect.max_retries == Some(
                limit,
            ) ==> {
                &&& report.step matches RetryStep::Finish(
                    Err(WebSocketError::ReconnectFailed(text)),
                )
                &&& exists|digits: Seq<char>|
                    all_digits(digits) && #[trigger] digits_value(digits) == limit && text@
                        == "达到最大重连次数 "@ + digits + ", 最后错误: "@ + shown@
                &&& report.events@.len() == 2
                &&& report.events@[0] matches WebSocketEvent::ReconnectFailed(reason)
                &&& reason@ == "重连失败: "@ + text@
                &&& report.events@[1] matches WebSocketEvent::Error(
                    WebSocketError::ReconnectFailed(published),
                )
                &&& published@ == text@
                &&& final(manager)@ == manager@
            },
{
    decimals_have_their_value(limit);
    assert forall|manager: &mut ConnectionManager, report: RetryReport| #[trigger]
        call_ensures(
            ConnectionManager::connect_with_retry,
            (manager, retries, Err::<(), WebSocketError>(error)),
            report,
        ) && manager@.config.reconnect.enabled && manager@.config.reconnect.max_retries == Some(
            limit,
        ) implies {
        &&& report.step matches RetryStep::Finish(Err(WebSocketError::ReconnectFailed(text)))
        &&& exists|digits: Seq<char>|
            all_digits(digits) && #[trigger] digits_value(digits) == limit && text@ == "达到最大重连次数 "@
                + digits + ", 最后错误: "@ + shown@
        &&& report.events@.len() == 2
        &&& report.events@[0] matches WebSocketEvent::ReconnectFailed(reason)
        &&& reason@ == "重连失败: "@ + text@
        &&& report.events@[1] matches WebSocketEvent::Error(
            WebSocketError::ReconnectFailed(published),
        )
        &&& published@ == text@
        &&& final(manager)@ == manager@
    } by {
        events_have_their_models(report.events@);
        assert(digits_value(decimal(limit as nat)) == limit);
    }
}

/// An error that no new connection can cure ends the attempts at once, as it is, while there are
/// attempts left.
pub proof fn incurable_errors_end_the_attempts(retries: u32, error: WebSocketError)
    requires
        !may_be_cured(error),
    ensures
        forall|manager: &mut ConnectionManager, report: RetryReport| #[trigger]
            call_ensures(
                ConnectionManager::connect_with_retry,
                (manager, retries, Err::<(), WebSocketError>(error)),
                report,
            ) && manager@.config.reconnect.enabled && attempts_are_left(manager@.config, retries)
                ==> {
                &&& report.step matches RetryStep::Finish(Err(last))
                &&& last@ == error@
                &&& report.events@.len() == 1
                &&& report.events@[0] matches WebSocketEvent::Error(published)
                &&& published@ == error@
                &&& final(manager)@ == manager@
            },
{
    assert forall|manager: &mut ConnectionManager, report: RetryReport| #[trigger]
        call_ensures(
            ConnectionManager::connect_with_retry,
            (manager, retries, Err::<(), WebSocketError>(error)),
            report,
        ) && manager@.config.reconnect.enabled && attempts_are_left(
            manager@.config,
            retries,
        ) implies {
        &&& report.step matches RetryStep::Finish(Err(last))
        &&& last@ == error@
        &&& report.events@.len() == 1
        &&& report.events@[0] matches WebSocketEvent::Error(published)
        &&& published@ == error@
        &&& final(manager)@ == manager@
    } by {
        events_have_their_models(report.events@);
    }
}

/// A success ends the attempts. It is published as a connection that was made again exactly if there
/// were attempts before and reconnection is switched on.
pub proof fn success_ends_the_attempts(retries: u32)
    ensures
        forall|manager: &mut ConnectionManager, report: RetryReport| #[trigger]
            call_ensures(
                ConnectionManager::connect_with_retry,
                (manager, retries, Ok::<(), WebSocketError>(())),
                report,
            ) ==> {
                &&& report.step matches RetryStep::Finish(Ok(_))
                &&& if manager@.config.reconnect.enabled && retries > 0 {
                    report.events@.len() == 1 && report.events@[0] is Reconnected
                } else {
                    report.events@.len() == 0
                }
                &&& final(manager)@ == manager@
            },
{
    assert forall|manager: &mut ConnectionManager, report: RetryReport| #[trigger]
        call_ensures(
            ConnectionManager::connect_with_retry,
            (manager, retries, Ok::<(), WebSocketError>(())),
            report,
        ) implies {
        &&& report.step matches RetryStep::Finish(Ok(_))
        &&& if manager@.config.reconnect.enabled && retries > 0 {
            report.events@.len() == 1 && report.events@[0] is Reconnected
        } else {
            report.events@.len() == 0
        }
        &&& final(manager)@ == manager@
    } by {
        events_have_their_models(report.events@);
    }
}

/// Where reconnection is switched off, an error is the outcome, as it is, and nothing is published.
pub proof fn without_reconnection_errors_are_final(retries: u32, error: WebSocketError)
    ensures
        forall|manager: &mut ConnectionManager, report: RetryReport| #[trigger]
            call_ensures(
                ConnectionManager::connect_with_retry,
                (manager, retries, Err::<(), WebSocketError>(error)),
                report,
            ) && !manager@.config.reconnect.enabled ==> {
                &&& report.step matches RetryStep::Finish(Err(last))
                &&& last@ == error@
                &&& report.events@.len() == 0
                &&& final(manager)@ == manager@
            },
{
    assert forall|manager: &mut ConnectionManager, report: RetryReport| #[trigger]
        call_ensures(
            ConnectionManager::connect_with_retry,
            (manager, retries, Err::<(), WebSocketError>(error)),
            report,
        ) && !manager@.config.reconnect.enabled implies {
        &&& report.step matches RetryStep::Finish(Err(last))
        &&& last@ == error@
        &&& report.events@.len() == 0
        &&& final(manager)@ == manager@
    } by {
        events_have_their_models(report.events@);
    }
}

/// Every outcome is an error that a new connection may cure.
pub open spec fn all_may_be_cured(outcomes: Seq<Result<(), ErrorModel>>) -> bool {
    forall|i: int|
        0 <= i < outcomes.len() ==> match #[trigger] outcomes[i] {
            Err(ErrorModel::ConnectionFailed(_)) => true,
            Err(ErrorModel::ConnectionTimeout) => true,
            Err(ErrorModel::ConnectionClosed) => true,
            Err(ErrorModel::NetworkError(_)) => true,
            Err(ErrorModel::HeartbeatTimeout) => true,
            _ => false,
        }
}

/// How the attempts go on after `retries` of them.
proof fn failures_use_up_the_limit(
    config: ClientConfig,
    limit: u32,
    retries: u32,
    outcomes: Seq<Result<(), ErrorModel>>,
)
    requires
        config.reconnect.enabled,
        config.reconnect.max_retries == Some(limit),
        retries <= limit,
        outcomes.len() > limit - retries,
        all_may_be_cured(outcomes),
    ensures
        attempts_made(config, retries, outcomes) == limit - retries + 1,
        final_result(config, retries, outcomes) matches Some(Err(ErrorModel::ReconnectFailed(_))),
    decreases outcomes.len(),
{
    assert(outcomes.first() == outcomes[0]);
    if retries < limit {
        let rest = outcomes.drop_first();
        assert(forall|i: int| 0 <= i < rest.len() ==> (#[trigger] rest[i]) == outcomes[i + 1]);
        failures_use_up_the_limit(config, limit, (retries + 1) as u32, rest);
    }
}

/// With a limit of `limit` in the configuration, and attempts that all fail with errors that a new
/// connection may cure, exactly one attempt more than the limit is made, and then they are given up.
pub proof fn as_many_attempts_as_configured(
    config: ClientConfig,
    limit: u32,
    outcomes: Seq<Result<(), ErrorModel>>,
)
    requires
        config.reconnect.enabled,
        config.reconnect.max_retries == Some(limit),
        outcomes.len() > limit,
        all_may_be_cured(outcomes),
    ensures
        attempts_made(config, 0, outcomes) == limit + 1,
        final_result(config, 0, outcomes) matches Some(Err(ErrorModel::ReconnectFailed(_))),
{
    failures_use_up_the_limit(config, limit, 0, outcomes);
}

/// An attempt that succeeds after no more failures than the configuration allows is the last one,
/// and the outcome is success; without a limit, however many failures there were.
pub proof fn a_server_that_comes_back_is_reached(
    config: ClientConfig,
    retries: u32,
    failures: Seq<Result<(), ErrorModel>>,
)
    requires
        config.reconnect.enabled,
        config.reconnect.max_retries matches Some(limit) ==> retries + failures.len() <= limit,
        all_may_be_cured(failures),
    ensures
        attempts_made(config, retries, failures.push(Ok(()))) == failures.len() + 1,
        final_result(config, retries, failures.push(Ok(()))) == Some(Ok::<(), ErrorModel>(())),
    decreases failures.len(),
{
    let outcomes = failures.push(Ok(()));
    assert(outcomes.first() == outcomes[0]);
    if failures.len() > 0 {
        assert(outcomes[0] == failures[0]);
        let rest = failures.drop_first();
        assert(forall|i: int| 0 <= i < rest.len() ==> (#[trigger] rest[i]) == failures[i + 1]);
        assert(outcomes.drop_first() =~= rest.push(Ok(())));
        let next = if retries < u32::MAX {
            (retries + 1) as u32
        } else {
            u32::MAX
        };
        a_server_that_comes_back_is_reached(config, next, rest);
    }
}

/// A new connection is not there yet, and keeps its configuration.
pub proof fn new_connections_are_not_there(config: ClientConfig, manager: ConnectionManager)
    requires
        call_ensures(ConnectionManager::new, (config,), manager),
    ensures
        manager@.config == config,
        manager@.state is Disconnected,
        manager@.retry_count == 0,
{
}

/// An attempt goes to the configured server, for as long as configured, and shows in the state.
pub proof fn attempts_go_to_the_configured_server(dial: Dial)
    ensures
        forall|manager: &mut ConnectionManager| #[trigger]
            call_ensures(ConnectionManager::connect, (manager,), dial) ==> {
                &&& dial.url@ == manager@.config.url@
                &&& dial.timeout@ == manager@.config.connect_timeout@
                &&& final(manager)@.state is Connecting
                &&& final(manager)@.retry_count == manager@.retry_count
                &&& final(manager)@.config == manager@.config
            },
{
}

/// A connection that was made is there, counts no attempts to connect again, and is published.
pub proof fn made_connections_are_there(report: ConnectReport)
    ensures
        forall|manager: &mut ConnectionManager| #[trigger]
            call_ensures(
                ConnectionManager::finish_connect,
                (manager, ConnectOutcome::Established),
                report,
            ) ==> {
                &&& report.result is Ok
                &&& report.event is Connected
                &&& final(manager)@.state is Connected
                &&& final(manager)@.retry_count == 0
                &&& final(manager)@.config == manager@.config
            },
{
}

/// A refused connection is one that failed for the given reason: in the result, in the event and in
/// the state.
pub proof fn refused_connections_say_why(reason: String, report: ConnectReport)
    ensures
        forall|manager: &mut ConnectionManager| #[trigger]
            call_ensures(
                ConnectionManager::finish_connect,
                (manager, ConnectOutcome::Refused(reason)),
                report,
            ) ==> {
                &&& report.result matches Err(WebSocketError::ConnectionFailed(text))
                &&& text@ == "WebSocket 连接失败: "@ + reason@
                &&& report.event matches WebSocketEvent::Error(
                    WebSocketError::ConnectionFailed(published),
                )
                &&& published@ == text@
                &&& final(manager)@.state matches StateModel::Failed(kept)
                &&& kept == text@
                &&& final(manager)@.retry_count == manager@.retry_count
                &&& final(manager)@.config == manager@.config
            },
{
}

/// A connection that took too long is one that timed out: in the result and in the event. The state
/// keeps how long it may have taken.
pub proof fn late_connections_time_out(report: ConnectReport, allowed: String)
    ensures
        forall|manager: &mut ConnectionManager| #[trigger]
            call_ensures(
                ConnectionManager::finish_connect,
                (manager, ConnectOutcome::TimedOut),
                report,
            ) ==> {
                &&& report.result matches Err(WebSocketError::ConnectionTimeout)
                &&& report.event matches WebSocketEvent::Error(WebSocketError::ConnectionTimeout)
                &&& final(manager)@.state matches StateModel::Failed(kept)
                &&& call_ensures(duration_text, (manager@.config.connect_timeout,), allowed)
                    ==> kept == "连接超时，超时时间: "@ + allowed@
                &&& final(manager)@.retry_count == manager@.retry_count
                &&& final(manager)@.config == manager@.config
            },
{
}

/// A connection that was ended is not there any more, and its end is published with the reason.
pub proof fn ended_connections_are_not_there(reason: Option<String>, event: WebSocketEvent)
    ensures
        forall|manager: &mut ConnectionManager| #[trigger]
            call_ensures(ConnectionManager::disconnect, (manager, reason), event) ==> {
                &&& event matches WebSocketEvent::Disconnected(published)
                &&& match (reason, published) {
                    (Some(given), Some(told)) => given@ == told@,
                    (None, None) => true,
                    _ => false,
                }
                &&& final(manager)@.state is Disconnected
                &&& final(manager)@.retry_count == manager@.retry_count
                &&& final(manager)@.config == manager@.config
            },
{
}

/// The state that is told is the one that the connection is in, and the connection is there exactly
/// in the state of that name.
pub proof fn states_are_told(manager: &ConnectionManager, state: ConnectionState, answer: bool)
    requires
        call_ensures(ConnectionManager::get_state, (manager,), state),
        call_ensures(ConnectionManager::is_connected, (manager,), answer),
    ensures
        answer <==> state is Connected,
        match state {
            ConnectionState::Disconnected => manager@.state is Disconnected,
            ConnectionState::Connecting => manager@.state is Connecting,
            ConnectionState::Connected => manager@.state is Connected,
            ConnectionState::Reconnecting => manager@.state is Reconnecting,
            ConnectionState::Failed(reason) => manager@.state
                == StateModel::Failed(reason@),
        },
{
}

/// The wait before an attempt grows with its number: the exponent is one less, and stops at the
/// largest one. The rest is as configured, in whole milliseconds.
pub proof fn waits_grow_with_the_attempts(
    manager: &ConnectionManager,
    count: u32,
    terms: BackoffTerms,
)
    requires
        call_ensures(ConnectionManager::backoff_terms, (manager, count), terms),
    ensures
        terms.exponent == if count <= 0x8000_0000 {
            count - 1
        } else {
            0x7fff_ffff
        },
        terms.base_millis == manager@.config.reconnect.initial_interval@ / 1_000_000,
        terms.max_millis == manager@.config.reconnect.max_interval@ / 1_000_000,
        terms.multiplier_bits == manager@.config.reconnect.backoff_multiplier_bits,
{
}

} // verus!
