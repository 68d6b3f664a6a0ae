//! Laws of the heartbeat.
use vstd::prelude::*;

use crate::config::HeartbeatConfig;
use crate::error::{WebSocketError, WebSocketResult};
use crate::event::WebSocketEvent;
use crate::heartbeat::{
    HealthChecker, HeartbeatManager, HeartbeatModel, HeartbeatStart, HeartbeatStats, HeartbeatTick,
};
use crate::laws::event::events_have_their_models;
use crate::message::{json_text, Message, WsMessage};
use crate::time::{shown_by_clock, shown_by_utc_clock, whole_millis, Duration};

verus! {

/// A heartbeat is without an answer, and the last answer is longer ago than the configured timeout,
/// in whole milliseconds and sixty-four bits.
pub open spec fn is_late(heartbeat: HeartbeatModel, now: u64) -> bool {
    heartbeat.pending_ping && now - heartbeat.last_pong > (heartbeat.config.timeout@
        / 1_000_000) as u64
}

/// Nothing of a heartbeat is changed but whether it runs.
pub open spec fn only_running_differs(before: HeartbeatModel, after: HeartbeatModel) -> bool {
    &&& after.config == before.config
    &&& after.last_pong == before.last_pong
    &&& after.pending_ping == before.pending_ping
}

/// The peer is given up exactly if a heartbeat is without an answer and the last answer is longer ago
/// than the configured timeout; the interval plays no part. Then the heartbeat ends, and that is
/// published; otherwise an empty ping is due, and the heartbeat is as it was.
pub proof fn peers_are_given_up_after_the_timeout(now: u64, due: HeartbeatTick)
    ensures
        forall|heartbeat: &mut HeartbeatManager| #[trigger]
            call_ensures(HeartbeatManager::tick_at, (heartbeat, now), due) ==> {
                &&& due is TimedOut <==> is_late(heartbeat@, now)
                &&& heartbeat@.config.timeout@ / 1_000_000 <= u64::MAX ==> (due is TimedOut <==> (
                heartbeat@.pending_ping && now - heartbeat@.last_pong
                    > heartbeat@.config.timeout@ / 1_000_000))
                &&& match due {
                    HeartbeatTick::TimedOut(events) => {
                        &&& events@.len() == 2
                        &&& events@[0] is HeartbeatTimeout
                        &&& events@[1] matches WebSocketEvent::Error(
                            WebSocketError::HeartbeatTimeout,
                        )
                        &&& !final(heartbeat)@.is_running
                        &&& only_running_differs(heartbeat@, final(heartbeat)@)
                    },
                    HeartbeatTick::Ping(frame) => {
                        &&& frame matches WsMessage::Ping(data)
                        &&& data@.len() == 0
                        &&& final(heartbeat)@ == heartbeat@
                    },
                }
            },
{
    if let HeartbeatTick::TimedOut(events) = due {
        events_have_their_models(events@);
    }
}

/// A heartbeat that is switched on is healthy exactly if the peer would not be given up at that time,
/// and one that is switched off always.
pub proof fn health_is_not_being_late(heartbeat: &HeartbeatManager, now: u64, answer: bool)
    requires
        call_ensures(HeartbeatManager::is_healthy_at, (heartbeat, now), answer),
    ensures
        !heartbeat@.config.enabled ==> answer,
        heartbeat@.config.enabled ==> (answer <==> !is_late(heartbeat@, now)),
        heartbeat@.config.enabled && heartbeat@.config.timeout@ / 1_000_000 <= u64::MAX ==> (answer
            <==> !heartbeat@.pending_ping || now - heartbeat@.last_pong
            <= heartbeat@.config.timeout@ / 1_000_000),
{
}

/// What is due now, and whether the peer is there now, is what is so at the time that the clock shows.
pub proof fn ticks_go_by_the_clock(due: Option<HeartbeatTick>)
    ensures
        forall|heartbeat: &mut HeartbeatManager| #[trigger]
            call_ensures(HeartbeatManager::tick, (heartbeat,), due) ==> exists|
                span: Option<Duration>,
            | #[trigger]
                shown_by_clock(span) && {
                    &&& due is None <==> heartbeat@.pending_ping && whole_millis(span)
                        < heartbeat@.last_pong
                    &&& due matches Some(due) ==> (due is TimedOut <==> is_late(
                        heartbeat@,
                        whole_millis(span),
                    ))
                    &&& due is None ==> final(heartbeat)@ == heartbeat@
                    &&& only_running_differs(heartbeat@, final(heartbeat)@)
                    &&& final(heartbeat)@.is_running <==> heartbeat@.is_running && !(due matches Some(
                        HeartbeatTick::TimedOut(_),
                    ))
                },
{
}

/// Whether the peer is there now is whether it is there at the time that the clock shows.
pub proof fn health_goes_by_the_clock(heartbeat: &HeartbeatManager, answer: Option<bool>)
    requires
        call_ensures(HeartbeatManager::is_healthy, (heartbeat,), answer),
    ensures
        exists|span: Option<Duration>| #[trigger]
            shown_by_clock(span) && {
                &&& answer is None <==> heartbeat@.config.enabled && whole_millis(span)
                    < heartbeat@.last_pong
                &&& answer matches Some(answer) ==> (answer <==> !heartbeat@.config.enabled
                    || !is_late(heartbeat@, whole_millis(span)))
            },
{
}

/// A heartbeat starts exactly if it is switched on and does not run. Then it runs, and counts from
/// that time; otherwise it is as it was.
pub proof fn heartbeats_start_once(now: u64, start: HeartbeatStart)
    ensures
        forall|heartbeat: &mut HeartbeatManager| #[trigger]
            call_ensures(HeartbeatManager::start_at, (heartbeat, now), start) ==> {
                &&& start == HeartbeatStart::Disabled <==> !heartbeat@.config.enabled
                &&& start == HeartbeatStart::AlreadyRunning <==> heartbeat@.config.enabled
                    && heartbeat@.is_running
                &&& start == HeartbeatStart::Started <==> heartbeat@.config.enabled
                    && !heartbeat@.is_running
                &&& if start == HeartbeatStart::Started {
                    &&& final(heartbeat)@.is_running
                    &&& final(heartbeat)@.last_pong == now
                    &&& final(heartbeat)@.pending_ping == heartbeat@.pending_ping
                    &&& final(heartbeat)@.config == heartbeat@.config
                } else {
                    final(heartbeat)@ == heartbeat@
                }
            },
        forall|heartbeat: &mut HeartbeatManager| #[trigger]
            call_ensures(HeartbeatManager::start, (heartbeat,), start) ==> exists|
                span: Option<Duration>,
            | #[trigger]
                shown_by_clock(span) && {
                    &&& start == HeartbeatStart::Started <==> heartbeat@.config.enabled
                        && !heartbeat@.is_running
                    &&& start == HeartbeatStart::Disabled <==> !heartbeat@.config.enabled
                    &&& if start == HeartbeatStart::Started {
                        &&& final(heartbeat)@.is_running
                        &&& final(heartbeat)@.last_pong == whole_millis(span)
                        &&& final(heartbeat)@.pending_ping == heartbeat@.pending_ping
                        &&& final(heartbeat)@.config == heartbeat@.config
                    } else {
                        final(heartbeat)@ == heartbeat@
                    }
                },
{
}

/// A ping that was sent is awaited and published. One that could not be sent ends the heartbeat.
pub proof fn sent_pings_are_awaited(sent: bool, event: Option<WebSocketEvent>)
    ensures
        forall|heartbeat: &mut HeartbeatManager| #[trigger]
            call_ensures(HeartbeatManager::ping_sent, (heartbeat, sent), event) ==> {
                &&& sent ==> (event matches Some(WebSocketEvent::HeartbeatSent))
                &&& !sent ==> event is None
                &&& final(heartbeat)@.pending_ping == (sent || heartbeat@.pending_ping)
                &&& final(heartbeat)@.is_running == (sent && heartbeat@.is_running)
                &&& final(heartbeat)@.last_pong == heartbeat@.last_pong
                &&& final(heartbeat)@.config == heartbeat@.config
            },
{
}

/// A heartbeat that was stopped does not run, and is otherwise as it was.
pub proof fn stopped_heartbeats_do_not_run(nothing: ())
    ensures
        forall|heartbeat: &mut HeartbeatManager| #[trigger]
            call_ensures(HeartbeatManager::stop, (heartbeat,), nothing) ==> {
                &&& !final(heartbeat)@.is_running
                &&& only_running_differs(heartbeat@, final(heartbeat)@)
            },
{
}

/// An answer at a time is noted and published exactly if the heartbeat is switched on: nothing is
/// awaited any more, and the last answer came at that time.
pub proof fn answers_are_noted(now: u64, event: Option<WebSocketEvent>)
    ensures
        forall|heartbeat: &mut HeartbeatManager| #[trigger]
            call_ensures(HeartbeatManager::handle_pong_at, (heartbeat, now), event) ==> if
            heartbeat@.config.enabled {
                &&& event matches Some(WebSocketEvent::HeartbeatReceived)
                &&& !final(heartbeat)@.pending_ping
                &&& final(heartbeat)@.last_pong == now
                &&& final(heartbeat)@.is_running == heartbeat@.is_running
                &&& final(heartbeat)@.config == heartbeat@.config
            } else {
                event is None && final(heartbeat)@ == heartbeat@
            },
        forall|heartbeat: &mut HeartbeatManager| #[trigger]
            call_ensures(HeartbeatManager::handle_pong, (heartbeat,), event) ==> exists|
                span: Option<Duration>,
            | #[trigger]
                shown_by_clock(span) && if heartbeat@.config.enabled {
                    &&& event matches Some(WebSocketEvent::HeartbeatReceived)
                    &&& !final(heartbeat)@.pending_ping
                    &&& final(heartbeat)@.last_pong == whole_millis(span)
                    &&& final(heartbeat)@.is_running == heartbeat@.is_running
                    &&& final(heartbeat)@.config == heartbeat@.config
                } else {
                    event is None && final(heartbeat)@ == heartbeat@
                },
{
}

/// A reset forgets what is awaited, and counts from that time.
pub proof fn resets_count_anew(now: u64, nothing: ())
    ensures
        forall|heartbeat: &mut HeartbeatManager| #[trigger]
            call_ensures(HeartbeatManager::reset_at, (heartbeat, now), nothing) ==> {
                &&& !final(heartbeat)@.pending_ping
                &&& final(heartbeat)@.last_pong == now
                &&& final(heartbeat)@.is_running == heartbeat@.is_running
                &&& final(heartbeat)@.config == heartbeat@.config
            },
        forall|heartbeat: &mut HeartbeatManager| #[trigger]
            call_ensures(HeartbeatManager::reset, (heartbeat,), nothing) ==> exists|
                span: Option<Duration>,
            | #[trigger]
                shown_by_clock(span) && {
                    &&& !final(heartbeat)@.pending_ping
                    &&& final(heartbeat)@.last_pong == whole_millis(span)
                    &&& final(heartbeat)@.is_running == heartbeat@.is_running
                    &&& final(heartbeat)@.config == heartbeat@.config
                },
{
}

/// A new heartbeat is as configured, does not run and awaits nothing.
pub proof fn new_heartbeats_do_not_run(
    config: HeartbeatConfig,
    heartbeat: HeartbeatManager,
    running: bool,
    interval: Duration,
)
    requires
        call_ensures(HeartbeatManager::new, (config,), heartbeat),
        call_ensures(HeartbeatManager::is_running, (&heartbeat,), running),
        call_ensures(HeartbeatManager::interval, (&heartbeat,), interval),
    ensures
        !running,
        interval@ == config.interval@,
        heartbeat@.config == config,
        !heartbeat@.is_running,
        !heartbeat@.pending_ping,
        heartbeat@.last_pong == 0,
{
}

/// The statistics tell how the heartbeat stands, and agree with what it tells itself.
pub proof fn statistics_tell_how_the_heartbeat_stands(
    heartbeat: &HeartbeatManager,
    now: u64,
    stats: HeartbeatStats,
    healthy: bool,
    running: bool,
)
    requires
        call_ensures(HeartbeatManager::get_stats_at, (heartbeat, now), stats),
        call_ensures(HeartbeatManager::is_healthy_at, (heartbeat, now), healthy),
        call_ensures(HeartbeatManager::is_running, (heartbeat,), running),
    ensures
        stats.is_healthy == healthy,
        stats.is_running == running,
        stats.is_running == heartbeat@.is_running,
        stats.enabled == heartbeat@.config.enabled,
        stats.interval == heartbeat@.config.interval,
        stats.timeout == heartbeat@.config.timeout,
        stats.last_pong_time == heartbeat@.last_pong,
        stats.pending_ping == heartbeat@.pending_ping,
        now >= heartbeat@.last_pong ==> stats.time_since_last_pong@ == (now - heartbeat@.last_pong)
            * 1_000_000,
        now < heartbeat@.last_pong ==> stats.time_since_last_pong@ == 0,
{
}

/// The statistics now, as the checker sees them too, are those at the time that the clock shows.
pub proof fn statistics_go_by_the_clock(
    checker: &HealthChecker,
    heartbeat: &HeartbeatManager,
    stats: Option<HeartbeatStats>,
)
    requires
        call_ensures(HeartbeatManager::get_stats, (heartbeat,), stats) || call_ensures(
            HealthChecker::check_once,
            (checker, heartbeat),
            stats,
        ),
    ensures
        exists|span: Option<Duration>| #[trigger]
            shown_by_clock(span) && {
                &&& stats is None <==> heartbeat@.config.enabled && whole_millis(span)
                    < heartbeat@.last_pong
                &&& stats matches Some(stats) ==> {
                    &&& stats.is_healthy <==> !heartbeat@.config.enabled || !is_late(
                        heartbeat@,
                        whole_millis(span),
                    )
                    &&& stats.is_running == heartbeat@.is_running
                    &&& stats.enabled == heartbeat@.config.enabled
                    &&& stats.pending_ping == heartbeat@.pending_ping
                    &&& stats.last_pong_time == heartbeat@.last_pong
                    &&& stats.interval == heartbeat@.config.interval
                    &&& stats.timeout == heartbeat@.config.timeout
                    &&& whole_millis(span) >= heartbeat@.last_pong
                        ==> stats.time_since_last_pong@ == (whole_millis(span)
                        - heartbeat@.last_pong) * 1_000_000
                    &&& whole_millis(span) < heartbeat@.last_pong
                        ==> stats.time_since_last_pong@ == 0
                }
            },
{
}

/// The checker keeps its interval, and is alarmed exactly by statistics that are not healthy.
pub proof fn checkers_are_alarmed_by_ill_health(
    interval: Duration,
    checker: HealthChecker,
    kept: Duration,
    stats: &HeartbeatStats,
    alarmed: bool,
)
    requires
        call_ensures(HealthChecker::new, (interval,), checker),
        call_ensures(HealthChecker::check_interval, (&checker,), kept),
        call_ensures(HealthChecker::is_alarming, (&checker, stats), alarmed),
    ensures
        kept@ == interval@,
        alarmed == !stats.is_healthy,
{
}

/// A message is the answer to a heartbeat, made at a time that the clock showed.
pub open spec fn is_pong(message: Message) -> bool {
    &&& message.message_type is Pong
    &&& message.id is None
    &&& message.payload == json_text("pong"@)
    &&& shown_by_utc_clock(message.timestamp)
    &&& forall|key: Seq<char>| !#[trigger] message.metadata@.contains_key(key)
}

/// A frame is due on a heartbeat of the peer exactly if the heartbeat is switched on and the answer
/// can be encoded, and then it is the text that the answer is encoded into. An answer that cannot be
/// encoded is an error that says why.
pub proof fn pings_are_answered_by_pongs<E: FnOnce(&Message) -> Result<String, String>>(
    heartbeat: &HeartbeatManager,
    encode: E,
    answer: WebSocketResult<Option<WsMessage>>,
)
    requires
        call_ensures(HeartbeatManager::answer_ping::<E>, (heartbeat, encode), answer),
    ensures
        !heartbeat@.config.enabled <==> answer matches Ok(None),
        answer matches Ok(Some(frame)) ==> exists|pong: Message, json: String|
            is_pong(pong) && #[trigger] call_ensures(
                encode,
                (&pong,),
                Ok::<String, String>(json),
            ) && frame == WsMessage::Text(json),
        answer matches Err(error) ==> exists|pong: Message, reason: String|
            is_pong(pong) && #[trigger] call_ensures(
                encode,
                (&pong,),
                Err::<String, String>(reason),
            ) && (error matches WebSocketError::ParseError(text) && text@ == "Pong 序列化失败: "@
                + reason@),
{
    if heartbeat@.config.enabled {
        let (pong, encoded) = choose|pong: Message, encoded: Result<String, String>| #[trigger]
            call_ensures(encode, (&pong,), encoded) && crate::heartbeat::is_answer(pong)
                && match encoded {
                Ok(json) => answer == Ok::<Option<WsMessage>, WebSocketError>(
                    Some(WsMessage::Text(json)),
                ),
                Err(reason) => answer matches Err(error) && error@
                    == crate::heartbeat::pong_refused(reason@),
            };
        assert(pong@.message_type == crate::message::TypeModel::Pong);
        assert(is_pong(pong));
        match encoded {
            Ok(json) => {
                assert(call_ensures(encode, (&pong,), Ok::<String, String>(json)));
            },
            Err(reason) => {
                assert(call_ensures(encode, (&pong,), Err::<String, String>(reason)));
            },
        }
    }
}

/// A heartbeat of the peer is answered exactly if the heartbeat is switched on. Success means that the
/// sender took the encoded answer; a failure is one of the encoder or of the sender, and says why.
pub proof fn answered_pings_reach_the_sender<
    E: FnOnce(&Message) -> Result<String, String>,
    S: FnOnce(WsMessage) -> Result<(), String>,
>(heartbeat: &HeartbeatManager, encode: E, send: S, result: WebSocketResult<()>)
    requires
        call_ensures(HeartbeatManager::handle_ping::<E, S>, (heartbeat, encode, send), result),
    ensures
        !heartbeat@.config.enabled ==> result is Ok,
        heartbeat@.config.enabled && result is Ok ==> exists|pong: Message, json: String|
            is_pong(pong) && #[trigger] call_ensures(
                encode,
                (&pong,),
                Ok::<String, String>(json),
            ) && call_ensures(send, (WsMessage::Text(json),), Ok::<(), String>(())),
        result matches Err(error) ==> match error {
            WebSocketError::ParseError(text) => exists|pong: Message, reason: String|
                is_pong(pong) && #[trigger] call_ensures(
                    encode,
                    (&pong,),
                    Err::<String, String>(reason),
                ) && text@ == "Pong 序列化失败: "@ + reason@,
            WebSocketError::SendFailed(text) => exists|pong: Message, json: String, reason: String|
                is_pong(pong) && #[trigger] call_ensures(
                    encode,
                    (&pong,),
                    Ok::<String, String>(json),
                ) && #[trigger] call_ensures(
                    send,
                    (WsMessage::Text(json),),
                    Err::<(), String>(reason),
                ) && text@ == "Pong 发送失败: "@ + reason@,
            _ => false,
        },
{
    let answer = choose|answer: WebSocketResult<Option<WsMessage>>| #[trigger]
        crate::heartbeat::answer_as(heartbeat@, encode, answer) && match answer {
            Ok(Some(frame)) => exists|sent: Result<(), String>| #[trigger]
                call_ensures(send, (frame,), sent) && crate::heartbeat::sent_as(sent, result),
            Ok(None) => result is Ok,
            Err(error) => result == Err::<(), WebSocketError>(error),
        };
    if heartbeat@.config.enabled {
        let (pong, encoded) = choose|pong: Message, encoded: Result<String, String>| #[trigger]
            call_ensures(encode, (&pong,), encoded) && crate::heartbeat::is_answer(pong)
                && match encoded {
                Ok(json) => answer == Ok::<Option<WsMessage>, WebSocketError>(
                    Some(WsMessage::Text(json)),
                ),
                Err(reason) => answer matches Err(error) && error@
                    == crate::heartbeat::pong_refused(reason@),
            };
        assert(pong@.message_type == crate::message::TypeModel::Pong);
        assert(is_pong(pong));
        match encoded {
            Ok(json) => {
                assert(call_ensures(encode, (&pong,), Ok::<String, String>(json)));
                let frame = WsMessage::Text(json);
                let sent = choose|sent: Result<(), String>| #[trigger]
                    call_ensures(send, (frame,), sent) && crate::heartbeat::sent_as(sent, result);
                match sent {
                    Ok(unit) => {
                        assert(unit == ());
                        assert(call_ensures(send, (WsMessage::Text(json),), Ok::<(), String>(())));
                    },
                    Err(reason) => {
                        assert(call_ensures(
                            send,
                            (WsMessage::Text(json),),
                            Err::<(), String>(reason),
                        ));
                    },
                }
            },
            Err(reason) => {
                assert(call_ensures(encode, (&pong,), Err::<String, String>(reason)));
            },
        }
    }
}

/// Whether the answer could be sent is given back, with the reason if not.
pub proof fn unsent_answers_are_errors(sent: Result<(), String>, result: WebSocketResult<()>)
    requires
        call_ensures(HeartbeatManager::answer_sent, (sent,), result),
    ensures
        match sent {
            Ok(_) => result is Ok,
            Err(reason) => result matches Err(WebSocketError::SendFailed(text)) && text@
                == "Pong 发送失败: "@ + reason@,
        },
{
}

} // verus!
