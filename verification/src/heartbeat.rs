//! The heartbeat: whether the peer still answers.
use vstd::prelude::*;

use crate::config::HeartbeatConfig;
use crate::error::{ErrorModel, WebSocketError, WebSocketResult};
use crate::event::{event_models, EventBuilder, EventModel, WebSocketEvent};
use crate::message::{json_text, made_now, Message, TypeModel, WsMessage};
use crate::text::prefixed;
use crate::time::{
    milliseconds, shown_by_clock, unix_millis, whole_millis, Duration, NANOS_PER_MILLI,
};

verus! {

/// Keeps watch over the heartbeat.
pub struct HeartbeatManager {
    config: HeartbeatConfig,
    is_running: bool,
    last_pong: u64,
    pending_ping: bool,
}

/// The mathematical model of [`HeartbeatManager`].
pub struct HeartbeatModel {
    pub config: HeartbeatConfig,
    pub is_running: bool,
    pub last_pong: u64,
    pub pending_ping: bool,
}

impl View for HeartbeatManager {
    type V = HeartbeatModel;

    closed spec fn view(&self) -> HeartbeatModel {
        HeartbeatModel {
            config: self.config,
            is_running: self.is_running,
            last_pong: self.last_pong,
            pending_ping: self.pending_ping,
        }
    }
}

/// What starting the heartbeat came to.
#[derive(Debug, Clone, Copy, PartialEq, Eq, Structural)]
pub enum HeartbeatStart {
    /// It is switched off.
    Disabled,
    /// It runs already.
    AlreadyRunning,
    /// It runs from now on, and is due at every interval.
    Started,
}

/// What is due when the interval of the heartbeat has passed.
#[derive(Debug)]
pub enum HeartbeatTick {
    /// The peer is gone: to publish these events, in order, and to end.
    TimedOut(Vec<WebSocketEvent>),
    /// To send this frame.
    Ping(WsMessage),
}

/// How long the answer to a heartbeat may take, in milliseconds, cut to sixty-four bits.
pub open spec fn timeout_millis(config: HeartbeatConfig) -> u64 {
    (config.timeout@ / NANOS_PER_MILLI as nat) as u64
}

/// A heartbeat is without an answer, and the last answer is longer ago than allowed.
pub open spec fn overdue(heartbeat: HeartbeatModel, now: u64) -> bool {
    heartbeat.pending_ping && now - heartbeat.last_pong > timeout_millis(heartbeat.config)
}

/// The heartbeat is switched off, or is not overdue.
pub open spec fn healthy(heartbeat: HeartbeatModel, now: u64) -> bool {
    !heartbeat.config.enabled || !overdue(heartbeat, now)
}

/// Where a heartbeat is without an answer, the answer that was noted last is not in the future.
pub open spec fn awaited_in_order(heartbeat: HeartbeatModel, now: u64) -> bool {
    heartbeat.pending_ping ==> heartbeat.last_pong <= now
}

/// Where the heartbeat is switched on, the answer that was noted last is not in the future.
pub open spec fn in_order(heartbeat: HeartbeatModel, now: u64) -> bool {
    heartbeat.config.enabled ==> heartbeat.last_pong <= now
}

/// What starting the heartbeat comes to.
pub open spec fn start_of(heartbeat: HeartbeatModel) -> HeartbeatStart {
    if !heartbeat.config.enabled {
        HeartbeatStart::Disabled
    } else if heartbeat.is_running {
        HeartbeatStart::AlreadyRunning
    } else {
        HeartbeatStart::Started
    }
}

/// The heartbeat after it was started at a given time.
pub open spec fn started_at(heartbeat: HeartbeatModel, now: u64) -> HeartbeatModel {
    if start_of(heartbeat) == HeartbeatStart::Started {
        HeartbeatModel { is_running: true, last_pong: now, ..heartbeat }
    } else {
        heartbeat
    }
}

/// The heartbeat after an answer at a given time.
pub open spec fn answered_at(heartbeat: HeartbeatModel, now: u64) -> HeartbeatModel {
    HeartbeatModel { pending_ping: false, last_pong: now, ..heartbeat }
}

/// The heartbeat after it took an answer at a given time: one that is switched off takes no notice.
pub open spec fn noted_at(heartbeat: HeartbeatModel, now: u64) -> HeartbeatModel {
    if heartbeat.config.enabled {
        answered_at(heartbeat, now)
    } else {
        heartbeat
    }
}

/// The heartbeat once it has ended.
pub open spec fn ended(heartbeat: HeartbeatModel) -> HeartbeatModel {
    HeartbeatModel { is_running: false, ..heartbeat }
}

/// The heartbeat after its interval has passed at a given time: it ends if the peer is gone.
pub open spec fn after_tick(heartbeat: HeartbeatModel, now: u64) -> HeartbeatModel {
    if overdue(heartbeat, now) {
        ended(heartbeat)
    } else {
        heartbeat
    }
}

/// What is due at a given time.
pub open spec fn due_at(heartbeat: HeartbeatModel, now: u64, due: HeartbeatTick) -> bool {
    match due {
        HeartbeatTick::TimedOut(events) => overdue(heartbeat, now) && event_models(events@) == seq![
            EventModel::HeartbeatTimeout,
            EventModel::Error(ErrorModel::HeartbeatTimeout),
        ],
        HeartbeatTick::Ping(frame) => !overdue(heartbeat, now) && (
        frame matches WsMessage::Ping(data) && data@ == Seq::<u8>::empty()),
    }
}

/// What is reported of an answer that could not be encoded.
pub open spec fn pong_refused(reason: Seq<char>) -> ErrorModel {
    ErrorModel::ParseError("Pong 序列化失败: "@ + reason)
}

/// What is reported of an answer that could not be sent.
pub open spec fn pong_unsent(reason: Seq<char>) -> ErrorModel {
    ErrorModel::SendFailed("Pong 发送失败: "@ + reason)
}

/// A message that answers a heartbeat of the peer.
pub open spec fn is_answer(pong: Message) -> bool {
    made_now(pong@, TypeModel::Pong, json_text("pong"@))
}

/// What is due on a heartbeat of the peer: nothing if the heartbeat is switched off, and otherwise the
/// answer, encoded, as text.
pub open spec fn answer_as<E: FnOnce(&Message) -> Result<String, String>>(
    heartbeat: HeartbeatModel,
    encode: E,
    answer: WebSocketResult<Option<WsMessage>>,
) -> bool {
    if heartbeat.config.enabled {
        exists|pong: Message, encoded: Result<String, String>| #[trigger]
            call_ensures(encode, (&pong,), encoded) && is_answer(pong) && match encoded {
                Ok(json) => answer == Ok::<Option<WsMessage>, WebSocketError>(
                    Some(WsMessage::Text(json)),
                ),
                Err(reason) => answer matches Err(error) && error@ == pong_refused(reason@),
            }
    } else {
        answer == Ok::<Option<WsMessage>, WebSocketError>(None)
    }
}

/// What is given back once the answer was sent or could not be sent.
pub open spec fn sent_as(sent: Result<(), String>, result: WebSocketResult<()>) -> bool {
    match sent {
        Ok(_) => result is Ok,
        Err(reason) => result matches Err(error) && error@ == pong_unsent(reason@),
    }
}

/// What answering a heartbeat of the peer gives: what is due is handed to the sender, and what the
/// sender answers is given back.
pub open spec fn answered_with<
    E: FnOnce(&Message) -> Result<String, String>,
    S: FnOnce(WsMessage) -> Result<(), String>,
>(heartbeat: HeartbeatModel, encode: E, send: S, result: WebSocketResult<()>) -> bool {
    exists|answer: WebSocketResult<Option<WsMessage>>| #[trigger]
        answer_as(heartbeat, encode, answer) && match answer {
            Ok(Some(frame)) => exists|sent: Result<(), String>| #[trigger]
                call_ensures(send, (frame,), sent) && sent_as(sent, result),
            Ok(None) => result is Ok,
            Err(error) => result == Err::<(), WebSocketError>(error),
        }
}

impl HeartbeatManager {
    /// A heartbeat that does not run yet.
    pub fn new(config: HeartbeatConfig) -> (manager: Self)
        ensures
            manager@ == (HeartbeatModel {
                config,
                is_running: false,
                last_pong: 0,
                pending_ping: false,
            }),
    {
        HeartbeatManager { config, is_running: false, last_pong: 0, pending_ping: false }
    }

    /// Notes that the peer answered at a given time.
    fn update_last_pong(&mut self, now: u64)
        ensures
            final(self)@ == (HeartbeatModel { last_pong: now, ..old(self)@ }),
    {
        self.last_pong = now;
    }

    /// Starts the heartbeat at a given time, unless it is switched off or runs already.
    pub fn start_at(&mut self, now: u64) -> (start: HeartbeatStart)
        ensures
            start == start_of(old(self)@),
            final(self)@ == started_at(old(self)@, now),
    {
        if !self.config.enabled {
            return HeartbeatStart::Disabled;
        }
        if self.is_running {
            return HeartbeatStart::AlreadyRunning;
        }
        self.is_running = true;
        self.update_last_pong(now);
        HeartbeatStart::Started
    }

    /// Starts the heartbeat now, unless it is switched off or runs already.
    pub fn start(&mut self) -> (start: HeartbeatStart)
        ensures
            start == start_of(old(self)@),
            exists|span: Option<Duration>| #[trigger]
                shown_by_clock(span) && final(self)@ == started_at(old(self)@, whole_millis(span)),
    {
        self.start_at(unix_millis())
    }

    /// Tells whether the heartbeat runs.
    pub fn is_running(&self) -> (answer: bool)
        ensures
            answer == self@.is_running,
    {
        self.is_running
    }

    /// How long to wait from one heartbeat to the next.
    pub fn interval(&self) -> (interval: Duration)
        ensures
            interval == self@.config.interval,
    {
        self.config.interval
    }

    /// Decides what is due at a given time, when the interval has passed. The heartbeat ends if the
    /// peer is gone.
    pub fn tick_at(&mut self, now: u64) -> (due: HeartbeatTick)
        requires
            awaited_in_order(old(self)@, now),
        ensures
            due_at(old(self)@, now, due),
            final(self)@ == after_tick(old(self)@, now),
    {
        if self.pending_ping {
            let elapsed: u64 = now - self.last_pong;
            if elapsed > self.config.timeout.as_millis() as u64 {
                let mut events: Vec<WebSocketEvent> = Vec::new();
                events.push(EventBuilder::heartbeat_timeout());
                events.push(EventBuilder::error(WebSocketError::HeartbeatTimeout));
                assert(event_models(events@) =~= seq![
                    EventModel::HeartbeatTimeout,
                    EventModel::Error(ErrorModel::HeartbeatTimeout),
                ]);
                self.is_running = false;
                return HeartbeatTick::TimedOut(events);
            }
        }
        HeartbeatTick::Ping(WsMessage::Ping(Vec::new()))
    }

    /// Decides what is due now, when the interval has passed; nothing if a heartbeat is
    /// without an answer and the clock is behind the answer that was noted last.
    pub fn tick(&mut self) -> (due: Option<HeartbeatTick>)
        ensures
            exists|span: Option<Duration>| #[trigger]
                shown_by_clock(span) && awaited_in_order(old(self)@, whole_millis(span)) == (
                due is Some) && match due {
                    Some(due) => due_at(old(self)@, whole_millis(span), due) && final(self)@
                        == after_tick(old(self)@, whole_millis(span)),
                    None => final(self)@ == old(self)@,
                },
            !old(self)@.pending_ping ==> due is Some,
    {
        let now: u64 = unix_millis();
        if self.pending_ping && now < self.last_pong {
            return None;
        }
        Some(self.tick_at(now))
    }

    /// Notes whether the heartbeat could be sent. If so, an answer is awaited and there is an
    /// event to publish; if not, the heartbeat ends.
    pub fn ping_sent(&mut self, sent: bool) -> (event: Option<WebSocketEvent>)
        ensures
            final(self)@ == if sent {
                HeartbeatModel { pending_ping: true, ..old(self)@ }
            } else {
                ended(old(self)@)
            },
            match event {
                Some(event) => sent && event@ == EventModel::HeartbeatSent,
                None => !sent,
            },
    {
        if sent {
            self.pending_ping = true;
            Some(EventBuilder::heartbeat_sent())
        } else {
            self.is_running = false;
            None
        }
    }

    /// Stops the heartbeat.
    pub fn stop(&mut self)
        ensures
            final(self)@ == ended(old(self)@),
    {
        self.is_running = false;
    }

    /// Takes the answer to a heartbeat at a given time, and gives the event to publish. A heartbeat
    /// that is switched off takes no notice.
    pub fn handle_pong_at(&mut self, now: u64) -> (event: Option<WebSocketEvent>)
        ensures
            final(self)@ == noted_at(old(self)@, now),
            match event {
                Some(event) => old(self)@.config.enabled && event@ == EventModel::HeartbeatReceived,
                None => !old(self)@.config.enabled,
            },
    {
        if !self.config.enabled {
            return None;
        }
        self.pending_ping = false;
        self.update_last_pong(now);
        Some(EventBuilder::heartbeat_received())
    }

    /// Takes the answer to a heartbeat now, and gives the event to publish. A heartbeat that is
    /// switched off takes no notice.
    pub fn handle_pong(&mut self) -> (event: Option<WebSocketEvent>)
        ensures
            exists|span: Option<Duration>| #[trigger]
                shown_by_clock(span) && final(self)@ == noted_at(old(self)@, whole_millis(span)),
            match event {
                Some(event) => old(self)@.config.enabled && event@ == EventModel::HeartbeatReceived,
                None => !old(self)@.config.enabled,
            },
    {
        self.handle_pong_at(unix_millis())
    }

    /// The frame that is due on a heartbeat of the peer. A heartbeat that is switched off gives no
    /// answer.
    pub fn answer_ping<E: FnOnce(&Message) -> Result<String, String>>(&self, encode: E) -> (answer:
        WebSocketResult<Option<WsMessage>>)
        requires
            self@.config.enabled ==> forall|pong: Message|
                is_answer(pong) ==> #[trigger] call_requires(encode, (&pong,)),
        ensures
            answer_as(self@, encode, answer),
    {
        if !self.config.enabled {
            return Ok(None);
        }
        let pong = Message::pong();
        match encode(&pong) {
            Ok(json) => {
                assert(call_ensures(encode, (&pong,), Ok::<String, String>(json)));
                Ok(Some(WsMessage::Text(json)))
            },
            Err(reason) => {
                assert(call_ensures(encode, (&pong,), Err::<String, String>(reason)));
                Err(WebSocketError::ParseError(prefixed("Pong 序列化失败: ", reason.as_str())))
            },
        }
    }

    /// Takes whether the answer to a heartbeat of the peer could be sent.
    pub fn answer_sent(sent: Result<(), String>) -> (result: WebSocketResult<()>)
        ensures
            sent_as(sent, result),
    {
        match sent {
            Ok(_) => Ok(()),
            Err(reason) => Err(
                WebSocketError::SendFailed(prefixed("Pong 发送失败: ", reason.as_str())),
            ),
        }
    }

    /// Answers a heartbeat of the peer. A heartbeat that is switched off gives no answer. The sender
    /// is asked to take nothing but the answer, and no more than once.
    pub fn handle_ping<
        E: FnOnce(&Message) -> Result<String, String>,
        S: FnOnce(WsMessage) -> Result<(), String>,
    >(&self, encode: E, send: S) -> (result: WebSocketResult<()>)
        requires
            self@.config.enabled ==> forall|pong: Message|
                is_answer(pong) ==> #[trigger] call_requires(encode, (&pong,)),
            forall|frame: WsMessage|
                answer_as(
                    self@,
                    encode,
                    Ok::<Option<WsMessage>, WebSocketError>(Some(frame)),
                ) ==> #[trigger] call_requires(send, (frame,)),
        ensures
            answered_with(self@, encode, send, result),
    {
        let answer = self.answer_ping(encode);
        match answer {
            Ok(Some(frame)) => {
                assert(answer_as(self@, encode, Ok(Some(frame))));
                let sent = send(frame);
                let ghost told = sent;
                let result = Self::answer_sent(sent);
                assert(call_ensures(send, (frame,), told) && sent_as(told, result));
                result
            },
            Ok(None) => {
                assert(answer_as(self@, encode, Ok(None)));
                Ok(())
            },
            Err(error) => {
                assert(answer_as(self@, encode, Err(error)));
                Err(error)
            },
        }
    }

    /// Tells whether the peer is taken to be there at a given time.
    pub fn is_healthy_at(&self, now: u64) -> (answer: bool)
        requires
            in_order(self@, now),
        ensures
            answer == healthy(self@, now),
    {
        if !self.config.enabled {
            return true;
        }
        let elapsed: u64 = now - self.last_pong;
        let allowed: u64 = self.config.timeout.as_millis() as u64;
        elapsed <= allowed || !self.pending_ping
    }

    /// Tells whether the peer is taken to be there now; nothing if the clock is behind the answer
    /// that was noted last.
    pub fn is_healthy(&self) -> (answer: Option<bool>)
        ensures
            exists|span: Option<Duration>| #[trigger]
                shown_by_clock(span) && in_order(self@, whole_millis(span)) == (answer is Some) && (
                answer matches Some(answer) ==> answer == healthy(self@, whole_millis(span))),
            !self@.config.enabled ==> answer == Some(true),
    {
        let now: u64 = unix_millis();
        if self.config.enabled && now < self.last_pong {
            return None;
        }
        Some(self.is_healthy_at(now))
    }

    /// How the heartbeat stands at a given time.
    pub fn get_stats_at(&self, now: u64) -> (stats: HeartbeatStats)
        requires
            in_order(self@, now),
        ensures
            stats_of(self@, now, stats),
    {
        HeartbeatStats {
            enabled: self.config.enabled,
            is_running: self.is_running,
            interval: self.config.interval,
            timeout: self.config.timeout,
            last_pong_time: self.last_pong,
            time_since_last_pong: Duration::from_millis(now.saturating_sub(self.last_pong)),
            pending_ping: self.pending_ping,
            is_healthy: self.is_healthy_at(now),
        }
    }

    /// How the heartbeat stands now; nothing if the clock is behind the answer that was noted last.
    pub fn get_stats(&self) -> (stats: Option<HeartbeatStats>)
        ensures
            exists|span: Option<Duration>| #[trigger]
                shown_by_clock(span) && in_order(self@, whole_millis(span)) == (stats is Some) && (
                stats matches Some(stats) ==> stats_of(self@, whole_millis(span), stats)),
    {
        let now: u64 = unix_millis();
        if self.config.enabled && now < self.last_pong {
            return None;
        }
        Some(self.get_stats_at(now))
    }

    /// Forgets a heartbeat that is without an answer, at a given time.
    pub fn reset_at(&mut self, now: u64)
        ensures
            final(self)@ == answered_at(old(self)@, now),
    {
        self.pending_ping = false;
        self.update_last_pong(now);
    }

    /// Forgets a heartbeat that is without an answer, now.
    pub fn reset(&mut self)
        ensures
            exists|span: Option<Duration>| #[trigger]
                shown_by_clock(span) && final(self)@ == answered_at(old(self)@, whole_millis(span)),
    {
        self.reset_at(unix_millis());
    }
}

/// How a heartbeat stands at a given time.
#[derive(Debug, Clone, Copy, PartialEq, Eq, Structural)]
pub struct HeartbeatStats {
    /// Whether it is switched on.
    pub enabled: bool,
    /// Whether it runs.
    pub is_running: bool,
    /// How long to wait from one heartbeat to the next.
    pub interval: Duration,
    /// How long an answer may take.
    pub timeout: Duration,
    /// When the peer answered last, in milliseconds since the Unix epoch.
    pub last_pong_time: u64,
    /// How long ago that was.
    pub time_since_last_pong: Duration,
    /// Whether a heartbeat is without an answer.
    pub pending_ping: bool,
    /// Whether the peer is taken to be there.
    pub is_healthy: bool,
}

/// `stats` are how a heartbeat stands at a given time.
pub open spec fn stats_of(heartbeat: HeartbeatModel, now: u64, stats: HeartbeatStats) -> bool {
    &&& stats.enabled == heartbeat.config.enabled
    &&& stats.is_running == heartbeat.is_running
    &&& stats.interval == heartbeat.config.interval
    &&& stats.timeout == heartbeat.config.timeout
    &&& stats.last_pong_time == heartbeat.last_pong
    &&& stats.time_since_last_pong@ == milliseconds(
        if now >= heartbeat.last_pong {
            (now - heartbeat.last_pong) as nat
        } else {
            0
        },
    )
    &&& stats.pending_ping == heartbeat.pending_ping
    &&& stats.is_healthy == healthy(heartbeat, now)
}

/// Looks at the heartbeat from time to time.
pub struct HealthChecker {
    check_interval: Duration,
}

impl HealthChecker {
    /// How long to wait from one look to the next.
    pub closed spec fn interval_of(&self) -> Duration {
        self.check_interval
    }

    /// A checker that looks at every interval.
    pub fn new(check_interval: Duration) -> (checker: Self)
        ensures
            checker.interval_of() == check_interval,
    {
        HealthChecker { check_interval }
    }

    /// How long to wait from one look to the next.
    pub fn check_interval(&self) -> (interval: Duration)
        ensures
            interval == self.interval_of(),
    {
        self.check_interval
    }

    /// Tells whether what a look showed is cause for alarm.
    pub fn is_alarming(&self, stats: &HeartbeatStats) -> (answer: bool)
        ensures
            answer == !stats.is_healthy,
    {
        !stats.is_healthy
    }

    /// Looks at the heartbeat once; nothing is seen if the clock is behind the answer that was noted
    /// last.
    pub fn check_once(&self, manager: &HeartbeatManager) -> (stats: Option<HeartbeatStats>)
        ensures
            exists|span: Option<Duration>| #[trigger]
                shown_by_clock(span) && in_order(manager@, whole_millis(span)) == (stats is Some)
                    && (stats matches Some(stats) ==> stats_of(
                    manager@,
                    whole_millis(span),
                    stats,
                )),
    {
        manager.get_stats()
    }
}

/// A heartbeat that is switched off is always healthy.
pub proof fn disabled_is_healthy(heartbeat: HeartbeatModel, now: u64)
    requires
        !heartbeat.config.enabled,
    ensures
        healthy(heartbeat, now),
{
}

/// A heartbeat that is switched on is healthy exactly as long as a tick would not end it.
pub proof fn healthy_until_overdue(heartbeat: HeartbeatModel, now: u64)
    requires
        heartbeat.config.enabled,
    ensures
        healthy(heartbeat, now) <==> !overdue(heartbeat, now),
{
}

/// After an answer, and after a reset, the heartbeat is healthy at any later time, until another
/// one is sent.
pub proof fn answer_restores_health(heartbeat: HeartbeatModel, answered: u64, now: u64)
    ensures
        healthy(answered_at(heartbeat, answered), now),
        !overdue(answered_at(heartbeat, answered), now),
{
}

/// A heartbeat that stays without an answer is overdue from the end of the timeout on, and not
/// before. A further heartbeat does not put that off.
pub proof fn silence_is_noticed(heartbeat: HeartbeatModel, now: u64)
    ensures
        overdue(HeartbeatModel { pending_ping: true, ..heartbeat }, now) <==> now
            > heartbeat.last_pong + timeout_millis(heartbeat.config),
{
}

/// A heartbeat that has ended, because it was stopped, could not be sent or was not answered in
/// time, does not run, and starts again if it is switched on.
pub proof fn ended_heartbeat_starts_again(heartbeat: HeartbeatModel, now: u64)
    requires
        heartbeat.config.enabled,
    ensures
        !ended(heartbeat).is_running,
        start_of(ended(heartbeat)) == HeartbeatStart::Started,
        overdue(heartbeat, now) ==> after_tick(heartbeat, now) == ended(heartbeat),
{
}

/// What happens to a running heartbeat.
pub enum Beat {
    /// The interval has passed, and the heartbeat is sent if the peer is not given up.
    Tick(u64),
    /// The peer answers.
    Pong(u64),
}

/// The heartbeat after what happens to it; none if the peer is given up.
pub open spec fn after_beat(heartbeat: HeartbeatModel, beat: Beat) -> Option<HeartbeatModel> {
    match beat {
        Beat::Tick(now) => if overdue(heartbeat, now) {
            None
        } else {
            Some(HeartbeatModel { pending_ping: true, ..heartbeat })
        },
        Beat::Pong(now) => Some(noted_at(heartbeat, now)),
    }
}

/// The peer is not given up while `beats` happen.
pub open spec fn survives(heartbeat: HeartbeatModel, beats: Seq<Beat>) -> bool
    decreases beats.len(),
{
    beats.len() == 0 || match after_beat(heartbeat, beats.first()) {
        Some(next) => survives(next, beats.drop_first()),
        None => false,
    }
}

/// A peer that answers every heartbeat before the next one is due is never given up, however long
/// the answers take.
pub proof fn answering_peer_is_kept(heartbeat: HeartbeatModel, beats: Seq<Beat>)
    requires
        heartbeat.config.enabled,
        beats.len() > 0 && beats[0] is Tick ==> !heartbeat.pending_ping,
        forall|i: int|
            0 < i < beats.len() && (#[trigger] beats[i]) is Tick ==> beats[i - 1] is Pong,
    ensures
        survives(heartbeat, beats),
    decreases beats.len(),
{
    if beats.len() > 0 {
        let rest = beats.drop_first();
        assert(forall|i: int| 0 <= i < rest.len() ==> rest[i] == beats[i + 1]);
        assert(beats.first() == beats[0]);
        if rest.len() > 0 && rest[0] is Tick {
            assert(beats[1] is Tick);
        }
        assert forall|i: int| 0 < i < rest.len() && (#[trigger] rest[i]) is Tick implies rest[i - 1]
            is Pong by {
            assert(beats[i + 1] is Tick);
        }
        answering_peer_is_kept(after_beat(heartbeat, beats[0])->Some_0, rest);
    }
}

/// A peer that does not answer the heartbeat it was sent is kept exactly as long as no interval
/// passes after the timeout since its last answer.
pub proof fn silent_peer_is_given_up(heartbeat: HeartbeatModel, beats: Seq<Beat>)
    requires
        heartbeat.pending_ping,
        forall|i: int| 0 <= i < beats.len() ==> (#[trigger] beats[i]) is Tick,
    ensures
        survives(heartbeat, beats) <==> forall|i: int|
            0 <= i < beats.len() ==> (#[trigger] beats[i])->Tick_0 <= heartbeat.last_pong
                + timeout_millis(heartbeat.config),
    decreases beats.len(),
{
    if beats.len() > 0 {
        let rest = beats.drop_first();
        assert(forall|i: int| 0 <= i < rest.len() ==> (#[trigger] rest[i]) == beats[i + 1]);
        assert(beats[0] is Tick);
        silent_peer_is_given_up(heartbeat, rest);
        assert(forall|i: int| 0 < i < beats.len() ==> (#[trigger] beats[i]) == rest[i - 1]);
    }
}

} // verus!
