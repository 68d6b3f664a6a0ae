//! The connection: its state, and how it is made again after it failed.
use vstd::prelude::*;

use crate::config::ClientConfig;
use crate::error::{
    error_text, recoverable, result_model, ErrorClassifier, ErrorModel, WebSocketError,
    WebSocketResult,
};
use crate::event::{event_models, EventBuilder, EventModel, WebSocketEvent};
use crate::message::optional_text;
use crate::text::{decimal, decimal_text, prefixed};
use crate::time::{duration_text, shown, Duration, NANOS_PER_MILLI};

verus! {

/// The state of the connection.
#[derive(Debug)]
pub enum ConnectionState {
    /// There is no connection.
    Disconnected,
    /// A connection is being made.
    Connecting,
    /// There is a connection.
    Connected,
    /// A connection is about to be made again.
    Reconnecting,
    /// A connection could not be made.
    Failed(String),
}

/// The mathematical model of [`ConnectionState`].
pub enum StateModel {
    Disconnected,
    Connecting,
    Connected,
    Reconnecting,
    Failed(Seq<char>),
}

impl View for ConnectionState {
    type V = StateModel;

    open spec fn view(&self) -> StateModel {
        match self {
            ConnectionState::Disconnected => StateModel::Disconnected,
            ConnectionState::Connecting => StateModel::Connecting,
            ConnectionState::Connected => StateModel::Connected,
            ConnectionState::Reconnecting => StateModel::Reconnecting,
            ConnectionState::Failed(reason) => StateModel::Failed(reason@),
        }
    }
}

impl Clone for ConnectionState {
    fn clone(&self) -> (copy: Self)
        ensures
            copy == *self,
    {
        match self {
            ConnectionState::Disconnected => ConnectionState::Disconnected,
            ConnectionState::Connecting => ConnectionState::Connecting,
            ConnectionState::Connected => ConnectionState::Connected,
            ConnectionState::Reconnecting => ConnectionState::Reconnecting,
            ConnectionState::Failed(reason) => ConnectionState::Failed(reason.clone()),
        }
    }
}

impl vstd::std_specs::cmp::PartialEqSpecImpl for ConnectionState {
    open spec fn obeys_eq_spec() -> bool {
        true
    }

    open spec fn eq_spec(&self, other: &Self) -> bool {
        self@ == other@
    }
}

impl PartialEq for ConnectionState {
    fn eq(&self, other: &Self) -> (answer: bool) {
        match (self, other) {
            (ConnectionState::Disconnected, ConnectionState::Disconnected) => true,
            (ConnectionState::Connecting, ConnectionState::Connecting) => true,
            (ConnectionState::Connected, ConnectionState::Connected) => true,
            (ConnectionState::Reconnecting, ConnectionState::Reconnecting) => true,
            (ConnectionState::Failed(reason), ConnectionState::Failed(other_reason)) => *reason
                == *other_reason,
            _ => false,
        }
    }
}

/// What to connect to, and how long that may take.
#[derive(Debug)]
pub struct Dial {
    /// Where the server is.
    pub url: String,
    /// How long the attempt may take.
    pub timeout: Duration,
}

/// How an attempt to connect ended.
#[derive(Debug)]
pub enum ConnectOutcome {
    /// The connection was made.
    Established,
    /// The connection could not be made, for the given reason.
    Refused(String),
    /// The connection was not made in time.
    TimedOut,
}

/// What an attempt to connect comes to.
#[derive(Debug)]
pub struct ConnectReport {
    /// What the attempt gives back.
    pub result: WebSocketResult<()>,
    /// The event to publish.
    pub event: WebSocketEvent,
}

/// What to do after an attempt to connect.
#[derive(Debug)]
pub enum RetryStep {
    /// Nothing more: this is the result.
    Finish(WebSocketResult<()>),
    /// To wait, and then to make another attempt, which has the given number.
    Retry(u32),
}

/// The mathematical model of [`RetryStep`].
pub enum StepModel {
    Finish(Result<(), ErrorModel>),
    Retry(u32),
}

impl View for RetryStep {
    type V = StepModel;

    open spec fn view(&self) -> StepModel {
        match self {
            RetryStep::Finish(result) => StepModel::Finish(result_model(*result)),
            RetryStep::Retry(attempt) => StepModel::Retry(*attempt),
        }
    }
}

/// What follows from an attempt to connect.
#[derive(Debug)]
pub struct RetryReport {
    /// What to do.
    pub step: RetryStep,
    /// The events to publish before, in order.
    pub events: Vec<WebSocketEvent>,
}

/// What the wait before an attempt to connect again is computed from: the base in milliseconds,
/// times the multiplier to the power of the exponent, but no more than the maximum.
#[derive(Debug, Clone, Copy, PartialEq, Eq, Structural)]
pub struct BackoffTerms {
    /// The wait before the first attempt, in milliseconds.
    pub base_millis: u128,
    /// The bits of the multiplier, a floating-point number of double precision.
    pub multiplier_bits: u64,
    /// The power to which the multiplier is raised.
    pub exponent: i32,
    /// The longest wait, in milliseconds.
    pub max_millis: u128,
}

/// One less than the number of an attempt, but no more than the largest exponent.
pub open spec fn backoff_exponent(count: u32) -> int {
    if count - 1 <= i32::MAX {
        count - 1
    } else {
        i32::MAX as int
    }
}

/// How the connection stands.
pub struct ConnectionManager {
    config: ClientConfig,
    state: ConnectionState,
    retry_count: u32,
}

/// The mathematical model of [`ConnectionManager`].
pub struct ConnectionModel {
    pub config: ClientConfig,
    pub state: StateModel,
    pub retry_count: u32,
}

impl View for ConnectionManager {
    type V = ConnectionModel;

    closed spec fn view(&self) -> ConnectionModel {
        ConnectionModel {
            config: self.config,
            state: self.state@,
            retry_count: self.retry_count,
        }
    }
}

/// What is said of an attempt that was refused.
pub open spec fn refusal_text(reason: Seq<char>) -> Seq<char> {
    "WebSocket 连接失败: "@ + reason
}

/// What is said of an attempt that took too long.
pub open spec fn timeout_text(config: ClientConfig) -> Seq<char> {
    "连接超时，超时时间: "@ + shown(config.connect_timeout)
}

/// The connection after an attempt has ended.
pub open spec fn after_connect(before: ConnectionModel, outcome: ConnectOutcome) -> ConnectionModel {
    match outcome {
        ConnectOutcome::Established => ConnectionModel {
            state: StateModel::Connected,
            retry_count: 0,
            ..before
        },
        ConnectOutcome::Refused(reason) => ConnectionModel {
            state: StateModel::Failed(refusal_text(reason@)),
            ..before
        },
        ConnectOutcome::TimedOut => ConnectionModel {
            state: StateModel::Failed(timeout_text(before.config)),
            ..before
        },
    }
}

/// What an attempt to connect gives back.
pub open spec fn connect_result(outcome: ConnectOutcome) -> Result<(), ErrorModel> {
    match outcome {
        ConnectOutcome::Established => Ok(()),
        ConnectOutcome::Refused(reason) => Err(
            ErrorModel::ConnectionFailed(refusal_text(reason@)),
        ),
        ConnectOutcome::TimedOut => Err(ErrorModel::ConnectionTimeout),
    }
}

/// The event that the result of an attempt to connect is published as.
pub open spec fn connect_event(result: Result<(), ErrorModel>) -> EventModel {
    match result {
        Ok(_) => EventModel::Connected,
        Err(error) => EventModel::Error(error),
    }
}

/// How many times to try again; without a limit if absent.
pub open spec fn retry_limit(config: ClientConfig) -> Option<u32> {
    config.reconnect.max_retries
}

/// There is a limit, and `retries` attempts to connect again reach it.
pub open spec fn limit_reached(config: ClientConfig, retries: u32) -> bool {
    retry_limit(config) matches Some(limit) && retries >= limit
}

/// The number of attempt `i` to connect again, counted from 0, after `retries` others. The numbers
/// stay at the largest one that can be counted.
pub open spec fn attempt_number(retries: u32, i: int) -> u32 {
    if retries + i + 1 < u32::MAX {
        (retries + i + 1) as u32
    } else {
        u32::MAX
    }
}

/// The error that the attempts are given up with at the limit.
pub open spec fn exhausted(limit: u32, last: ErrorModel) -> ErrorModel {
    ErrorModel::ReconnectFailed(
        "达到最大重连次数 "@ + decimal(limit as nat) + ", 最后错误: "@ + error_text(last),
    )
}

/// What to do after an attempt, where `retries` attempts to connect again have been made.
pub open spec fn retry_step(
    config: ClientConfig,
    retries: u32,
    attempt: Result<(), ErrorModel>,
) -> StepModel {
    if !config.reconnect.enabled {
        StepModel::Finish(attempt)
    } else {
        match attempt {
            Ok(_) => StepModel::Finish(Ok(())),
            Err(error) => if limit_reached(config, retries) {
                StepModel::Finish(Err(exhausted(retry_limit(config)->Some_0, error)))
            } else if recoverable(error) {
                StepModel::Retry(attempt_number(retries, 0))
            } else {
                StepModel::Finish(Err(error))
            },
        }
    }
}

/// The events to publish when the attempts are given up with an error.
pub open spec fn given_up_events(error: ErrorModel) -> Seq<EventModel> {
    seq![EventModel::ReconnectFailed(error_text(error)), EventModel::Error(error)]
}

/// The events to publish after an attempt, where `retries` attempts to connect again have been
/// made.
pub open spec fn retry_events(
    config: ClientConfig,
    retries: u32,
    attempt: Result<(), ErrorModel>,
) -> Seq<EventModel> {
    if !config.reconnect.enabled {
        Seq::empty()
    } else {
        match attempt {
            Ok(_) => if retries > 0 {
                seq![EventModel::Reconnected]
            } else {
                Seq::empty()
            },
            Err(error) => if limit_reached(config, retries) {
                given_up_events(exhausted(retry_limit(config)->Some_0, error))
            } else if recoverable(error) {
                seq![EventModel::Reconnecting(attempt_number(retries, 0))]
            } else {
                seq![EventModel::Error(error)]
            },
        }
    }
}

/// The connection after an attempt: a new attempt is noted, anything else leaves it as it is.
pub open spec fn after_retry(before: ConnectionModel, step: StepModel) -> ConnectionModel {
    match step {
        StepModel::Retry(attempt) => ConnectionModel {
            state: StateModel::Reconnecting,
            retry_count: attempt,
            ..before
        },
        StepModel::Finish(_) => before,
    }
}

impl ConnectionManager {
    /// A connection that has not been made yet.
    pub fn new(config: ClientConfig) -> (manager: Self)
        ensures
            manager@ == (ConnectionModel { config, state: StateModel::Disconnected, retry_count: 0 }),
    {
        ConnectionManager { config, state: ConnectionState::Disconnected, retry_count: 0 }
    }

    /// Moves to another state.
    fn set_state(&mut self, new_state: ConnectionState)
        ensures
            final(self)@ == (ConnectionModel { state: new_state@, ..old(self)@ }),
    {
        if !(self.state == new_state) {
            self.state = new_state;
        }
    }

    /// Begins an attempt to connect, and says where to.
    pub fn connect(&mut self) -> (dial: Dial)
        ensures
            final(self)@ == (ConnectionModel { state: StateModel::Connecting, ..old(self)@ }),
            dial.url == old(self)@.config.url,
            dial.timeout == old(self)@.config.connect_timeout,
    {
        self.set_state(ConnectionState::Connecting);
        Dial { url: self.config.url.clone(), timeout: self.config.connect_timeout }
    }

    /// Ends an attempt to connect.
    pub fn finish_connect(&mut self, outcome: ConnectOutcome) -> (report: ConnectReport)
        ensures
            final(self)@ == after_connect(old(self)@, outcome),
            result_model(report.result) == connect_result(outcome),
            report.event@ == connect_event(connect_result(outcome)),
    {
        match outcome {
            ConnectOutcome::Established => {
                self.set_state(ConnectionState::Connected);
                self.retry_count = 0;
                ConnectReport { result: Ok(()), event: EventBuilder::connected() }
            },
            ConnectOutcome::Refused(reason) => {
                let text = prefixed("WebSocket 连接失败: ", reason.as_str());
                self.set_state(ConnectionState::Failed(text.clone()));
                let error = WebSocketError::ConnectionFailed(text);
                ConnectReport { result: Err(error.clone()), event: EventBuilder::error(error) }
            },
            ConnectOutcome::TimedOut => {
                let span = duration_text(self.config.connect_timeout);
                let text = prefixed("连接超时，超时时间: ", span.as_str());
                self.set_state(ConnectionState::Failed(text));
                let error = WebSocketError::ConnectionTimeout;
                ConnectReport { result: Err(error.clone()), event: EventBuilder::error(error) }
            },
        }
    }

    /// Decides what follows from an attempt to connect, where `retries` attempts to connect again
    /// have been made before it. The first attempt of all has none before it.
    pub fn connect_with_retry(&mut self, retries: u32, attempt: WebSocketResult<()>) -> (report:
        RetryReport)
        ensures
            report.step@ == retry_step(
                old(self)@.config,
                retries,
                result_model(attempt),
            ),
            event_models(report.events@) == retry_events(
                old(self)@.config,
                retries,
                result_model(attempt),
            ),
            final(self)@ == after_retry(old(self)@, report.step@),
    {
        let mut events: Vec<WebSocketEvent> = Vec::new();
        if !self.config.reconnect.enabled {
            assert(event_models(events@) =~= Seq::empty());
            return RetryReport { step: RetryStep::Finish(attempt), events };
        }
        match attempt {
            Ok(_) => {
                if retries > 0 {
                    events.push(EventBuilder::reconnected());
                    assert(event_models(events@) =~= seq![EventModel::Reconnected]);
                } else {
                    assert(event_models(events@) =~= Seq::empty());
                }
                RetryReport { step: RetryStep::Finish(Ok(())), events }
            },
            Err(error) => {
                let ghost last = error@;
                let reached: Option<u32> = match self.config.reconnect.max_retries {
                    Some(limit) => if retries >= limit {
                        Some(limit)
                    } else {
                        None
                    },
                    None => None,
                };
                if let Some(limit) = reached {
                    let count = prefixed("达到最大重连次数 ", decimal_text(limit).as_str());
                    let text = count.concat(", 最后错误: ").concat(error.to_string().as_str());
                    let final_error = WebSocketError::ReconnectFailed(text);
                    events.push(EventBuilder::reconnect_failed(final_error.to_string()));
                    events.push(EventBuilder::error(final_error.clone()));
                    assert(final_error@ == exhausted(limit, last));
                    assert(event_models(events@) =~= given_up_events(exhausted(limit, last)));
                    RetryReport { step: RetryStep::Finish(Err(final_error)), events }
                } else if ErrorClassifier::is_recoverable(&error) {
                    let next: u32 = if retries < u32::MAX {
                        retries + 1
                    } else {
                        u32::MAX
                    };
                    self.retry_count = next;
                    self.set_state(ConnectionState::Reconnecting);
                    events.push(EventBuilder::reconnecting(next));
                    assert(event_models(events@) =~= seq![EventModel::Reconnecting(next)]);
                    RetryReport { step: RetryStep::Retry(next), events }
                } else {
                    events.push(EventBuilder::error(error.clone()));
                    assert(event_models(events@) =~= seq![EventModel::Error(last)]);
                    RetryReport { step: RetryStep::Finish(Err(error)), events }
                }
            },
        }
    }

    /// What the wait before an attempt to connect again is computed from. The exponent is one less
    /// than the number of the attempt, up to the largest exponent.
    pub fn backoff_terms(&self, retry_count: u32) -> (terms: BackoffTerms)
        ensures
            terms.base_millis == self@.config.reconnect.initial_interval@ / NANOS_PER_MILLI as nat,
            terms.multiplier_bits == self@.config.reconnect.backoff_multiplier_bits,
            terms.exponent == backoff_exponent(retry_count),
            terms.max_millis == self@.config.reconnect.max_interval@ / NANOS_PER_MILLI as nat,
    {
        let exponent: i32 = if retry_count <= 0x8000_0000 {
            (retry_count as i64 - 1) as i32
        } else {
            i32::MAX
        };
        BackoffTerms {
            base_millis: self.config.reconnect.initial_interval.as_millis(),
            multiplier_bits: self.config.reconnect.backoff_multiplier_bits,
            exponent,
            max_millis: self.config.reconnect.max_interval.as_millis(),
        }
    }

    /// Ends the connection, and gives the event to publish.
    pub fn disconnect(&mut self, reason: Option<String>) -> (event: WebSocketEvent)
        ensures
            final(self)@ == (ConnectionModel { state: StateModel::Disconnected, ..old(self)@ }),
            event@ == EventModel::Disconnected(optional_text(reason)),
    {
        self.set_state(ConnectionState::Disconnected);
        EventBuilder::disconnected(reason)
    }

    /// The state of the connection.
    pub fn get_state(&self) -> (state: ConnectionState)
        ensures
            state@ == self@.state,
    {
        self.state.clone()
    }

    /// Tells whether there is a connection.
    pub fn is_connected(&self) -> (answer: bool)
        ensures
            answer == (self@.state == StateModel::Connected),
    {
        matches!(self.state, ConnectionState::Connected)
    }
}

/// An attempt to connect that fails leaves an error that a new connection can cure.
pub proof fn failed_connect_is_recoverable(outcome: ConnectOutcome)
    ensures
        connect_result(outcome) matches Err(error) ==> recoverable(error),
{
}

/// An attempt that succeeds, and no other, leaves the connection connected and without attempts to
/// connect again. One that was refused keeps in the state what its error says.
pub proof fn outcome_shows_in_state(before: ConnectionModel, outcome: ConnectOutcome)
    ensures
        after_connect(before, outcome).state == StateModel::Connected <==> outcome is Established,
        outcome is Established ==> after_connect(before, outcome).retry_count == 0,
        connect_result(outcome) matches Err(ErrorModel::ConnectionFailed(text)) ==> after_connect(
            before,
            outcome,
        ).state == StateModel::Failed(text),
{
}

/// How many attempts are made where `retries` attempts to connect again have been made before,
/// if they end as `outcomes` says.
pub open spec fn attempts_made(
    config: ClientConfig,
    retries: u32,
    outcomes: Seq<Result<(), ErrorModel>>,
) -> nat
    decreases outcomes.len(),
{
    if outcomes.len() == 0 {
        0
    } else {
        match retry_step(config, retries, outcomes.first()) {
            StepModel::Finish(_) => 1,
            StepModel::Retry(next) => 1 + attempts_made(config, next, outcomes.drop_first()),
        }
    }
}

/// What the attempts come to in the end, if they end as `outcomes` says; nothing if more of them
/// are due.
pub open spec fn final_result(
    config: ClientConfig,
    retries: u32,
    outcomes: Seq<Result<(), ErrorModel>>,
) -> Option<Result<(), ErrorModel>>
    decreases outcomes.len(),
{
    if outcomes.len() == 0 {
        None
    } else {
        match retry_step(config, retries, outcomes.first()) {
            StepModel::Finish(result) => Some(result),
            StepModel::Retry(next) => final_result(config, next, outcomes.drop_first()),
        }
    }
}

/// The events that the attempts publish beyond those of each single one.
pub open spec fn published_events(
    config: ClientConfig,
    retries: u32,
    outcomes: Seq<Result<(), ErrorModel>>,
) -> Seq<EventModel>
    decreases outcomes.len(),
{
    if outcomes.len() == 0 {
        Seq::empty()
    } else {
        retry_events(config, retries, outcomes.first()) + match retry_step(
            config,
            retries,
            outcomes.first(),
        ) {
            StepModel::Finish(_) => Seq::empty(),
            StepModel::Retry(next) => published_events(config, next, outcomes.drop_first()),
        }
    }
}

/// The announcements of the next `count` attempts to connect again, by their numbers.
pub open spec fn announcements(retries: u32, count: nat) -> Seq<EventModel> {
    Seq::new(count, |i: int| EventModel::Reconnecting(attempt_number(retries, i)))
}

/// Every attempt fails with an error that a new connection can cure.
pub open spec fn all_curable(outcomes: Seq<Result<(), ErrorModel>>) -> bool {
    forall|i: int|
        0 <= i < outcomes.len() ==> (#[trigger] outcomes[i] matches Err(error) && recoverable(error))
}

/// The first of the announcements is that of the next attempt.
proof fn announcements_unfold(retries: u32, count: nat)
    requires
        count > 0,
    ensures
        announcements(retries, count) == seq![
            EventModel::Reconnecting(attempt_number(retries, 0)),
        ] + announcements(attempt_number(retries, 0), (count - 1) as nat),
{
    assert(announcements(retries, count) =~= seq![
        EventModel::Reconnecting(attempt_number(retries, 0)),
    ] + announcements(attempt_number(retries, 0), (count - 1) as nat));
}

/// Where there is a limit, no more attempts than that follow the first one, however they end.
pub proof fn attempts_are_bounded(
    config: ClientConfig,
    retries: u32,
    outcomes: Seq<Result<(), ErrorModel>>,
)
    requires
        retry_limit(config) matches Some(limit) && retries <= limit,
    ensures
        attempts_made(config, retries, outcomes) <= retry_limit(config)->Some_0 - retries + 1,
    decreases outcomes.len(),
{
    if outcomes.len() > 0 {
        match retry_step(config, retries, outcomes.first()) {
            StepModel::Finish(_) => {},
            StepModel::Retry(next) => {
                attempts_are_bounded(config, next, outcomes.drop_first());
            },
        }
    }
}

/// If there is a limit and every attempt fails with an error that a new connection can cure, as
/// many attempts are made as the limit allows, the outcome is that they were given up after the
/// last error, and the attempts to connect again are announced by their number, in order, before
/// that is reported.
pub proof fn persistent_failure_is_given_up(
    config: ClientConfig,
    retries: u32,
    outcomes: Seq<Result<(), ErrorModel>>,
)
    requires
        config.reconnect.enabled,
        retry_limit(config) matches Some(limit) && retries <= limit && outcomes.len() == limit
            - retries + 1,
        all_curable(outcomes),
    ensures
        attempts_made(config, retries, outcomes) == outcomes.len(),
        final_result(config, retries, outcomes) == Some(
            Err::<(), ErrorModel>(
                exhausted(retry_limit(config)->Some_0, outcomes.last()->Err_0),
            ),
        ),
        published_events(config, retries, outcomes) == announcements(
            retries,
            (outcomes.len() - 1) as nat,
        ) + given_up_events(exhausted(retry_limit(config)->Some_0, outcomes.last()->Err_0)),
    decreases outcomes.len(),
{
    let limit = retry_limit(config)->Some_0;
    let report = given_up_events(exhausted(limit, outcomes.last()->Err_0));
    assert(outcomes[0] matches Err(error) && recoverable(error));
    let rest = outcomes.drop_first();
    if retries == limit {
        assert(outcomes.last() == outcomes[0]);
        assert(published_events(config, retries, outcomes) =~= announcements(retries, 0) + report);
    } else {
        let next = attempt_number(retries, 0);
        assert(forall|i: int| 0 <= i < rest.len() ==> (#[trigger] rest[i]) == outcomes[i + 1]);
        persistent_failure_is_given_up(config, next, rest);
        assert(rest.last() == outcomes.last());
        announcements_unfold(retries, (outcomes.len() - 1) as nat);
        assert(published_events(config, retries, outcomes) =~= announcements(
            retries,
            (outcomes.len() - 1) as nat,
        ) + report);
    }
}

/// Without a limit the attempts go on for as long as they fail with errors that a new connection
/// can cure, however many they are: each of them is followed by another, announced by its number,
/// and there is no outcome yet.
pub proof fn unlimited_attempts_go_on(
    config: ClientConfig,
    retries: u32,
    outcomes: Seq<Result<(), ErrorModel>>,
)
    requires
        config.reconnect.enabled,
        retry_limit(config) is None,
        all_curable(outcomes),
    ensures
        attempts_made(config, retries, outcomes) == outcomes.len(),
        final_result(config, retries, outcomes) is None,
        published_events(config, retries, outcomes) == announcements(retries, outcomes.len()),
    decreases outcomes.len(),
{
    if outcomes.len() == 0 {
        assert(announcements(retries, 0) =~= Seq::empty());
    } else {
        assert(outcomes[0] matches Err(error) && recoverable(error));
        let rest = outcomes.drop_first();
        assert(forall|i: int| 0 <= i < rest.len() ==> (#[trigger] rest[i]) == outcomes[i + 1]);
        unlimited_attempts_go_on(config, attempt_number(retries, 0), rest);
        announcements_unfold(retries, outcomes.len());
    }
}

/// If the attempts fail with errors that a new connection can cure until one succeeds, within the
/// limit if there is one, the outcome is success. The attempts to connect again are announced by
/// their number, in order, and if there were any, the last event says that the connection was made
/// again.
pub proof fn late_success_is_reported(
    config: ClientConfig,
    retries: u32,
    outcomes: Seq<Result<(), ErrorModel>>,
)
    requires
        config.reconnect.enabled,
        outcomes.len() > 0,
        retry_limit(config) matches Some(limit) ==> retries + outcomes.len() <= limit + 1,
        outcomes.last() is Ok,
        all_curable(outcomes.drop_last()),
    ensures
        attempts_made(config, retries, outcomes) == outcomes.len(),
        final_result(config, retries, outcomes) == Some(Ok::<(), ErrorModel>(())),
        published_events(config, retries, outcomes) == if retries + outcomes.len() > 1 {
            announcements(retries, (outcomes.len() - 1) as nat).push(EventModel::Reconnected)
        } else {
            Seq::empty()
        },
    decreases outcomes.len(),
{
    let rest = outcomes.drop_first();
    let count = (outcomes.len() - 1) as nat;
    if outcomes.len() == 1 {
        assert(outcomes.last() == outcomes[0]);
        assert(published_events(config, retries, outcomes) =~= if retries > 0 {
            announcements(retries, 0).push(EventModel::Reconnected)
        } else {
            Seq::empty()
        });
    } else {
        assert(outcomes.drop_last()[0] matches Err(error) && recoverable(error));
        assert(outcomes[0] == outcomes.drop_last()[0]);
        assert forall|i: int| 0 <= i < rest.drop_last().len() implies (#[trigger] rest.drop_last()[i] matches Err(
            error,
        ) && recoverable(error)) by {
            assert(rest.drop_last()[i] == outcomes.drop_last()[i + 1]);
        }
        assert(rest.last() == outcomes.last());
        late_success_is_reported(config, attempt_number(retries, 0), rest);
        announcements_unfold(retries, count);
        assert(published_events(config, retries, outcomes) =~= announcements(retries, count).push(
            EventModel::Reconnected,
        ));
    }
}

/// Without reconnection the first attempt decides: whatever it comes to is the outcome, and
/// nothing is published beyond it.
pub proof fn single_attempt_without_reconnect(
    config: ClientConfig,
    outcomes: Seq<Result<(), ErrorModel>>,
)
    requires
        !config.reconnect.enabled,
        outcomes.len() > 0,
    ensures
        attempts_made(config, 0, outcomes) == 1,
        final_result(config, 0, outcomes) == Some(outcomes.first()),
        published_events(config, 0, outcomes) == Seq::<EventModel>::empty(),
{
}

} // verus!
