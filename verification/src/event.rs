//! Events: what the client reports, and who hears of it.
use vstd::prelude::*;

use crate::error::{ErrorModel, WebSocketError, WebSocketResult};
use crate::message::{optional_text, Message, MessageModel};
use crate::table::Table;

verus! {

/// What the client reports.
#[derive(Debug)]
pub enum WebSocketEvent {
    /// The connection was made.
    Connected,
    /// The connection ended, for the given reason.
    Disconnected(Option<String>),
    /// The given attempt to connect again begins.
    Reconnecting(u32),
    /// An attempt to connect again succeeded.
    Reconnected,
    /// The attempts to connect again were given up.
    ReconnectFailed(String),
    /// A message came in.
    MessageReceived(Message),
    /// A message was sent.
    MessageSent(Message),
    /// A message could not be sent.
    MessageSendFailed(Message, String),
    /// A heartbeat was sent.
    HeartbeatSent,
    /// A heartbeat was answered.
    HeartbeatReceived,
    /// A heartbeat was not answered in time.
    HeartbeatTimeout,
    /// Something went wrong.
    Error(WebSocketError),
}

/// The mathematical model of [`WebSocketEvent`].
pub enum EventModel {
    Connected,
    Disconnected(Option<Seq<char>>),
    Reconnecting(u32),
    Reconnected,
    ReconnectFailed(Seq<char>),
    MessageReceived(MessageModel),
    MessageSent(MessageModel),
    MessageSendFailed(MessageModel, Seq<char>),
    HeartbeatSent,
    HeartbeatReceived,
    HeartbeatTimeout,
    Error(ErrorModel),
}

impl View for WebSocketEvent {
    type V = EventModel;

    open spec fn view(&self) -> EventModel {
        match self {
            WebSocketEvent::Connected => EventModel::Connected,
            WebSocketEvent::Disconnected(reason) => EventModel::Disconnected(
                optional_text(*reason),
            ),
            WebSocketEvent::Reconnecting(attempt) => EventModel::Reconnecting(*attempt),
            WebSocketEvent::Reconnected => EventModel::Reconnected,
            WebSocketEvent::ReconnectFailed(reason) => EventModel::ReconnectFailed(reason@),
            WebSocketEvent::MessageReceived(message) => EventModel::MessageReceived(message@),
            WebSocketEvent::MessageSent(message) => EventModel::MessageSent(message@),
            WebSocketEvent::MessageSendFailed(message, reason) => EventModel::MessageSendFailed(
                message@,
                reason@,
            ),
            WebSocketEvent::HeartbeatSent => EventModel::HeartbeatSent,
            WebSocketEvent::HeartbeatReceived => EventModel::HeartbeatReceived,
            WebSocketEvent::HeartbeatTimeout => EventModel::HeartbeatTimeout,
            WebSocketEvent::Error(error) => EventModel::Error(error@),
        }
    }
}

/// The models of a sequence of events.
pub open spec fn event_models(events: Seq<WebSocketEvent>) -> Seq<EventModel> {
    events.map_values(|event: WebSocketEvent| event@)
}

impl Clone for WebSocketEvent {
    fn clone(&self) -> (copy: Self)
        ensures
            copy@ == self@,
    {
        match self {
            WebSocketEvent::Connected => WebSocketEvent::Connected,
            WebSocketEvent::Disconnected(reason) => WebSocketEvent::Disconnected(
                match reason {
                    Some(reason) => Some(reason.clone()),
                    None => None,
                },
            ),
            WebSocketEvent::Reconnecting(attempt) => WebSocketEvent::Reconnecting(*attempt),
            WebSocketEvent::Reconnected => WebSocketEvent::Reconnected,
            WebSocketEvent::ReconnectFailed(reason) => WebSocketEvent::ReconnectFailed(
                reason.clone(),
            ),
            WebSocketEvent::MessageReceived(message) => WebSocketEvent::MessageReceived(
                message.clone(),
            ),
            WebSocketEvent::MessageSent(message) => WebSocketEvent::MessageSent(message.clone()),
            WebSocketEvent::MessageSendFailed(message, reason) => WebSocketEvent::MessageSendFailed(
                message.clone(),
                reason.clone(),
            ),
            WebSocketEvent::HeartbeatSent => WebSocketEvent::HeartbeatSent,
            WebSocketEvent::HeartbeatReceived => WebSocketEvent::HeartbeatReceived,
            WebSocketEvent::HeartbeatTimeout => WebSocketEvent::HeartbeatTimeout,
            WebSocketEvent::Error(error) => WebSocketEvent::Error(error.clone()),
        }
    }
}

/// Builds the events.
pub struct EventBuilder;

impl EventBuilder {
    /// The connection was made.
    pub fn connected() -> (event: WebSocketEvent)
        ensures
            event@ == EventModel::Connected,
    {
        WebSocketEvent::Connected
    }

    /// The connection ended.
    pub fn disconnected(reason: Option<String>) -> (event: WebSocketEvent)
        ensures
            event@ == EventModel::Disconnected(optional_text(reason)),
    {
        WebSocketEvent::Disconnected(reason)
    }

    /// An attempt to connect again begins.
    pub fn reconnecting(attempt: u32) -> (event: WebSocketEvent)
        ensures
            event@ == EventModel::Reconnecting(attempt),
    {
        WebSocketEvent::Reconnecting(attempt)
    }

    /// An attempt to connect again succeeded.
    pub fn reconnected() -> (event: WebSocketEvent)
        ensures
            event@ == EventModel::Reconnected,
    {
        WebSocketEvent::Reconnected
    }

    /// The attempts to connect again were given up.
    pub fn reconnect_failed(reason: String) -> (event: WebSocketEvent)
        ensures
            event@ == EventModel::ReconnectFailed(reason@),
    {
        WebSocketEvent::ReconnectFailed(reason)
    }

    /// A message came in.
    pub fn message_received(message: Message) -> (event: WebSocketEvent)
        ensures
            event@ == EventModel::MessageReceived(message@),
    {
        WebSocketEvent::MessageReceived(message)
    }

    /// A message was sent.
    pub fn message_sent(message: Message) -> (event: WebSocketEvent)
        ensures
            event@ == EventModel::MessageSent(message@),
    {
        WebSocketEvent::MessageSent(message)
    }

    /// A message could not be sent.
    pub fn message_send_failed(message: Message, reason: String) -> (event: WebSocketEvent)
        ensures
            event@ == EventModel::MessageSendFailed(message@, reason@),
    {
        WebSocketEvent::MessageSendFailed(message, reason)
    }

    /// A heartbeat was sent.
    pub fn heartbeat_sent() -> (event: WebSocketEvent)
        ensures
            event@ == EventModel::HeartbeatSent,
    {
        WebSocketEvent::HeartbeatSent
    }

    /// A heartbeat was answered.
    pub fn heartbeat_received() -> (event: WebSocketEvent)
        ensures
            event@ == EventModel::HeartbeatReceived,
    {
        WebSocketEvent::HeartbeatReceived
    }

    /// A heartbeat was not answered in time.
    pub fn heartbeat_timeout() -> (event: WebSocketEvent)
        ensures
            event@ == EventModel::HeartbeatTimeout,
    {
        WebSocketEvent::HeartbeatTimeout
    }

    /// Something went wrong.
    pub fn error(error: WebSocketError) -> (event: WebSocketEvent)
        ensures
            event@ == EventModel::Error(error@),
    {
        WebSocketEvent::Error(error)
    }
}

/// `tokio::sync::broadcast::Sender`, the sending end of the channel of the subscribers.
#[verifier::external_type_specification]
#[verifier::external_body]
#[verifier::reject_recursive_types(T)]
pub struct ExBroadcastSender<T>(tokio::sync::broadcast::Sender<T>);

/// `tokio::sync::broadcast::Receiver`, what a subscriber reads the events from.
#[verifier::external_type_specification]
#[verifier::external_body]
#[verifier::reject_recursive_types(T)]
pub struct ExBroadcastReceiver<T>(tokio::sync::broadcast::Receiver<T>);

/// The capacities that `tokio::sync::broadcast::channel` accepts: it panics on the others.
pub open spec fn valid_capacity(capacity: usize) -> bool {
    0 < capacity <= usize::MAX / 2
}

/// The capacity that a channel was made with.
pub uninterp spec fn channel_capacity(
    sender: tokio::sync::broadcast::Sender<WebSocketEvent>,
) -> usize;

/// The sending end of the channel that a receiver reads from.
pub uninterp spec fn source_of(
    receiver: tokio::sync::broadcast::Receiver<WebSocketEvent>,
) -> tokio::sync::broadcast::Sender<WebSocketEvent>;

/// `tokio::sync::broadcast::channel`: the sending end of a new channel of the given capacity. The
/// receiver that comes with it is let go, so that the channel begins without subscribers.
#[verifier::external_body]
fn open_channel(capacity: usize) -> (sender: tokio::sync::broadcast::Sender<WebSocketEvent>)
    requires
        valid_capacity(capacity),
    ensures
        channel_capacity(sender) == capacity,
{
    let (sender, _) = tokio::sync::broadcast::channel(capacity);
    sender
}

/// `tokio::sync::broadcast::Sender::send`: hands an event to the subscribers there are at that
/// moment, or gives the event back if there is none. Which of the two, and how many they are,
/// depends on who else has subscribed. That the subscribers find the event in the channel is not
/// said: the channel is shared, and its contents change under everyone who holds it.
#[verifier::external_body]
fn broadcast(
    sender: &tokio::sync::broadcast::Sender<WebSocketEvent>,
    event: WebSocketEvent,
) -> (receivers: Result<usize, WebSocketEvent>)
    ensures
        match receivers {
            Ok(count) => count > 0,
            Err(returned) => returned == event,
        },
{
    match sender.send(event) {
        Ok(count) => Ok(count),
        Err(error) => Err(error.0),
    }
}

/// An event was handed to a channel, which answered with `receivers`: an answer of
/// `tokio::sync::broadcast::Sender::send` on that channel and that event.
pub closed spec fn was_sent(
    sender: tokio::sync::broadcast::Sender<WebSocketEvent>,
    event: WebSocketEvent,
    receivers: Result<usize, WebSocketEvent>,
) -> bool {
    call_ensures(broadcast, (&sender, event), receivers)
}

/// `tokio::sync::broadcast::Sender::subscribe`: a new receiver of the channel. It would panic on a
/// quarter of all `usize` receivers, which no memory holds. What the receiver will yield depends on
/// what is sent from then on, and is not said.
#[verifier::external_body]
fn new_receiver(sender: &tokio::sync::broadcast::Sender<WebSocketEvent>) -> (receiver:
    tokio::sync::broadcast::Receiver<WebSocketEvent>)
    ensures
        source_of(receiver) == *sender,
{
    sender.subscribe()
}

/// `tokio::sync::broadcast::Sender::receiver_count`: how many receivers there are at that moment.
/// Others may subscribe and leave at any time, so that nothing is claimed of it.
pub assume_specification<T>[ tokio::sync::broadcast::Sender::<T>::receiver_count ](
    sender: &tokio::sync::broadcast::Sender<T>,
) -> (count: usize)
;

/// A handler that refused an event, and the error that it gave.
#[derive(Debug)]
pub struct HandlerFailure {
    /// The name of the handler.
    pub name: String,
    /// Why it refused the event.
    pub error: WebSocketError,
}

/// `answer` is what a handler answered on a copy of an event.
pub open spec fn one_answered<H: Fn(WebSocketEvent) -> WebSocketResult<()>>(
    handler: H,
    event: EventModel,
    copy: WebSocketEvent,
    answer: WebSocketResult<()>,
) -> bool {
    copy@ == event && call_ensures(handler, (copy,), answer)
}

/// `answers` are what the handlers answered on an event, each on a copy of it.
pub open spec fn all_answered<H: Fn(WebSocketEvent) -> WebSocketResult<()>>(
    handlers: Seq<H>,
    event: EventModel,
    copies: Seq<WebSocketEvent>,
    answers: Seq<WebSocketResult<()>>,
) -> bool {
    &&& copies.len() == handlers.len()
    &&& answers.len() == handlers.len()
    &&& forall|i: int|
        0 <= i < handlers.len() ==> #[trigger] one_answered(
            handlers[i],
            event,
            copies[i],
            answers[i],
        )
}

/// The refusals among the answers of the handlers, in order, each with the handler's name.
pub open spec fn refusals(names: Seq<Seq<char>>, answers: Seq<WebSocketResult<()>>) -> Seq<
    (Seq<char>, ErrorModel),
>
    decreases answers.len(),
{
    if answers.len() == 0 {
        Seq::empty()
    } else {
        let earlier = refusals(names, answers.drop_last());
        match answers.last() {
            Ok(_) => earlier,
            Err(error) => earlier.push((names[answers.len() - 1], error@)),
        }
    }
}

/// The model of a list of refusals.
pub open spec fn failure_models(failures: Seq<HandlerFailure>) -> Seq<(Seq<char>, ErrorModel)> {
    failures.map_values(|failure: HandlerFailure| (failure.name@, failure.error@))
}

/// Every handler of the table can take every copy of the event.
pub open spec fn can_notify<H: Fn(WebSocketEvent) -> WebSocketResult<()>>(
    handlers: Table<String, H>,
    event: EventModel,
) -> bool {
    forall|name: Seq<char>, copy: WebSocketEvent|
        handlers@.contains_key(name) && copy@ == event ==> #[trigger] call_requires(
            handlers@[name],
            (copy,),
        )
}

/// What notifying the handlers of a table gives: each of them has answered, on a copy of the event,
/// and the refusals are reported.
pub open spec fn notified<H: Fn(WebSocketEvent) -> WebSocketResult<()>>(
    handlers: Table<String, H>,
    event: EventModel,
    failures: Seq<HandlerFailure>,
) -> bool {
    handlers.listed() && exists|copies: Seq<WebSocketEvent>, answers: Seq<WebSocketResult<()>>|
        #[trigger] all_answered(handlers.values(), event, copies, answers) && failure_models(
            failures,
        ) == refusals(handlers.keys(), answers)
}

/// Hands an event to each handler of a table. One that refuses it keeps no other from it.
pub fn notify<H: Fn(WebSocketEvent) -> WebSocketResult<()>>(
    handlers: &Table<String, H>,
    event: &WebSocketEvent,
) -> (failures: Vec<HandlerFailure>)
    requires
        can_notify(*handlers, event@),
    ensures
        notified(*handlers, event@, failures@),
{
    let ghost mut copies: Seq<WebSocketEvent> = Seq::empty();
    let ghost mut answers: Seq<WebSocketResult<()>> = Seq::empty();
    let mut failures: Vec<HandlerFailure> = Vec::new();
    let count: usize = handlers.len();
    let mut i: usize = 0;
    assert(failure_models(failures@) =~= refusals(handlers.keys(), answers));
    while i < count
        invariant
            i <= count,
            count == handlers.values().len(),
            count == handlers.keys().len(),
            handlers.listed(),
            can_notify(*handlers, event@),
            copies.len() == i,
            answers.len() == i,
            forall|j: int|
                0 <= j < i ==> #[trigger] one_answered(
                    handlers.values()[j],
                    event@,
                    copies[j],
                    answers[j],
                ),
            failure_models(failures@) == refusals(handlers.keys(), answers),
        decreases count - i,
    {
        let handler = handlers.value_at(i);
        let copy = event.clone();
        assert(handlers@.contains_key(handlers.keys()[i as int]));
        assert(call_requires(handlers@[handlers.keys()[i as int]], (copy,)));
        let ghost handed = copy;
        let answer = handler(copy);
        let ghost before = answers;
        let ghost listed = failures@;
        proof {
            assert(one_answered(handlers.values()[i as int], event@, handed, answer));
            let earlier = copies;
            copies = copies.push(handed);
            answers = answers.push(answer);
            assert(answers.drop_last() =~= before);
            assert forall|j: int| 0 <= j < i + 1 implies #[trigger] one_answered(
                handlers.values()[j],
                event@,
                copies[j],
                answers[j],
            ) by {
                if j < i {
                    assert(one_answered(handlers.values()[j], event@, earlier[j], before[j]));
                }
            }
        }
        match answer {
            Ok(_) => {},
            Err(error) => {
                let name = handlers.key_at(i).clone();
                let failure = HandlerFailure { name, error };
                failures.push(failure);
                assert(failure_models(failures@) =~= failure_models(listed).push(
                    (name@, error@),
                ));
            },
        }
        i = i + 1;
    }
    assert(all_answered(handlers.values(), event@, copies, answers));
    failures
}

/// Brings events to the subscribers and to the registered handlers.
pub struct EventBus<H: Fn(WebSocketEvent) -> WebSocketResult<()>> {
    sender: tokio::sync::broadcast::Sender<WebSocketEvent>,
    handlers: Table<String, H>,
}

/// Whom an event reached.
#[derive(Debug)]
pub struct Delivery {
    /// How many subscribers it was handed to, or the event itself if there was none.
    pub receivers: Result<usize, WebSocketEvent>,
    /// The handlers that refused it.
    pub failures: Vec<HandlerFailure>,
}

impl<H: Fn(WebSocketEvent) -> WebSocketResult<()>> EventBus<H> {
    /// The registered handlers, by name.
    pub closed spec fn handlers(&self) -> Table<String, H> {
        self.handlers
    }

    /// The channel of the subscribers.
    pub closed spec fn channel(&self) -> tokio::sync::broadcast::Sender<WebSocketEvent> {
        self.sender
    }

    /// A bus whose subscribers may fall behind by `capacity` events.
    pub fn new(capacity: usize) -> (bus: Self)
        requires
            valid_capacity(capacity),
        ensures
            bus.handlers()@ == Map::<Seq<char>, H>::empty(),
            channel_capacity(bus.channel()) == capacity,
    {
        EventBus { sender: open_channel(capacity), handlers: Table::new() }
    }

    /// A bus whose subscribers may fall behind by a thousand events.
    pub fn default() -> (bus: Self)
        ensures
            bus.handlers()@ == Map::<Seq<char>, H>::empty(),
            channel_capacity(bus.channel()) == 1000,
    {
        Self::new(1000)
    }

    /// Brings an event to the subscribers and to every handler, and tells whom it reached. A
    /// handler that refuses the event keeps no other from it.
    pub fn deliver(&self, event: WebSocketEvent) -> (delivery: Delivery)
        requires
            can_notify(self.handlers(), event@),
        ensures
            exists|copy: WebSocketEvent| #[trigger]
                was_sent(self.channel(), copy, delivery.receivers) && copy@ == event@,
            match delivery.receivers {
                Ok(count) => count > 0,
                Err(returned) => returned@ == event@,
            },
            notified(self.handlers(), event@, delivery.failures@),
    {
        let copy = event.clone();
        let ghost handed = copy;
        let receivers = broadcast(&self.sender, copy);
        assert(was_sent(self.channel(), handed, receivers));
        let failures = notify(&self.handlers, &event);
        Delivery { receivers, failures }
    }

    /// Publishes an event: brings it to the subscribers and to every handler. That nobody
    /// listens, or that a handler refuses the event, is no error.
    pub fn publish(&self, event: WebSocketEvent) -> (result: WebSocketResult<()>)
        requires
            can_notify(self.handlers(), event@),
        ensures
            result is Ok,
            exists|copy: WebSocketEvent, receivers: Result<usize, WebSocketEvent>| #[trigger]
                was_sent(self.channel(), copy, receivers) && copy@ == event@,
            exists|failures: Seq<HandlerFailure>| #[trigger]
                notified(self.handlers(), event@, failures),
    {
        let ghost model = event@;
        let delivery = self.deliver(event);
        assert(notified(self.handlers(), model, delivery.failures@));
        Ok(())
    }

    /// Registers a handler under a name, in place of any other under that name.
    pub fn register_handler(&mut self, name: String, handler: H)
        ensures
            final(self).handlers()@ == old(self).handlers()@.insert(name@, handler),
            final(self).channel() == old(self).channel(),
    {
        self.handlers.insert(name, handler);
    }

    /// Removes the handler under a name, if there is one.
    pub fn unregister_handler(&mut self, name: &str)
        ensures
            final(self).handlers()@ == old(self).handlers()@.remove(name@),
            final(self).channel() == old(self).channel(),
    {
        let _ = self.handlers.remove(&name.to_string());
    }

    /// A new subscription to the events that are published from now on.
    pub fn subscribe(&self) -> (receiver: tokio::sync::broadcast::Receiver<WebSocketEvent>)
        ensures
            source_of(receiver) == self.channel(),
    {
        new_receiver(&self.sender)
    }

    /// How many subscriptions there are: what the channel of the bus answers.
    pub fn subscriber_count(&self) -> (count: usize)
        ensures
            call_ensures(
                tokio::sync::broadcast::Sender::<WebSocketEvent>::receiver_count,
                (&self.channel(),),
                count,
            ),
    {
        self.sender.receiver_count()
    }
}

/// What came out of a subscription.
#[derive(Debug)]
pub enum Received {
    /// An event.
    Event(WebSocketEvent),
    /// The subscription fell behind and lost so many events.
    Lagged(u64),
    /// The bus is gone.
    Closed,
}

/// What a listener does next.
#[derive(Debug)]
pub enum ListenStep {
    /// It waits for the next event. These handlers refused the last one.
    Continue(Vec<HandlerFailure>),
    /// It stops.
    Stop,
}

/// Hears the events of a bus with handlers of its own.
pub struct EventListener<H: Fn(WebSocketEvent) -> WebSocketResult<()>> {
    receiver: tokio::sync::broadcast::Receiver<WebSocketEvent>,
    handlers: Table<String, H>,
}

impl<H: Fn(WebSocketEvent) -> WebSocketResult<()>> EventListener<H> {
    /// The handlers of the listener, by name.
    pub closed spec fn handlers(&self) -> Table<String, H> {
        self.handlers
    }

    /// The subscription of the listener.
    pub closed spec fn receiver(&self) -> tokio::sync::broadcast::Receiver<WebSocketEvent> {
        self.receiver
    }

    /// A listener to the events of a bus, without handlers.
    pub fn new<B: Fn(WebSocketEvent) -> WebSocketResult<()>>(event_bus: &EventBus<B>) -> (listener:
        Self)
        ensures
            listener.handlers()@ == Map::<Seq<char>, H>::empty(),
            source_of(listener.receiver()) == event_bus.channel(),
    {
        EventListener { receiver: event_bus.subscribe(), handlers: Table::new() }
    }

    /// Registers a handler under a name, in place of any other under that name.
    pub fn register_handler(&mut self, name: String, handler: H)
        ensures
            final(self).handlers()@ == old(self).handlers()@.insert(name@, handler),
            final(self).receiver() == old(self).receiver(),
    {
        self.handlers.insert(name, handler);
    }

    /// The subscription, to wait for the next event on.
    pub fn receiver_mut(&mut self) -> (receiver: &mut tokio::sync::broadcast::Receiver<
        WebSocketEvent,
    >)
        ensures
            *receiver == old(self).receiver(),
            final(self).receiver() == *final(receiver),
            final(self).handlers() == old(self).handlers(),
    {
        &mut self.receiver
    }

    /// Takes what came out of the subscription: an event goes to every handler, lost events are
    /// passed over, and the end of the bus ends the listening.
    pub fn listen(&self, received: Received) -> (step: ListenStep)
        requires
            received matches Received::Event(event) ==> can_notify(self.handlers(), event@),
        ensures
            match received {
                Received::Event(event) => step matches ListenStep::Continue(failures) && notified(
                    self.handlers(),
                    event@,
                    failures@,
                ),
                Received::Lagged(_) => step matches ListenStep::Continue(failures) && failures@
                    == Seq::<HandlerFailure>::empty(),
                Received::Closed => step is Stop,
            },
    {
        match received {
            Received::Event(event) => ListenStep::Continue(notify(&self.handlers, &event)),
            Received::Lagged(_) => ListenStep::Continue(Vec::new()),
            Received::Closed => ListenStep::Stop,
        }
    }
}

/// The refusals come from the answers: there are none if every handler accepts the event, and no
/// more than handlers.
pub proof fn refusals_are_answers(names: Seq<Seq<char>>, answers: Seq<WebSocketResult<()>>)
    ensures
        refusals(names, answers).len() <= answers.len(),
        (forall|i: int| 0 <= i < answers.len() ==> (#[trigger] answers[i]) is Ok) ==> refusals(
            names,
            answers,
        ) == Seq::<(Seq<char>, ErrorModel)>::empty(),
    decreases answers.len(),
{
    if answers.len() > 0 {
        refusals_are_answers(names, answers.drop_last());
        assert(answers.last() == answers[answers.len() - 1]);
        assert(forall|i: int|
            0 <= i < answers.len() - 1 ==> (#[trigger] answers.drop_last()[i]) == answers[i]);
    }
}

/// A handler that refuses an event in any case is among the reported ones, under its name, whatever
/// the other handlers answer.
pub proof fn refusal_is_reported<H: Fn(WebSocketEvent) -> WebSocketResult<()>>(
    handlers: Table<String, H>,
    event: EventModel,
    failures: Seq<HandlerFailure>,
    name: Seq<char>,
)
    requires
        notified(handlers, event, failures),
        handlers@.contains_key(name),
        forall|copy: WebSocketEvent, answer: WebSocketResult<()>| #[trigger]
            one_answered(handlers@[name], event, copy, answer) ==> answer is Err,
    ensures
        exists|i: int| 0 <= i < failures.len() && (#[trigger] failures[i]).name@ == name,
{
    let (copies, answers) = choose|
        copies: Seq<WebSocketEvent>,
        answers: Seq<WebSocketResult<()>>,
    | #[trigger]
        all_answered(handlers.values(), event, copies, answers) && failure_models(failures)
            == refusals(handlers.keys(), answers);
    assert(handlers.keys().contains(name));
    let at = handlers.keys().index_of(name);
    assert(one_answered(handlers.values()[at], event, copies[at], answers[at]));
    refusal_is_listed(handlers.keys(), answers, at);
    let i = choose|i: int|
        0 <= i < refusals(handlers.keys(), answers).len() && (#[trigger] refusals(
            handlers.keys(),
            answers,
        )[i]).0 == name;
    assert(failure_models(failures)[i].0 == failures[i].name@);
}

/// A refusal among the answers is listed under the name of its handler.
proof fn refusal_is_listed(names: Seq<Seq<char>>, answers: Seq<WebSocketResult<()>>, at: int)
    requires
        0 <= at < answers.len(),
        answers[at] is Err,
    ensures
        exists|i: int|
            0 <= i < refusals(names, answers).len() && (#[trigger] refusals(names, answers)[i]).0
                == names[at],
    decreases answers.len(),
{
    let earlier = refusals(names, answers.drop_last());
    if at == answers.len() - 1 {
        assert(refusals(names, answers)[earlier.len() as int].0 == names[at]);
    } else {
        refusal_is_listed(names, answers.drop_last(), at);
        let i = choose|i: int| 0 <= i < earlier.len() && (#[trigger] earlier[i]).0 == names[at];
        assert(refusals(names, answers)[i] == earlier[i]);
    }
}

/// A handler that is registered and then removed leaves the handlers as they were, if there was
/// none under its name before.
pub proof fn removal_undoes_registration<H: Fn(WebSocketEvent) -> WebSocketResult<()>>(
    before: EventBus<H>,
    registered: EventBus<H>,
    after: EventBus<H>,
    name: Seq<char>,
    handler: H,
)
    requires
        !before.handlers()@.contains_key(name),
        registered.handlers()@ == before.handlers()@.insert(name, handler),
        after.handlers()@ == registered.handlers()@.remove(name),
    ensures
        after.handlers()@ == before.handlers()@,
{
    assert(before.handlers()@.insert(name, handler).remove(name) =~= before.handlers()@);
}

/// Of two handlers that are registered under one name, the later one stays, as if it had been the
/// only one.
pub proof fn later_registration_stays<H: Fn(WebSocketEvent) -> WebSocketResult<()>>(
    before: EventBus<H>,
    registered: EventBus<H>,
    after: EventBus<H>,
    name: Seq<char>,
    first: H,
    second: H,
)
    requires
        registered.handlers()@ == before.handlers()@.insert(name, first),
        after.handlers()@ == registered.handlers()@.insert(name, second),
    ensures
        after.handlers()@ == before.handlers()@.insert(name, second),
{
    assert(before.handlers()@.insert(name, first).insert(name, second)
        =~= before.handlers()@.insert(name, second));
}

} // verus!
