//! Laws of the events: what they carry, and who hears of them.
use vstd::prelude::*;

use crate::error::{WebSocketError, WebSocketResult};
use crate::event::{
    all_answered, channel_capacity, event_models, failure_models, notified, notify, one_answered,
    refusals, source_of, was_sent, Delivery, EventBuilder, EventBus, EventListener, HandlerFailure,
    ListenStep, Received, WebSocketEvent,
};
use crate::laws::message::{same_message, same_text};
use crate::message::Message;
use crate::table::Table;

verus! {

/// The models of events stand where the events stand.
pub proof fn events_have_their_models(events: Seq<WebSocketEvent>)
    ensures
        event_models(events).len() == events.len(),
        forall|i: int|
            0 <= i < events.len() ==> (#[trigger] events[i])@ == event_models(events)[i],
{
}

/// Two events are the same: of one variant, with the same contents.
pub open spec fn same_event(one: WebSocketEvent, other: WebSocketEvent) -> bool {
    match (one, other) {
        (WebSocketEvent::Connected, WebSocketEvent::Connected) => true,
        (WebSocketEvent::Disconnected(a), WebSocketEvent::Disconnected(b)) => same_text(a, b),
        (WebSocketEvent::Reconnecting(a), WebSocketEvent::Reconnecting(b)) => a == b,
        (WebSocketEvent::Reconnected, WebSocketEvent::Reconnected) => true,
        (WebSocketEvent::ReconnectFailed(a), WebSocketEvent::ReconnectFailed(b)) => a@ == b@,
        (WebSocketEvent::MessageReceived(a), WebSocketEvent::MessageReceived(b)) => same_message(
            a,
            b,
        ),
        (WebSocketEvent::MessageSent(a), WebSocketEvent::MessageSent(b)) => same_message(a, b),
        (
            WebSocketEvent::MessageSendFailed(a, c),
            WebSocketEvent::MessageSendFailed(b, d),
        ) => same_message(a, b) && c@ == d@,
        (WebSocketEvent::HeartbeatSent, WebSocketEvent::HeartbeatSent) => true,
        (WebSocketEvent::HeartbeatReceived, WebSocketEvent::HeartbeatReceived) => true,
        (WebSocketEvent::HeartbeatTimeout, WebSocketEvent::HeartbeatTimeout) => true,
        (WebSocketEvent::Error(a), WebSocketEvent::Error(b)) => a@ == b@,
        _ => false,
    }
}

/// Two events have one model exactly if they are the same.
pub proof fn models_tell_events_apart(one: WebSocketEvent, other: WebSocketEvent)
    ensures
        one@ == other@ <==> same_event(one, other),
{
}

/// A clone of an event is the same event.
pub proof fn clones_are_the_same(event: &WebSocketEvent, copy: WebSocketEvent)
    requires
        call_ensures(<WebSocketEvent as Clone>::clone, (event,), copy),
    ensures
        same_event(copy, *event),
{
    models_tell_events_apart(copy, *event);
}

/// Each builder makes the event of its name, with what it is given.
pub proof fn builders_make_their_events(
    event: WebSocketEvent,
    text: String,
    reason: Option<String>,
    count: u32,
    message: Message,
    error: WebSocketError,
)
    ensures
        call_ensures(EventBuilder::connected, (), event) ==> event is Connected,
        call_ensures(EventBuilder::disconnected, (reason,), event) ==> (
        event matches WebSocketEvent::Disconnected(kept) && same_text(kept, reason)),
        call_ensures(EventBuilder::reconnecting, (count,), event) ==> (
        event matches WebSocketEvent::Reconnecting(kept) && kept == count),
        call_ensures(EventBuilder::reconnected, (), event) ==> event is Reconnected,
        call_ensures(EventBuilder::reconnect_failed, (text,), event) ==> (
        event matches WebSocketEvent::ReconnectFailed(kept) && kept@ == text@),
        call_ensures(EventBuilder::message_received, (message,), event) ==> (
        event matches WebSocketEvent::MessageReceived(kept) && same_message(kept, message)),
        call_ensures(EventBuilder::message_sent, (message,), event) ==> (
        event matches WebSocketEvent::MessageSent(kept) && same_message(kept, message)),
        call_ensures(EventBuilder::message_send_failed, (message, text), event) ==> (
        event matches WebSocketEvent::MessageSendFailed(kept, why) && same_message(kept, message)
            && why@ == text@),
        call_ensures(EventBuilder::heartbeat_sent, (), event) ==> event is HeartbeatSent,
        call_ensures(EventBuilder::heartbeat_received, (), event) ==> event is HeartbeatReceived,
        call_ensures(EventBuilder::heartbeat_timeout, (), event) ==> event is HeartbeatTimeout,
        call_ensures(EventBuilder::error, (error,), event) ==> (
        event matches WebSocketEvent::Error(kept) && kept@ == error@),
{
}

/// A handler was called on a copy of an event, and answered.
pub open spec fn was_called<H: Fn(WebSocketEvent) -> WebSocketResult<()>>(
    handler: H,
    event: WebSocketEvent,
    copy: WebSocketEvent,
    answer: WebSocketResult<()>,
) -> bool {
    same_event(copy, event) && call_ensures(handler, (copy,), answer)
}

/// What a handler answered is what is reported under its name: nothing if it accepted the event, and
/// its error if it refused it.
pub open spec fn is_reported(
    name: Seq<char>,
    answer: WebSocketResult<()>,
    failures: Seq<HandlerFailure>,
) -> bool {
    match answer {
        Ok(_) => forall|i: int| 0 <= i < failures.len() ==> (#[trigger] failures[i]).name@ != name,
        Err(error) => exists|i: int|
            0 <= i < failures.len() && (#[trigger] failures[i]).name@ == name && failures[i].error@
                == error@,
    }
}

/// Every handler was called on a copy of an event, and what each of them answered is reported under its
/// name, once.
pub open spec fn was_heard<H: Fn(WebSocketEvent) -> WebSocketResult<()>>(
    handlers: Map<Seq<char>, H>,
    event: WebSocketEvent,
    failures: Seq<HandlerFailure>,
) -> bool {
    &&& forall|name: Seq<char>| #[trigger]
        handlers.contains_key(name) ==> exists|
            copy: WebSocketEvent,
            answer: WebSocketResult<()>,
        | #[trigger]
            was_called(handlers[name], event, copy, answer) && is_reported(name, answer, failures)
    &&& forall|i: int|
        0 <= i < failures.len() ==> handlers.contains_key((#[trigger] failures[i]).name@)
    &&& forall|i: int, j: int|
        0 <= i < j < failures.len() ==> (#[trigger] failures[i]).name@ != (
        #[trigger] failures[j]).name@
}

/// A refusal is listed with its error.
proof fn refusal_is_listed(names: Seq<Seq<char>>, answers: Seq<WebSocketResult<()>>, at: int)
    requires
        0 <= at < answers.len(),
        answers[at] is Err,
    ensures
        exists|i: int|
            0 <= i < refusals(names, answers).len() && #[trigger] refusals(names, answers)[i] == (
                names[at],
                answers[at]->Err_0@,
            ),
    decreases answers.len(),
{
    let earlier = refusals(names, answers.drop_last());
    if at == answers.len() - 1 {
        assert(refusals(names, answers)[earlier.len() as int] == (
            names[at],
            answers[at]->Err_0@,
        ));
    } else {
        refusal_is_listed(names, answers.drop_last(), at);
        let i = choose|i: int|
            0 <= i < earlier.len() && #[trigger] earlier[i] == (names[at], answers[at]->Err_0@);
        assert(refusals(names, answers)[i] == earlier[i]);
    }
}

/// What is listed is a refusal.
proof fn listed_is_refusal(names: Seq<Seq<char>>, answers: Seq<WebSocketResult<()>>, i: int)
    requires
        0 <= i < refusals(names, answers).len(),
    ensures
        exists|at: int|
            0 <= at < answers.len() && (#[trigger] answers[at]) is Err && refusals(
                names,
                answers,
            )[i].0 == names[at],
    decreases answers.len(),
{
    let earlier = refusals(names, answers.drop_last());
    if i < earlier.len() {
        listed_is_refusal(names, answers.drop_last(), i);
        let at = choose|at: int|
            0 <= at < answers.drop_last().len() && (#[trigger] answers.drop_last()[at]) is Err
                && earlier[i].0 == names[at];
        assert(answers[at] == answers.drop_last()[at]);
    } else {
        assert(answers[answers.len() - 1] is Err);
    }
}

/// No name is listed twice.
proof fn listed_names_differ(names: Seq<Seq<char>>, answers: Seq<WebSocketResult<()>>)
    requires
        names.no_duplicates(),
        answers.len() <= names.len(),
    ensures
        forall|i: int, j: int|
            0 <= i < j < refusals(names, answers).len() ==> (#[trigger] refusals(
                names,
                answers,
            )[i]).0 != (#[trigger] refusals(names, answers)[j]).0,
    decreases answers.len(),
{
    if answers.len() > 0 {
        let shorter = answers.drop_last();
        let earlier = refusals(names, shorter);
        listed_names_differ(names, shorter);
        assert forall|i: int, j: int| 0 <= i < j < refusals(names, answers).len() implies (
        #[trigger] refusals(names, answers)[i]).0 != (#[trigger] refusals(
            names,
            answers,
        )[j]).0 by {
            assert(refusals(names, answers)[i] == earlier[i]);
            if j < earlier.len() {
                assert(refusals(names, answers)[j] == earlier[j]);
            } else {
                listed_is_refusal(names, shorter, i);
            }
        }
    }
}

/// What the contracts say of the handlers of an event is that it was heard.
proof fn notifying_is_being_heard<H: Fn(WebSocketEvent) -> WebSocketResult<()>>(
    handlers: Table<String, H>,
    event: WebSocketEvent,
    failures: Seq<HandlerFailure>,
)
    requires
        notified(handlers, event@, failures),
    ensures
        was_heard(handlers@, event, failures),
{
    let (copies, answers) = choose|
        copies: Seq<WebSocketEvent>,
        answers: Seq<WebSocketResult<()>>,
    | #[trigger]
        all_answered(handlers.values(), event@, copies, answers) && failure_models(failures)
            == refusals(handlers.keys(), answers);
    let names = handlers.keys();
    let listed = refusals(names, answers);
    assert(failure_models(failures).len() == failures.len());
    assert(forall|i: int|
        0 <= i < failures.len() ==> #[trigger] failure_models(failures)[i] == (
            failures[i].name@,
            failures[i].error@,
        ));
    assert forall|i: int| 0 <= i < failures.len() implies (#[trigger] failures[i]).name@
        == listed[i].0 && failures[i].error@ == listed[i].1 by {
        assert(failure_models(failures)[i] == listed[i]);
    }
    listed_names_differ(names, answers);
    assert forall|i: int, j: int| 0 <= i < j < failures.len() implies (
    #[trigger] failures[i]).name@ != (#[trigger] failures[j]).name@ by {
        assert(listed[i].0 != listed[j].0);
    }
    assert forall|i: int| 0 <= i < failures.len() implies handlers@.contains_key(
        (#[trigger] failures[i]).name@,
    ) by {
        listed_is_refusal(names, answers, i);
        let at = choose|at: int|
            0 <= at < answers.len() && (#[trigger] answers[at]) is Err && listed[i].0 == names[at];
        assert(names.contains(names[at]));
    }
    assert forall|name: Seq<char>| #[trigger] handlers@.contains_key(name) implies exists|
        copy: WebSocketEvent,
        answer: WebSocketResult<()>,
    | #[trigger]
        was_called(handlers@[name], event, copy, answer) && is_reported(name, answer, failures) by {
        assert(names.contains(name));
        let at = names.index_of(name);
        assert(names[at] == name);
        assert(handlers@[names[at]] == handlers.values()[at]);
        assert(one_answered(handlers.values()[at], event@, copies[at], answers[at]));
        models_tell_events_apart(copies[at], event);
        assert(was_called(handlers@[name], event, copies[at], answers[at]));
        match answers[at] {
            Ok(_) => {
                assert forall|i: int| 0 <= i < failures.len() implies (
                #[trigger] failures[i]).name@ != name by {
                    listed_is_refusal(names, answers, i);
                    let other = choose|other: int|
                        0 <= other < answers.len() && (#[trigger] answers[other]) is Err
                            && listed[i].0 == names[other];
                    if names[other] == name {
                        assert(other == at);
                    }
                }
            },
            Err(error) => {
                refusal_is_listed(names, answers, at);
                let i = choose|i: int|
                    0 <= i < listed.len() && #[trigger] listed[i] == (
                        names[at],
                        answers[at]->Err_0@,
                    );
                assert(failures[i].name@ == name && failures[i].error@ == error@);
            },
        }
        assert(is_reported(name, answers[at], failures));
    }
}

/// Every handler of a table hears an event, whatever the others answer, and the refusals are reported.
pub proof fn every_handler_hears<H: Fn(WebSocketEvent) -> WebSocketResult<()>>(
    handlers: &Table<String, H>,
    event: &WebSocketEvent,
    failures: Vec<HandlerFailure>,
)
    requires
        call_ensures(notify::<H>, (handlers, event), failures),
    ensures
        was_heard(handlers@, *event, failures@),
{
    notifying_is_being_heard(*handlers, *event, failures@);
}

/// An event that is delivered is handed to the channel of the bus, and every handler of the bus hears
/// it. What the channel answered, and who refused the event, is told.
pub proof fn delivered_events_reach_everyone<H: Fn(WebSocketEvent) -> WebSocketResult<()>>(
    bus: &EventBus<H>,
    event: WebSocketEvent,
    delivery: Delivery,
)
    requires
        call_ensures(EventBus::<H>::deliver, (bus, event), delivery),
    ensures
        was_heard(bus.handlers()@, event, delivery.failures@),
        exists|copy: WebSocketEvent| #[trigger]
            was_sent(bus.channel(), copy, delivery.receivers) && same_event(copy, event),
        match delivery.receivers {
            Ok(count) => count > 0,
            Err(returned) => same_event(returned, event),
        },
{
    notifying_is_being_heard(bus.handlers(), event, delivery.failures@);
    let copy = choose|copy: WebSocketEvent| #[trigger]
        was_sent(bus.channel(), copy, delivery.receivers) && copy@ == event@;
    models_tell_events_apart(copy, event);
    if let Err(returned) = delivery.receivers {
        models_tell_events_apart(returned, event);
    }
}

/// An event that is published is handed to the channel of the bus, and every handler of the bus hears
/// it. That never fails.
pub proof fn published_events_reach_everyone<H: Fn(WebSocketEvent) -> WebSocketResult<()>>(
    bus: &EventBus<H>,
    event: WebSocketEvent,
    result: WebSocketResult<()>,
)
    requires
        call_ensures(EventBus::<H>::publish, (bus, event), result),
    ensures
        result is Ok,
        exists|failures: Seq<HandlerFailure>| #[trigger]
            was_heard(bus.handlers()@, event, failures),
        exists|copy: WebSocketEvent, receivers: Result<usize, WebSocketEvent>| #[trigger]
            was_sent(bus.channel(), copy, receivers) && same_event(copy, event),
{
    let failures = choose|failures: Seq<HandlerFailure>| #[trigger]
        notified(bus.handlers(), event@, failures);
    notifying_is_being_heard(bus.handlers(), event, failures);
    let (copy, receivers) = choose|
        copy: WebSocketEvent,
        receivers: Result<usize, WebSocketEvent>,
    | #[trigger]
        was_sent(bus.channel(), copy, receivers) && copy@ == event@;
    models_tell_events_apart(copy, event);
}

/// A handler that is registered is the one under its name, a handler that is removed is gone, and the
/// others stay. The channel of the bus stays too.
pub proof fn handlers_stand_under_their_names<H: Fn(WebSocketEvent) -> WebSocketResult<()>>(
    name: String,
    text: &str,
    handler: H,
    nothing: (),
)
    ensures
        forall|bus: &mut EventBus<H>| #[trigger]
            call_ensures(EventBus::<H>::register_handler, (bus, name, handler), nothing) ==> {
                &&& final(bus).channel() == bus.channel()
                &&& final(bus).handlers()@.contains_key(name@)
                &&& final(bus).handlers()@[name@] == handler
                &&& forall|other: Seq<char>|
                    other != name@ ==> {
                        &&& #[trigger] final(bus).handlers()@.contains_key(other)
                            <==> bus.handlers()@.contains_key(other)
                        &&& bus.handlers()@.contains_key(other) ==> final(bus).handlers()@[other]
                            == bus.handlers()@[other]
                    }
            },
        forall|bus: &mut EventBus<H>| #[trigger]
            call_ensures(EventBus::<H>::unregister_handler, (bus, text), nothing) ==> {
                &&& final(bus).channel() == bus.channel()
                &&& !final(bus).handlers()@.contains_key(text@)
                &&& forall|other: Seq<char>|
                    other != text@ ==> {
                        &&& #[trigger] final(bus).handlers()@.contains_key(other)
                            <==> bus.handlers()@.contains_key(other)
                        &&& bus.handlers()@.contains_key(other) ==> final(bus).handlers()@[other]
                            == bus.handlers()@[other]
                    }
            },
        forall|listener: &mut EventListener<H>| #[trigger]
            call_ensures(
                EventListener::<H>::register_handler,
                (listener, name, handler),
                nothing,
            ) ==> {
                &&& final(listener).receiver() == listener.receiver()
                &&& final(listener).handlers()@.contains_key(name@)
                &&& final(listener).handlers()@[name@] == handler
                &&& forall|other: Seq<char>|
                    other != name@ ==> {
                        &&& #[trigger] final(listener).handlers()@.contains_key(other)
                            <==> listener.handlers()@.contains_key(other)
                        &&& listener.handlers()@.contains_key(other)
                            ==> final(listener).handlers()@[other] == listener.handlers()@[other]
                    }
            },
{
}

/// A new bus has the capacity that it was asked for and no handlers, and a subscription or a listener
/// is one to the channel of its bus.
pub proof fn subscriptions_are_to_their_bus<
    H: Fn(WebSocketEvent) -> WebSocketResult<()>,
    B: Fn(WebSocketEvent) -> WebSocketResult<()>,
>(
    capacity: usize,
    made: EventBus<B>,
    bus: &EventBus<B>,
    receiver: tokio::sync::broadcast::Receiver<WebSocketEvent>,
    listener: EventListener<H>,
    name: Seq<char>,
)
    ensures
        call_ensures(EventBus::<B>::new, (capacity,), made) ==> channel_capacity(made.channel())
            == capacity && !made.handlers()@.contains_key(name),
        call_ensures(EventBus::<B>::default, (), made) ==> channel_capacity(made.channel()) == 1000
            && !made.handlers()@.contains_key(name),
        call_ensures(EventBus::<B>::subscribe, (bus,), receiver) ==> source_of(receiver)
            == bus.channel(),
        call_ensures(EventListener::<H>::new::<B>, (bus,), listener) ==> source_of(
            listener.receiver(),
        ) == bus.channel() && !listener.handlers()@.contains_key(name),
{
}

/// A listener lets every handler of its own hear an event, passes over lost ones, and stops exactly
/// when the bus is gone.
pub proof fn listeners_hear_until_the_bus_is_gone<H: Fn(WebSocketEvent) -> WebSocketResult<()>>(
    listener: &EventListener<H>,
    received: Received,
    step: ListenStep,
)
    requires
        call_ensures(EventListener::<H>::listen, (listener, received), step),
    ensures
        step is Stop <==> received is Closed,
        match (received, step) {
            (Received::Event(event), ListenStep::Continue(failures)) => was_heard(
                listener.handlers()@,
                event,
                failures@,
            ),
            (Received::Lagged(_), ListenStep::Continue(failures)) => failures@.len() == 0,
            (Received::Closed, ListenStep::Stop) => true,
            _ => false,
        },
{
    if let Received::Event(event) = received {
        if let ListenStep::Continue(failures) = step {
            notifying_is_being_heard(listener.handlers(), event, failures@);
        }
    }
}

/// The subscription of a listener is lent as it is, and the handlers stay.
pub proof fn receivers_are_lent<H: Fn(WebSocketEvent) -> WebSocketResult<()>>()
    ensures
        forall|
            listener: &mut EventListener<H>,
            receiver: &mut tokio::sync::broadcast::Receiver<WebSocketEvent>,
        | #[trigger]
            call_ensures(EventListener::<H>::receiver_mut, (listener,), receiver) ==> {
                &&& *receiver == listener.receiver()
                &&& final(listener).receiver() == *final(receiver)
                &&& final(listener).handlers() == listener.handlers()
            },
{
}

} // verus!
