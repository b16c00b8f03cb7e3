//! What holds of polling a connection as a whole.
use crate::client::connection::{
    acts, requests_step, start, Action, ConnectionError, ConnectionView, Event, Progress, Stage,
};
use crate::client::laws::{requests_after_all, Happening};
use crate::client::message::{Inbound, LightWeightConnectionId, Message};
use crate::client::requests::{asks, remembered, Request};
use crate::poll::Async;
use vstd::prelude::*;

verus! {

/// The events can come one after the other, from here on, in one poll.
pub open spec fn can_come<B, H, I, T, IE, OE>(
    progress: Progress,
    events: Seq<Event<B, H, I, T, IE, OE>>,
) -> bool
    decreases events.len(),
{
    events.len() == 0 || {
        &&& can_come(progress, events.drop_last())
        &&& events.last().fits(progress_after(progress, events.drop_last()).stage)
    }
}

/// How far a poll has come after some events.
pub open spec fn progress_after<B, H, I, T, IE, OE>(
    progress: Progress,
    events: Seq<Event<B, H, I, T, IE, OE>>,
) -> Progress
    decreases events.len(),
{
    if events.len() == 0 {
        progress
    } else {
        events.last().advance(progress_after(progress, events.drop_last()))
    }
}

/// Polling keeps the parts of the state fitting together.
pub proof fn law_progress_stays_wf<B, H, I, T, IE, OE>(
    progress: Progress,
    events: Seq<Event<B, H, I, T, IE, OE>>,
)
    requires
        progress.wf(),
        can_come(progress, events),
    ensures
        progress_after(progress, events).wf(),
    decreases events.len(),
{
    if events.len() > 0 {
        law_progress_stays_wf(progress, events.drop_last());
    }
}

/// Once the inbound half has been dropped it stays so: a poll that starts after
/// that waits for nothing but the outbound half to close, and neither the inbound
/// half nor the queue of requests is polled again.
pub proof fn law_dropped_inbound_is_never_polled<B, H, I, T, IE, OE>(
    progress: Progress,
    events: Seq<Event<B, H, I, T, IE, OE>>,
)
    requires
        progress.wf(),
        !progress.inbound_open,
        can_come(start(progress), events),
    ensures
        !progress_after(start(progress), events).inbound_open,
        events.len() <= 1,
        events.len() == 1 ==> events[0] is Closed,
    decreases events.len(),
{
    if events.len() > 0 {
        law_dropped_inbound_is_never_polled(progress, events.drop_last());
        if events.len() > 1 {
            let before = events.drop_last();
            assert(before.drop_last().len() == 0);
            assert(progress_after(start(progress), before).stage == Stage::Idle);
        }
    }
}

/// In a round in which nothing fails and no input ends, the poll is left waiting
/// exactly when neither a message nor a request came.
pub proof fn law_idle_round_waits<B, H, I, T, IE, OE>(
    progress: Progress,
    inbound: Event<B, H, I, T, IE, OE>,
    requests: Event<B, H, I, T, IE, OE>,
    opened: Seq<Event<B, H, I, T, IE, OE>>,
    flushed: Event<B, H, I, T, IE, OE>,
)
    requires
        progress.stage == Stage::Inbound,
        !progress.events_processed,
        inbound matches Event::Inbound(Ok(_)),
        requests is Requests,
        !inbound.ends_input(),
        !requests.ends_input(),
        flushed matches Event::Outbound(Ok(_)),
        forall|k: int|
            0 <= k < opened.len() ==> (#[trigger] opened[k] is Opened || opened[k] is Sent),
        can_come(progress, seq![inbound, requests] + opened + seq![flushed]),
    ensures
        ({
            let at_flush = progress_after(progress, seq![inbound, requests] + opened);
            flushed.poll_result(at_flush) == if inbound.message() is None && requests.request()
                is None {
                Some(Ok::<Async<()>, ConnectionError<IE, OE>>(Async::NotReady))
            } else {
                None
            }
        }),
{
    let first = seq![inbound, requests];
    assert(first.drop_last() =~= seq![inbound]);
    assert(seq![inbound].drop_last() =~= Seq::empty());
    assert(progress_after(progress, seq![inbound]) == inbound.advance(progress)) by {
        assert(progress_after(progress, seq![inbound].drop_last()) == progress);
    }
    assert(progress_after(progress, first) == requests.advance(inbound.advance(progress)));
    lemma_opening_keeps_note_of_events(progress, first, opened);
}

/// Opening a light connection and sending a query do not change what is known of
/// the round.
proof fn lemma_opening_keeps_note_of_events<B, H, I, T, IE, OE>(
    progress: Progress,
    first: Seq<Event<B, H, I, T, IE, OE>>,
    opened: Seq<Event<B, H, I, T, IE, OE>>,
)
    requires
        forall|k: int|
            0 <= k < opened.len() ==> (#[trigger] opened[k] is Opened || opened[k] is Sent),
    ensures
        progress_after(progress, first + opened).events_processed == progress_after(
            progress,
            first,
        ).events_processed,
    decreases opened.len(),
{
    if opened.len() == 0 {
        assert(first + opened =~= first);
    } else {
        lemma_opening_keeps_note_of_events(progress, first, opened.drop_last());
        assert((first + opened).drop_last() =~= first + opened.drop_last());
        assert(opened.last() == opened[opened.len() - 1]);
    }
}

/// A poll says that the connection is at its end only after the inbound half or
/// the queue of requests has ended.
pub proof fn law_ready_only_after_input_ended<B, H, I, T, IE, OE>(
    progress: Progress,
    event: Event<B, H, I, T, IE, OE>,
)
    requires
        progress.wf(),
        event.fits(progress.stage),
        event.poll_result(progress) matches Some(Ok(Async::Ready(_))),
    ensures
        !progress.inbound_open,
        event is Closed,
{
}

/// An error of either half ends the poll with that very error, and nothing else
/// ends it with an error.
pub proof fn law_errors_are_returned<B, H, I, T, IE, OE>(
    progress: Progress,
    event: Event<B, H, I, T, IE, OE>,
)
    ensures
        event.poll_result(progress) matches Some(Err(err)) ==> match err {
            ConnectionError::Inbound(err) => event == Event::<B, H, I, T, IE, OE>::Inbound(
                Err(err),
            ),
            ConnectionError::Outbound(err) => {
                ||| event == Event::<B, H, I, T, IE, OE>::Failed(err)
                ||| event == Event::<B, H, I, T, IE, OE>::Outbound(Err(err))
                ||| event == Event::<B, H, I, T, IE, OE>::Closed(Err(err))
            },
        },
        match event {
            Event::Inbound(Err(err)) => event.poll_result(progress) == Some(
                Err::<Async<()>, _>(ConnectionError::<IE, OE>::Inbound(err)),
            ),
            Event::Failed(err) => event.poll_result(progress) == Some(
                Err::<Async<()>, _>(ConnectionError::<IE, OE>::Outbound(err)),
            ),
            Event::Outbound(Err(err)) => event.poll_result(progress) == Some(
                Err::<Async<()>, _>(ConnectionError::<IE, OE>::Outbound(err)),
            ),
            Event::Closed(Err(err)) => event.poll_result(progress) == Some(
                Err::<Async<()>, _>(ConnectionError::<IE, OE>::Outbound(err)),
            ),
            _ => !(event.poll_result(progress) matches Some(Err(_))),
        },
{
}

/// What is known of the round that a poll is in.
spec fn round_so_far<B, H, I, T, IE, OE>(
    progress: Progress,
    events: Seq<Event<B, H, I, T, IE, OE>>,
) -> bool {
    match progress.stage {
        Stage::Inbound => !progress.events_processed,
        Stage::Requests => progress.events_processed || {
            &&& events.len() >= 1
            &&& events.last() == Event::<B, H, I, T, IE, OE>::Inbound(Ok(Async::NotReady))
        },
        Stage::Opening | Stage::Sending => progress.events_processed,
        Stage::Outbound => progress.events_processed || {
            &&& events.len() >= 2
            &&& events.last() == Event::<B, H, I, T, IE, OE>::Requests(Async::NotReady)
            &&& events[events.len() - 2] == Event::<B, H, I, T, IE, OE>::Inbound(
                Ok(Async::NotReady),
            )
        },
        Stage::Idle | Stage::Closing => true,
    }
}

/// What is known of the round holds throughout a poll.
proof fn lemma_round_so_far<B, H, I, T, IE, OE>(
    progress: Progress,
    events: Seq<Event<B, H, I, T, IE, OE>>,
)
    requires
        can_come(start(progress), events),
    ensures
        round_so_far(progress_after(start(progress), events), events),
    decreases events.len(),
{
    if events.len() > 0 {
        lemma_round_so_far(progress, events.drop_last());
    }
}

/// Over any run of events, a poll is left waiting only at the end of a round in
/// which neither a message nor a request came, or because the outbound half is not
/// closed yet.
pub proof fn law_waits_only_when_idle<B, H, I, T, IE, OE>(
    progress: Progress,
    events: Seq<Event<B, H, I, T, IE, OE>>,
)
    requires
        events.len() > 0,
        can_come(start(progress), events),
        events.last().poll_result(progress_after(start(progress), events.drop_last())) == Some(
            Ok::<Async<()>, ConnectionError<IE, OE>>(Async::NotReady),
        ),
    ensures
        events.last() == Event::<B, H, I, T, IE, OE>::Closed(Ok(Async::NotReady)) || {
            &&& events.last() matches Event::Outbound(Ok(_))
            &&& events.len() >= 3
            &&& events[events.len() - 2] == Event::<B, H, I, T, IE, OE>::Requests(Async::NotReady)
            &&& events[events.len() - 3] == Event::<B, H, I, T, IE, OE>::Inbound(
                Ok(Async::NotReady),
            )
        },
{
    lemma_round_so_far(progress, events.drop_last());
}

/// A connection in a poll: one that is between polls has a poll started.
pub open spec fn polled<B, H, I>(state: ConnectionView<B, H, I>) -> ConnectionView<B, H, I> {
    if state.progress.stage == Stage::Idle {
        ConnectionView { progress: start(state.progress), ..state }
    } else {
        state
    }
}

/// An event took a connection from one state to the next and called for an action,
/// and the answer that it made owed, if any, was taken.
pub open spec fn stepped<B, H, I: Clone, T, N, M, IE, OE>(
    before: ConnectionView<B, H, I>,
    event: Event<B, H, I, T, IE, OE>,
    action: Action<I, N, M, IE, OE>,
    after: ConnectionView<B, H, I>,
) -> bool {
    &&& before.wf()
    &&& event.fits(polled(before).progress.stage)
    &&& after.wf()
    &&& after.progress == event.advance(polled(before).progress)
    &&& requests_step(polled(before), event, after, true)
    &&& acts(polled(before), event, action)
}

/// A run of a connection over any number of polls: the events, the actions that they
/// called for, and the states before, between and after them.
pub open spec fn is_run<B, H, I: Clone, T, N, M, IE, OE>(
    states: Seq<ConnectionView<B, H, I>>,
    events: Seq<Event<B, H, I, T, IE, OE>>,
    actions: Seq<Action<I, N, M, IE, OE>>,
) -> bool
    decreases events.len(),
{
    &&& states.len() == events.len() + 1
    &&& actions.len() == events.len()
    &&& events.len() == 0 || {
        &&& is_run(states.drop_last(), events.drop_last(), actions.drop_last())
        &&& stepped(states.drop_last().last(), events.last(), actions.last(), states.last())
    }
}

/// The requests that the program made in a run, in order.
pub open spec fn requests_made<B, H, I, T, IE, OE>(
    events: Seq<Event<B, H, I, T, IE, OE>>,
) -> Seq<Request<B, H, I>>
    decreases events.len(),
{
    if events.len() == 0 {
        Seq::empty()
    } else {
        requests_made(events.drop_last()) + one(events.last().request())
    }
}

/// The messages that came from the remote node in a run, in order.
pub open spec fn messages_come<B, H, I, T, IE, OE>(
    events: Seq<Event<B, H, I, T, IE, OE>>,
) -> Seq<Inbound<B, H, T>>
    decreases events.len(),
{
    if events.len() == 0 {
        Seq::empty()
    } else {
        messages_come(events.drop_last()) + one(events.last().message())
    }
}

/// What there is, as a sequence.
pub open spec fn one<A>(value: Option<A>) -> Seq<A> {
    match value {
        Some(value) => seq![value],
        None => Seq::empty(),
    }
}

/// The light connections that were opened in a run, in order, with the request that
/// each was opened for.
pub open spec fn openings<B, H, I, T, IE, OE>(
    states: Seq<ConnectionView<B, H, I>>,
    events: Seq<Event<B, H, I, T, IE, OE>>,
) -> Seq<(LightWeightConnectionId, Request<B, H, I>)>
    decreases events.len(),
{
    if events.len() == 0 {
        Seq::empty()
    } else {
        openings(states.drop_last(), events.drop_last()) + match events.last() {
            Event::Opened(id) => match states.drop_last().last().opening {
                Some(request) => seq![(id, request)],
                None => Seq::empty(),
            },
            _ => Seq::empty(),
        }
    }
}

/// The queries that were handed to the outbound half in a run, in order.
pub open spec fn queries<I, N, M, IE, OE>(actions: Seq<Action<I, N, M, IE, OE>>) -> Seq<
    Message<I, N, M>,
>
    decreases actions.len(),
{
    if actions.len() == 0 {
        Seq::empty()
    } else {
        queries(actions.drop_last()) + match actions.last() {
            Action::Send(message) => seq![message],
            _ => Seq::empty(),
        }
    }
}

/// The requests whose wait for a light connection came to an end in a run, in order:
/// each with the light connection that it got, or with none where opening one failed.
pub open spec fn taken_up<B, H, I, T, IE, OE>(
    states: Seq<ConnectionView<B, H, I>>,
    events: Seq<Event<B, H, I, T, IE, OE>>,
) -> Seq<(Option<LightWeightConnectionId>, Request<B, H, I>)>
    decreases events.len(),
{
    if events.len() == 0 {
        Seq::empty()
    } else {
        taken_up(states.drop_last(), events.drop_last()) + match (
            events.last(),
            states.drop_last().last().opening,
        ) {
            (Event::Opened(id), Some(request)) => seq![(Some(id), request)],
            (Event::Failed(_), Some(request)) => seq![(None, request)],
            _ => Seq::empty(),
        }
    }
}

/// Those of some requests that got a light connection, in order.
pub open spec fn with_connection<B, H, I>(
    requests: Seq<(Option<LightWeightConnectionId>, Request<B, H, I>)>,
) -> Seq<(LightWeightConnectionId, Request<B, H, I>)>
    decreases requests.len(),
{
    if requests.len() == 0 {
        Seq::empty()
    } else {
        with_connection(requests.drop_last()) + match requests.last().0 {
            Some(id) => seq![(id, requests.last().1)],
            None => Seq::empty(),
        }
    }
}

/// Every request of the program is taken up once and in the order in which the
/// requests were made; only the last may still wait for its light connection. Each
/// that gets one is asked for with its query, once and in that order; one for which
/// opening fails is given up.
pub proof fn law_requests_are_asked_in_order<B, H, I: Clone, T, N, M, IE, OE>(
    states: Seq<ConnectionView<B, H, I>>,
    events: Seq<Event<B, H, I, T, IE, OE>>,
    actions: Seq<Action<I, N, M, IE, OE>>,
)
    requires
        is_run(states, events, actions),
        states[0].wf(),
    ensures
        one(states[0].opening) + requests_made(events) == taken_up(states, events).map_values(
            |up: (Option<LightWeightConnectionId>, Request<B, H, I>)| up.1,
        ) + one(states.last().opening),
        openings(states, events) == with_connection(taken_up(states, events)),
        queries(actions).len() == openings(states, events).len(),
        forall|k: int|
            0 <= k < queries(actions).len() ==> asks(
                #[trigger] queries(actions)[k],
                openings(states, events)[k].0,
                openings(states, events)[k].1,
            ),
    decreases events.len(),
{
    let request_of = |up: (Option<LightWeightConnectionId>, Request<B, H, I>)| up.1;
    if events.len() == 0 {
        assert(taken_up(states, events).map_values(request_of) =~= Seq::empty());
        assert(one(states[0].opening) + requests_made(events) =~= Seq::empty() + one(
            states.last().opening,
        ));
    } else {
        let early = states.drop_last();
        assert(states[0] == early[0]);
        law_requests_are_asked_in_order(early, events.drop_last(), actions.drop_last());
        let before = taken_up(early, events.drop_last());
        let all = taken_up(states, events);
        assert(one(states[0].opening) + requests_made(events) =~= (one(states[0].opening)
            + requests_made(events.drop_last())) + one(events.last().request()));
        match (events.last(), early.last().opening) {
            (Event::Opened(id), Some(request)) => {
                assert(all =~= before.push((Some(id), request)));
                assert(all.drop_last() =~= before);
                assert(all.map_values(request_of) =~= before.map_values(request_of) + seq![
                    request,
                ]);
            },
            (Event::Failed(_), Some(request)) => {
                assert(all =~= before.push((None, request)));
                assert(all.drop_last() =~= before);
                assert(all.map_values(request_of) =~= before.map_values(request_of) + seq![
                    request,
                ]);
                assert(openings(states, events) =~= openings(early, events.drop_last()));
                assert(with_connection(all) =~= with_connection(before));
                assert(queries(actions) =~= queries(actions.drop_last()));
            },
            _ => {
                assert(all =~= before);
                assert(openings(states, events) =~= openings(early, events.drop_last()));
                assert(queries(actions) =~= queries(actions.drop_last()));
            },
        }
        assert(one(states[0].opening) + requests_made(events) =~= all.map_values(request_of) + one(
            states.last().opening,
        ));
    }
}

/// What bore on the waiting requests in a run: each message, and each request that
/// began to wait.
pub open spec fn happenings<B, H, I, T, IE, OE>(
    states: Seq<ConnectionView<B, H, I>>,
    events: Seq<Event<B, H, I, T, IE, OE>>,
) -> Seq<Happening<B, H, I, T>>
    decreases events.len(),
{
    if events.len() == 0 {
        Seq::empty()
    } else {
        happenings(states.drop_last(), events.drop_last()) + match events.last() {
            Event::Inbound(Ok(Async::Ready(Some(message)))) => seq![
                Happening::Message(message, true),
            ],
            Event::Opened(id) => seq![Happening::Opened(id, states.last().requests[id])],
            _ => Seq::empty(),
        }
    }
}

/// The messages among some happenings, in order.
pub open spec fn messages_of<B, H, I, T>(happenings: Seq<Happening<B, H, I, T>>) -> Seq<
    Inbound<B, H, T>,
>
    decreases happenings.len(),
{
    if happenings.len() == 0 {
        Seq::empty()
    } else {
        messages_of(happenings.drop_last()) + match happenings.last() {
            Happening::Message(message, _) => seq![message],
            _ => Seq::empty(),
        }
    }
}

/// The requests that began to wait among some happenings, in order, with the light
/// connection on which each waits.
pub open spec fn waits_of<B, H, I, T>(happenings: Seq<Happening<B, H, I, T>>) -> Seq<
    (LightWeightConnectionId, Request<B, H, I>),
>
    decreases happenings.len(),
{
    if happenings.len() == 0 {
        Seq::empty()
    } else {
        waits_of(happenings.drop_last()) + match happenings.last() {
            Happening::Opened(id, request) => seq![(id, request)],
            _ => Seq::empty(),
        }
    }
}

/// Each message and each request is handled once and in order: the requests that wait
/// after a run are those that come of taking in, one after the other, every message
/// that came and every request that got its light connection, and nothing besides.
pub proof fn law_everything_is_handled_once<B, H, I: Clone, T, N, M, IE, OE>(
    states: Seq<ConnectionView<B, H, I>>,
    events: Seq<Event<B, H, I, T, IE, OE>>,
    actions: Seq<Action<I, N, M, IE, OE>>,
)
    requires
        is_run(states, events, actions),
    ensures
        states.last().requests == requests_after_all(
            states[0].requests,
            happenings(states, events),
        ),
        messages_of(happenings(states, events)) == messages_come(events),
        waits_of(happenings(states, events)).len() == openings(states, events).len(),
        forall|k: int|
            0 <= k < openings(states, events).len() ==> {
                &&& waits_of(happenings(states, events))[k].0 == openings(states, events)[k].0
                &&& remembered(
                    (#[trigger] openings(states, events)[k]).1,
                    waits_of(happenings(states, events))[k].1,
                )
            },
    decreases events.len(),
{
    if events.len() > 0 {
        let early = states.drop_last();
        law_everything_is_handled_once(early, events.drop_last(), actions.drop_last());
        assert(states[0] == early[0]);
        let before = happenings(early, events.drop_last());
        let all = happenings(states, events);
        match events.last() {
            Event::Inbound(Ok(Async::Ready(Some(message)))) => {
                assert(all =~= before.push(Happening::Message(message, true)));
                assert(all.drop_last() =~= before);
                assert(openings(states, events) =~= openings(early, events.drop_last()));
                assert(waits_of(all) =~= waits_of(before));
            },
            Event::Opened(id) => {
                assert(all =~= before.push(Happening::Opened(id, states.last().requests[id])));
                assert(all.drop_last() =~= before);
                assert(messages_of(all) =~= messages_of(before));
                assert(messages_come(events) =~= messages_come(events.drop_last()));
            },
            _ => {
                assert(all =~= before);
                assert(messages_come(events) =~= messages_come(events.drop_last()));
                assert(openings(states, events) =~= openings(early, events.drop_last()));
            },
        }
    }
}

} // verus!
