//! What holds of each call on a connection that is driven by polling.
use crate::channels::{self, dropped};
use crate::client::connection::{
    inbound_delivery, requests_after_inbound, Action, Connection, ConnectionError,
    ConnectionView, Event, InboundError, OutboundError, Source, Stage,
};
use crate::client::error::Cause;
use crate::client::laws_poll::stepped;
use crate::client::laws_table::{
    block_taken_in, end_taken_in, ends_blocks, headers_taken_in, untouched,
};
use crate::client::message::{Inbound, LightWeightConnectionId, Message};
use crate::client::requests::{delivered, Delivery, Request, Undelivered};
use crate::poll::Async;
use vstd::prelude::*;

verus! {

/// A message from the remote node was taken in: it answers what waits on the light
/// connection that it names and nothing else. Bookkeeping, answers to transactions and
/// anything else answer nothing.
pub open spec fn message_taken_in<B, H, I, T>(
    before: Map<LightWeightConnectionId, Request<B, H, I>>,
    inbound: Inbound<B, H, T>,
    sent: Result<(), Undelivered<B, H>>,
    after: Map<LightWeightConnectionId, Request<B, H, I>>,
    other: LightWeightConnectionId,
) -> bool {
    match inbound {
        Inbound::BlockHeaders(id, response) => {
            &&& headers_taken_in(before, id, response, Cause::UnexpectedResponse, sent, after)
            &&& other != id ==> untouched(before, other, after)
        },
        Inbound::Block(id, response) => {
            &&& block_taken_in(before, id, response, true, sent, after)
            &&& other != id ==> untouched(before, other, after)
        },
        Inbound::CloseConnection(id) => {
            &&& end_taken_in(before, id, sent, after)
            &&& other != id ==> untouched(before, other, after)
        },
        Inbound::NothingExciting | Inbound::TransactionReceived(_, _) | Inbound::Other => {
            &&& sent is Ok
            &&& untouched(before, other, after)
        },
    }
}

/// A message from the remote node answers what waits on the light connection that it names
/// and nothing else, whatever the light connection and whatever waits on others; and it
/// moves no poll.
pub proof fn law_a_message_answers_what_waits<B, H, I, T>(
    connection: &mut Connection<B, H, I>,
    inbound: Inbound<B, H, T>,
    outcome: Result<(), Undelivered<B, H>>,
    other: LightWeightConnectionId,
)
    requires
        call_ensures(Connection::<B, H, I>::process_inbound::<T>, (connection, inbound), outcome),
    ensures
        message_taken_in(
            old(connection)@.requests,
            inbound,
            outcome,
            final(connection)@.requests,
            other,
        ),
        final(connection)@.opening == old(connection)@.opening,
        final(connection)@.progress == old(connection)@.progress,
{
    lemma_message_taken_in(
        old(connection)@.requests,
        inbound,
        outcome,
        final(connection)@.requests,
        other,
    );
}

/// The table after a delivery is that of a message that was taken in.
proof fn lemma_message_taken_in<B, H, I, T>(
    before: Map<LightWeightConnectionId, Request<B, H, I>>,
    inbound: Inbound<B, H, T>,
    sent: Result<(), Undelivered<B, H>>,
    after: Map<LightWeightConnectionId, Request<B, H, I>>,
    other: LightWeightConnectionId,
)
    requires
        after == requests_after_inbound(before, inbound, sent is Ok),
        delivered(
            inbound_delivery(before, inbound),
            sent,
        ),
    ensures
        message_taken_in(before, inbound, sent, after, other),
{
    broadcast use channels::law_after;

    let owed = inbound_delivery(before, inbound);
    if let Some(Delivery::Block(chan, answer, None)) = owed {
        assert(dropped(chan.after(answer, sent is Ok)));
        assert(ends_blocks(chan, answer, sent));
    }
}

/// Taking in a message without delivering yet says what is owed on the light connection that
/// the message names, takes the request that waits there out, and touches nothing else.
pub proof fn law_a_message_is_routed<B, H, I, T>(
    connection: &mut Connection<B, H, I>,
    inbound: Inbound<B, H, T>,
    owed: Option<(LightWeightConnectionId, Delivery<B, H, I>)>,
    other: LightWeightConnectionId,
)
    requires
        call_ensures(Connection::<B, H, I>::route_inbound::<T>, (connection, inbound), owed),
    ensures
        final(connection)@.opening == old(connection)@.opening,
        final(connection)@.progress == old(connection)@.progress,
        match inbound {
            Inbound::BlockHeaders(id, _)
            | Inbound::Block(id, _)
            | Inbound::CloseConnection(id) => {
                &&& !final(connection)@.requests.contains_key(id)
                &&& other != id ==> untouched(
                    old(connection)@.requests,
                    other,
                    final(connection)@.requests,
                )
                &&& owed is Some <==> old(connection)@.requests.contains_key(id)
                &&& owed matches Some((owed_id, delivery)) ==> owed_id == id && match (
                    delivery,
                    old(connection)@.requests[id],
                ) {
                    (Delivery::Tip(to, _), Request::Tip(chan)) => to == chan,
                    (Delivery::Block(to, _, _), Request::Block(chan, _, _)) => to == chan,
                    (Delivery::Close(to), Request::Block(chan, _, _)) => to == chan,
                    _ => false,
                }
            },
            _ => {
                &&& owed is None
                &&& untouched(old(connection)@.requests, other, final(connection)@.requests)
            },
        },
{
}

/// The query of a request goes out on the light connection under which the request waits,
/// asks for what the request asks for, and leaves every other request and the poll alone.
pub proof fn law_a_request_is_asked_for<B, H, I: Clone, N, M>(
    connection: &mut Connection<B, H, I>,
    id: LightWeightConnectionId,
    request: Request<B, H, I>,
    message: Message<I, N, M>,
    other: LightWeightConnectionId,
)
    requires
        call_ensures(
            Connection::<B, H, I>::process_request::<N, M>,
            (connection, id, request),
            message,
        ),
    ensures
        asked_for(
            old(connection)@.requests,
            id,
            request,
            message,
            final(connection)@.requests,
            other,
        ),
        final(connection)@.opening == old(connection)@.opening,
        final(connection)@.progress == old(connection)@.progress,
{
}

/// A request waits on a light connection, and its query is addressed to that: for the tip,
/// headers with no range; for blocks, the range of the request. Its channel end is as it came.
/// What waited there before is dropped as it is, and nothing else is touched.
pub open spec fn asked_for<B, H, I: Clone, N, M>(
    before: Map<LightWeightConnectionId, Request<B, H, I>>,
    id: LightWeightConnectionId,
    request: Request<B, H, I>,
    message: Message<I, N, M>,
    after: Map<LightWeightConnectionId, Request<B, H, I>>,
    other: LightWeightConnectionId,
) -> bool {
    &&& after.contains_key(id)
    &&& other != id ==> untouched(before, other, after)
    &&& before.contains_key(id) ==> dropped(before[id])
    &&& match (request, message, after[id]) {
        (Request::Tip(chan), Message::GetBlockHeaders(asked, query), Request::Tip(waiting)) => {
            &&& asked == id
            &&& query.from@.len() == 0
            &&& query.to is None
            &&& waiting == chan
        },
        (
            Request::Block(chan, first, last),
            Message::GetBlocks(asked, query),
            Request::Block(waiting, waiting_first, waiting_last),
        ) => {
            &&& asked == id
            &&& query.from == first
            &&& query.to == last
            &&& waiting == chan
            &&& cloned(first, waiting_first)
            &&& cloned(last, waiting_last)
        },
        _ => false,
    }
}

/// A new connection has nothing waiting and no poll under way, and holds its inbound half. A
/// connection can process every message but empty headers for which a tip request waits.
pub proof fn law_connections_know_what_waits<B, H, I, T>(
    new: Connection<B, H, I>,
    connection: &Connection<B, H, I>,
    inbound: &Inbound<B, H, T>,
    usable: bool,
    id: LightWeightConnectionId,
)
    requires
        call_ensures(Connection::<B, H, I>::new, (), new),
        call_ensures(Connection::<B, H, I>::can_process::<T>, (connection, inbound), usable),
    ensures
        !new@.requests.contains_key(id),
        new@.opening is None,
        new@.progress.stage is Idle,
        new@.progress.inbound_open,
        !usable <==> {
            &&& *inbound matches Inbound::BlockHeaders(asked, Ok(headers))
            &&& headers.0@.len() == 0
            &&& connection@.requests.contains_key(asked)
            &&& connection@.requests[asked] is Tip
        },
{
}

/// Every message can be processed but empty headers for which a tip request waits, and a poll
/// can be started whenever none is under way.
pub proof fn law_messages_can_be_processed<B, H, I, T, N, M, IE, OE>(
    connection: &mut Connection<B, H, I>,
    inbound: Inbound<B, H, T>,
)
    ensures
        (inbound matches Inbound::BlockHeaders(asked, Ok(headers)) ==> headers.0@.len() > 0
            || !old(connection)@.requests.contains_key(asked)
            || old(connection)@.requests[asked] is Block) ==> call_requires(
            Connection::<B, H, I>::process_inbound::<T>,
            (connection, inbound),
        ) && call_requires(Connection::<B, H, I>::route_inbound::<T>, (connection, inbound)),
        old(connection)@.progress.stage is Idle && old(connection)@.opening is None
            ==> call_requires(Connection::<B, H, I>::poll::<N, M, IE, OE>, (connection,)),
{
}

/// A poll starts with the inbound half as long as that is held, and with closing the outbound
/// half once it is not. It starts with a round in which nothing has come yet, and touches no
/// request.
pub proof fn law_a_poll_starts<B, H, I, N, M, IE, OE>(
    connection: &mut Connection<B, H, I>,
    action: Action<I, N, M, IE, OE>,
)
    requires
        call_ensures(Connection::<B, H, I>::poll::<N, M, IE, OE>, (connection,), action),
    ensures
        final(connection)@.requests == old(connection)@.requests,
        final(connection)@.opening == old(connection)@.opening,
        final(connection)@.progress.inbound_open == old(connection)@.progress.inbound_open,
        old(connection)@.progress.inbound_open ==> {
            &&& action is PollInbound
            &&& final(connection)@.progress.stage is Inbound
            &&& !final(connection)@.progress.events_processed
        },
        !old(connection)@.progress.inbound_open ==> {
            &&& action is CloseOutbound
            &&& final(connection)@.progress.stage is Closing
        },
{
}

/// What a step does and calls for, event by event. A message is taken in, a request waits for
/// its light connection and is then asked for on the one that was opened; the next thing to
/// poll follows in its turn; the end of either input closes the outbound half; an error is
/// returned as it came; a round in which nothing came leaves the poll waiting; and the outcome
/// of closing is the outcome of the poll.
pub proof fn law_a_step_does_what_its_event_calls_for<B, H, I: Clone, T, N, M, IE, OE>(
    connection: &mut Connection<B, H, I>,
    event: Event<B, H, I, T, IE, OE>,
    outcome: Result<Action<I, N, M, IE, OE>, Undelivered<B, H>>,
    other: LightWeightConnectionId,
)
    requires
        old(connection)@.wf(),
        event.fits(old(connection)@.progress.stage),
        call_ensures(
            Connection::<B, H, I>::step::<T, N, M, IE, OE>,
            (connection, event),
            outcome,
        ),
    ensures
        outcome is Err ==> event matches Event::Inbound(Ok(Async::Ready(Some(_)))),
        !(event matches Event::Inbound(Ok(Async::Ready(Some(_))))) && !(event is Opened)
            ==> untouched(old(connection)@.requests, other, final(connection)@.requests),
        ({
            let before = old(connection)@;
            let after = final(connection)@;
            match event {
                Event::Inbound(Ok(Async::Ready(Some(message)))) => {
                    &&& message_taken_in(
                        before.requests,
                        message,
                        match outcome {
                            Ok(_) => Ok(()),
                            Err(answer) => Err(answer),
                        },
                        after.requests,
                        other,
                    )
                    &&& outcome matches Ok(action) ==> action is PollRequests
                    &&& after.progress.stage is Requests
                    &&& after.progress.events_processed
                    &&& after.progress.inbound_open
                    &&& after.opening is None
                },
                Event::Inbound(Ok(Async::NotReady)) => {
                    &&& outcome->Ok_0 is PollRequests
                    &&& after.progress.stage is Requests
                    &&& after.progress.events_processed == before.progress.events_processed
                    &&& after.progress.inbound_open
                },
                Event::Requests(Async::Ready(Some(request))) => {
                    &&& outcome->Ok_0 is OpenLightConnection
                    &&& after.opening == Some(request)
                    &&& after.progress.stage is Opening
                    &&& after.progress.events_processed
                    &&& after.progress.inbound_open
                },
                Event::Requests(Async::NotReady) => {
                    &&& outcome->Ok_0 is PollOutbound
                    &&& after.progress.stage is Outbound
                    &&& after.progress.events_processed == before.progress.events_processed
                    &&& after.progress.inbound_open
                },
                Event::Inbound(Ok(Async::Ready(None))) | Event::Requests(Async::Ready(None)) => {
                    &&& outcome->Ok_0 is CloseOutbound
                    &&& after.progress.stage is Closing
                    &&& !after.progress.inbound_open
                },
                Event::Opened(id) => {
                    &&& before.opening is Some
                    &&& outcome->Ok_0 matches Action::Send(message)
                    &&& asked_for(
                        before.requests,
                        id,
                        before.opening->Some_0,
                        message,
                        after.requests,
                        other,
                    )
                    &&& after.opening is None
                    &&& after.progress.stage is Sending
                    &&& after.progress.events_processed == before.progress.events_processed
                    &&& after.progress.inbound_open
                },
                Event::Sent => {
                    &&& outcome->Ok_0 is PollOutbound
                    &&& after.progress.stage is Outbound
                    &&& after.progress.events_processed == before.progress.events_processed
                    &&& after.progress.inbound_open
                },
                Event::Outbound(Ok(_)) => {
                    &&& after.progress.inbound_open
                    &&& if before.progress.events_processed {
                        &&& outcome->Ok_0 is PollInbound
                        &&& after.progress.stage is Inbound
                        &&& !after.progress.events_processed
                    } else {
                        &&& outcome->Ok_0 == Action::<I, N, M, IE, OE>::Return(
                            Ok(Async::NotReady),
                        )
                        &&& after.progress.stage is Idle
                    }
                },
                Event::Closed(Ok(closed)) => {
                    &&& outcome->Ok_0 == Action::<I, N, M, IE, OE>::Return(Ok(closed))
                    &&& after.progress.stage is Idle
                    &&& !after.progress.inbound_open
                },
                Event::Inbound(Err(InboundError(err))) => {
                    &&& outcome->Ok_0 == Action::<I, N, M, IE, OE>::Return(
                        Err(ConnectionError::Inbound(InboundError(err))),
                    )
                    &&& after.progress.stage is Idle
                    &&& after.progress.inbound_open
                },
                Event::Failed(OutboundError(err)) => {
                    &&& outcome->Ok_0 == Action::<I, N, M, IE, OE>::Return(
                        Err(ConnectionError::Outbound(OutboundError(err))),
                    )
                    &&& before.opening matches Some(request) ==> dropped(request)
                    &&& after.opening is None
                    &&& after.progress.stage is Idle
                    &&& after.progress.inbound_open
                },
                Event::Outbound(Err(OutboundError(err))) => {
                    &&& outcome->Ok_0 == Action::<I, N, M, IE, OE>::Return(
                        Err(ConnectionError::Outbound(OutboundError(err))),
                    )
                    &&& after.progress.stage is Idle
                    &&& after.progress.inbound_open
                },
                Event::Closed(Err(OutboundError(err))) => {
                    &&& outcome->Ok_0 == Action::<I, N, M, IE, OE>::Return(
                        Err(ConnectionError::Outbound(OutboundError(err))),
                    )
                    &&& after.progress.stage is Idle
                    &&& !after.progress.inbound_open
                },
            }
        }),
{
    if let Event::Inbound(Ok(Async::Ready(Some(message)))) = event {
        lemma_message_taken_in(
            old(connection)@.requests,
            message,
            match outcome {
                Ok(_) => Ok(()),
                Err(answer) => Err(answer),
            },
            final(connection)@.requests,
            other,
        );
    }
}

/// An event comes at the stage that waits for it, and at no other: each kind of event at one
/// stage, but for a failure, which can come while a light connection is being opened and while
/// a query is being sent.
pub proof fn law_events_come_at_their_stage<B, H, I, T, IE, OE>(
    event: Event<B, H, I, T, IE, OE>,
    stage: Stage,
)
    ensures
        event.fits(stage) <==> match (event, stage) {
            (Event::Inbound(_), Stage::Inbound) => true,
            (Event::Requests(_), Stage::Requests) => true,
            (Event::Opened(_), Stage::Opening) => true,
            (Event::Sent, Stage::Sending) => true,
            (Event::Failed(_), Stage::Opening) => true,
            (Event::Failed(_), Stage::Sending) => true,
            (Event::Outbound(_), Stage::Outbound) => true,
            (Event::Closed(_), Stage::Closing) => true,
            _ => false,
        },
{
}

/// A step can be taken with every event that comes at its stage, but for a message with empty
/// headers for which a tip request waits.
pub proof fn law_steps_can_be_taken<B, H, I: Clone, T, N, M, IE, OE>(
    connection: &mut Connection<B, H, I>,
    event: Event<B, H, I, T, IE, OE>,
)
    requires
        old(connection)@.wf(),
        event.fits(old(connection)@.progress.stage),
        event matches Event::Inbound(Ok(Async::Ready(Some(Inbound::BlockHeaders(asked, Ok(headers))))))
            ==> headers.0@.len() > 0 || !old(connection)@.requests.contains_key(asked)
            || old(connection)@.requests[asked] is Block,
    ensures
        call_requires(
            Connection::<B, H, I>::step::<T, N, M, IE, OE>,
            (connection, event),
        ),
{
}

/// The runs that are spoken of elsewhere are made of such steps: a step that succeeds in a poll
/// takes a connection from one state of a run to the next.
pub proof fn law_runs_are_made_of_steps<B, H, I: Clone, T, N, M, IE, OE>(
    connection: &mut Connection<B, H, I>,
    event: Event<B, H, I, T, IE, OE>,
    action: Action<I, N, M, IE, OE>,
)
    requires
        old(connection)@.wf(),
        event.fits(old(connection)@.progress.stage),
        call_ensures(
            Connection::<B, H, I>::step::<T, N, M, IE, OE>,
            (connection, event),
            Ok(action),
        ),
    ensures
        stepped(old(connection)@, event, action, final(connection)@),
{
}

/// An error of a connection is of the half that failed, holds what that failed with, and has
/// words that say which half it was.
pub proof fn law_errors_name_the_half<'a, IE, OE>(
    inbound: InboundError<IE>,
    from_inbound: ConnectionError<IE, OE>,
    outbound: OutboundError<OE>,
    from_outbound: ConnectionError<IE, OE>,
    error: &'a ConnectionError<IE, OE>,
    source: Option<Source<'a, IE, OE>>,
    text: String,
)
    requires
        call_ensures(
            <ConnectionError<IE, OE> as From<InboundError<IE>>>::from,
            (inbound,),
            from_inbound,
        ),
        call_ensures(
            <ConnectionError<IE, OE> as From<OutboundError<OE>>>::from,
            (outbound,),
            from_outbound,
        ),
        call_ensures(ConnectionError::<IE, OE>::source, (error,), source),
        call_ensures(ConnectionError::<IE, OE>::message, (error,), text),
    ensures
        from_inbound == ConnectionError::<IE, OE>::Inbound(inbound),
        from_outbound == ConnectionError::<IE, OE>::Outbound(outbound),
        match *error {
            ConnectionError::Inbound(err) => {
                &&& source == Some(Source::<IE, OE>::Inbound(&err))
                &&& text@ == "network input error"@
            },
            ConnectionError::Outbound(err) => {
                &&& source == Some(Source::<IE, OE>::Outbound(&err))
                &&& text@ == "network output error"@
            },
        },
{
}

/// When the parts of a state fit together: a request waits for its light connection exactly
/// while one is being opened, the inbound half is held through every round, and it is dropped
/// by the time the outbound half is closed.
pub proof fn law_when_the_parts_fit<B, H, I>(state: ConnectionView<B, H, I>)
    ensures
        state.wf() <==> {
            &&& state.opening is Some <==> state.progress.stage is Opening
            &&& state.progress.stage is Closing ==> !state.progress.inbound_open
            &&& !(state.progress.stage is Closing) && !(state.progress.stage is Idle)
                ==> state.progress.inbound_open
        },
{
}

} // verus!
