//! What holds of each call on a connection that works off a queue of commands.
use crate::channels::{self, dropped, Outlet};
use crate::client::error::Cause;
use crate::client::laws_connection::asked_for;
use crate::client::laws_session::{is_run, stepped};
use crate::client::laws_table::{
    block_taken_in, end_taken_in, ends_blocks, headers_taken_in, untouched,
};
use crate::client::message::{Inbound, LightWeightConnectionId, Message};
use crate::client::requests::{delivered, Delivery, Request, Undelivered};
use crate::client::session::{
    command_delivery, command_queue, forward_inbound, forward_request, inbound_command,
    requests_after_command, Action, Command, ConnectionState, ConnectionStateView, Event, Stage,
};
use crate::poll::Async;
use futures::sync::mpsc::UnboundedReceiver;
use vstd::prelude::*;

verus! {

/// A message from the remote node becomes the command that holds all that the message holds,
/// under the light connection that the message names; bookkeeping, answers to transactions and
/// anything else become none.
pub proof fn law_commands_hold_what_came<B, H, I, T, N, M>(
    inbound: Inbound<B, H, T>,
    command: Option<Command<B, H, I, T, N, M>>,
)
    requires
        call_ensures(inbound_command::<B, H, I, T, N, M>, (inbound,), command),
    ensures
        match (inbound, command) {
            (Inbound::BlockHeaders(id, response), Some(Command::BlockHeaders(to, held))) => {
                to == id && held == response
            },
            (Inbound::Block(id, response), Some(Command::Blocks(to, held))) => {
                to == id && held == response
            },
            (Inbound::CloseConnection(id), Some(Command::CloseConnection(to))) => to == id,
            (Inbound::NothingExciting, None) => true,
            (Inbound::TransactionReceived(_, _), None) => true,
            (Inbound::Other, None) => true,
            _ => false,
        },
{
}

/// One command was put to a queue, and nothing else; it was taken or came back.
pub open spec fn one_command<B, H, I, T, N, M>(
    before: Outlet<Command<B, H, I, T, N, M>>,
    command: Command<B, H, I, T, N, M>,
    outcome: Result<(), Command<B, H, I, T, N, M>>,
    after: Outlet<Command<B, H, I, T, N, M>>,
) -> bool {
    &&& after.end() == before.end()
    &&& after.shares() == before.shares()
    &&& match outcome {
        Ok(()) => {
            &&& after.sent() == before.sent().push(command)
            &&& after.refused() == before.refused()
        },
        Err(back) => {
            &&& back == command
            &&& after.sent() == before.sent()
            &&& after.refused() == before.refused().push(command)
        },
    }
}

/// What comes from the remote node is queued as it is, under the light connection that it came
/// on, and nothing else is; where it calls for nothing, nothing is queued.
pub proof fn law_what_comes_is_queued<B, H, I, T, N, M>(
    queue: &mut Outlet<Command<B, H, I, T, N, M>>,
    inbound: Inbound<B, H, T>,
    outcome: Result<(), Command<B, H, I, T, N, M>>,
)
    requires
        call_ensures(forward_inbound::<B, H, I, T, N, M>, (queue, inbound), outcome),
    ensures
        match inbound {
            Inbound::BlockHeaders(id, response) => one_command(
                *old(queue),
                Command::BlockHeaders(id, response),
                outcome,
                *final(queue),
            ),
            Inbound::Block(id, response) => one_command(
                *old(queue),
                Command::Blocks(id, response),
                outcome,
                *final(queue),
            ),
            Inbound::CloseConnection(id) => one_command(
                *old(queue),
                Command::CloseConnection(id),
                outcome,
                *final(queue),
            ),
            _ => outcome is Ok && *final(queue) == *old(queue),
        },
{
    broadcast use channels::law_after;

}

/// What the program asks for is queued as it is, and nothing else.
pub proof fn law_what_is_asked_is_queued<B, H, I, T, N, M>(
    queue: &mut Outlet<Command<B, H, I, T, N, M>>,
    request: Request<B, H, I>,
    outcome: Result<(), Command<B, H, I, T, N, M>>,
)
    requires
        call_ensures(forward_request::<B, H, I, T, N, M>, (queue, request), outcome),
    ensures
        one_command(*old(queue), Command::Request(request), outcome, *final(queue)),
{
    broadcast use channels::law_after;

}

/// A new queue is empty, has one outlet for the network and one for the program, no third, and
/// both lead to the end at which the commands are taken.
pub proof fn law_a_new_queue_is_empty<B, H, I, T, N, M>(
    queue: (
        Outlet<Command<B, H, I, T, N, M>>,
        Outlet<Command<B, H, I, T, N, M>>,
        UnboundedReceiver<Command<B, H, I, T, N, M>>,
    ),
)
    requires
        call_ensures(command_queue::<B, H, I, T, N, M>, (), queue),
    ensures
        call_ensures(
            futures::sync::mpsc::unbounded::<Command<B, H, I, T, N, M>>,
            (),
            (queue.0.end(), queue.2),
        ),
        cloned(queue.0.end(), queue.1.end()),
        queue.0.sent().len() == 0,
        queue.0.refused().len() == 0,
        queue.0.shares() == 1,
        queue.1.sent().len() == 0,
        queue.1.refused().len() == 0,
        queue.1.shares() == 0,
{
}

/// A command was taken in: it answers what waits on the light connection that it names and
/// nothing else. A message to be sent, an answer to a transaction and a request answer nothing.
pub open spec fn command_taken_in<B, H, I, T, N, M>(
    before: Map<LightWeightConnectionId, Request<B, H, I>>,
    command: Command<B, H, I, T, N, M>,
    sent: Result<(), Undelivered<B, H>>,
    after: Map<LightWeightConnectionId, Request<B, H, I>>,
    other: LightWeightConnectionId,
) -> bool {
    match command {
        Command::BlockHeaders(id, response) => {
            &&& headers_taken_in(before, id, response, Cause::UnexpectedReply, sent, after)
            &&& other != id ==> untouched(before, other, after)
        },
        Command::Blocks(id, response) => {
            &&& block_taken_in(before, id, response, false, sent, after)
            &&& other != id ==> untouched(before, other, after)
        },
        Command::CloseConnection(id) => {
            &&& end_taken_in(before, id, sent, after)
            &&& other != id ==> untouched(before, other, after)
        },
        Command::Message(_) | Command::Transaction(_, _) | Command::Request(_) => {
            &&& sent is Ok
            &&& untouched(before, other, after)
        },
    }
}

/// The table after a delivery is that of a command that was taken in.
proof fn lemma_command_taken_in<B, H, I, T, N, M>(
    before: Map<LightWeightConnectionId, Request<B, H, I>>,
    command: Command<B, H, I, T, N, M>,
    sent: Result<(), Undelivered<B, H>>,
    after: Map<LightWeightConnectionId, Request<B, H, I>>,
    other: LightWeightConnectionId,
)
    requires
        after == requests_after_command(before, command, sent is Ok),
        delivered(command_delivery(before, command), sent),
    ensures
        command_taken_in(before, command, sent, after, other),
{
    broadcast use channels::law_after;

    if let Some(Delivery::Block(chan, answer, None)) = command_delivery(before, command) {
        assert(dropped(chan.after(answer, sent is Ok)));
        assert(ends_blocks(chan, answer, sent));
    }
}

/// What a command calls for on the network: an acknowledgement acknowledges the node that it
/// names, any other message is sent as it is, a block closes the very light connection that it
/// came on, a request opens one, and nothing else calls for anything.
pub open spec fn calls_for<B, H, I, T, N, M>(
    command: Command<B, H, I, T, N, M>,
    action: Action<I, N, M>,
) -> bool {
    match (command, action) {
        (Command::Message(Message::AckNodeId(_, node)), Action::AckNodeId(acked)) => acked == node,
        (Command::Message(Message::AckNodeId(_, _)), _) => false,
        (Command::Message(message), Action::Send(sent)) => sent == message,
        (Command::Blocks(id, _), Action::CloseLightConnection(closed)) => closed == id,
        (Command::Request(_), Action::OpenLightConnection) => true,
        (Command::BlockHeaders(_, _), Action::NextCommand) => true,
        (Command::Transaction(_, _), Action::NextCommand) => true,
        (Command::CloseConnection(_), Action::NextCommand) => true,
        _ => false,
    }
}

/// What is waited for after an action.
pub open spec fn waits_after<I, N, M>(action: Action<I, N, M>, stage: Stage) -> bool {
    match (action, stage) {
        (Action::Subscribe(_), Stage::Subscribing) => true,
        (Action::NextCommand, Stage::Commands) => true,
        (Action::OpenLightConnection, Stage::Opening) => true,
        (Action::AckNodeId(_), Stage::Busy) => true,
        (Action::Send(_), Stage::Busy) => true,
        (Action::CloseLightConnection(_), Stage::Busy) => true,
        (Action::Finish, Stage::Finished) => true,
        _ => false,
    }
}

/// Taking in a command without delivering yet says what it calls for on the network and what is
/// owed on the light connection that it names, takes the request that waits there out, and
/// touches nothing else. A block closes the very light connection that it came on.
pub proof fn law_a_command_is_decided<B, H, I, T, N, M>(
    state: &mut ConnectionState<B, H, I>,
    command: Command<B, H, I, T, N, M>,
    decision: (Option<(LightWeightConnectionId, Delivery<B, H, I>)>, Action<I, N, M>),
    other: LightWeightConnectionId,
)
    requires
        call_ensures(
            ConnectionState::<B, H, I>::handle_command::<T, N, M>,
            (state, command),
            decision,
        ),
    ensures
        calls_for(command, decision.1),
        waits_after(decision.1, final(state)@.stage),
        final(state)@.opening == match command {
            Command::Request(request) => Some(request),
            _ => None,
        },
        match command {
            Command::BlockHeaders(id, _)
            | Command::Blocks(id, _)
            | Command::CloseConnection(id) => {
                &&& !final(state)@.requests.contains_key(id)
                &&& other != id ==> untouched(old(state)@.requests, other, final(state)@.requests)
                &&& decision.0 is Some <==> old(state)@.requests.contains_key(id)
                &&& decision.0 matches Some((owed_id, delivery)) ==> owed_id == id && match (
                    delivery,
                    old(state)@.requests[id],
                ) {
                    (Delivery::Tip(to, _), Request::Tip(chan)) => to == chan,
                    (Delivery::Block(to, _, _), Request::Block(chan, _, _)) => to == chan,
                    (Delivery::Close(to), Request::Block(chan, _, _)) => to == chan,
                    _ => false,
                }
            },
            _ => {
                &&& decision.0 is None
                &&& untouched(old(state)@.requests, other, final(state)@.requests)
            },
        },
{
}

/// A delivery that went well changes nothing about how the connection goes on; a block that
/// could not be delivered ends it; an answer to a tip request that could not be delivered comes
/// back as it is, and the connection is at its end.
pub proof fn law_an_undelivered_answer_ends_the_connection<B, H, I, N, M>(
    state: &mut ConnectionState<B, H, I>,
    action: Action<I, N, M>,
    sent: Result<(), Undelivered<B, H>>,
    outcome: Result<Action<I, N, M>, Undelivered<B, H>>,
)
    requires
        call_ensures(
            ConnectionState::<B, H, I>::settle::<N, M>,
            (state, action, sent),
            outcome,
        ),
    ensures
        final(state)@.requests == old(state)@.requests,
        final(state)@.opening == old(state)@.opening,
        match sent {
            Ok(()) => {
                &&& outcome == Ok::<_, Undelivered<B, H>>(action)
                &&& final(state)@.stage == old(state)@.stage
            },
            Err(Undelivered::Block(_)) => {
                &&& outcome is Ok
                &&& outcome->Ok_0 is Finish
                &&& final(state)@.stage is Finished
            },
            Err(Undelivered::Tip(answer)) => {
                &&& outcome == Err::<Action<I, N, M>, _>(Undelivered::<B, H>::Tip(answer))
                &&& final(state)@.stage is Finished
            },
        },
{
}

/// The query of a request goes out on the light connection that was opened for it, under which
/// the request waits; it asks for what the request asks for and touches nothing else.
pub proof fn law_an_opened_request_is_asked_for<B, H, I: Clone, N, M>(
    state: &mut ConnectionState<B, H, I>,
    id: LightWeightConnectionId,
    request: Request<B, H, I>,
    message: Message<I, N, M>,
    other: LightWeightConnectionId,
)
    requires
        call_ensures(
            ConnectionState::<B, H, I>::opened::<N, M>,
            (state, id, request),
            message,
        ),
    ensures
        asked_for(
            old(state)@.requests,
            id,
            request,
            message,
            final(state)@.requests,
            other,
        ),
        final(state)@.opening == old(state)@.opening,
        final(state)@.stage == old(state)@.stage,
{
}

/// What a step does and calls for, event by event. A command answers what waits on the light
/// connection that it names and leads to what it calls for, unless an answer cannot be
/// delivered; an opened light connection gets the query of the request that it was opened for;
/// whatever is done leads to the next command; and the end of anything ends the connection.
pub proof fn law_a_step_does_what_its_event_calls_for<B, H, I: Clone, T, N, M>(
    state: &mut ConnectionState<B, H, I>,
    event: Event<B, H, I, T, N, M>,
    outcome: Result<Action<I, N, M>, Undelivered<B, H>>,
    other: LightWeightConnectionId,
)
    requires
        old(state)@.wf(),
        event.fits(old(state)@.stage),
        call_ensures(ConnectionState::<B, H, I>::step::<T, N, M>, (state, event), outcome),
    ensures
        outcome matches Ok(action) ==> waits_after(action, final(state)@.stage),
        outcome is Err ==> final(state)@.stage is Finished && event matches Event::Command(
            Some(_),
        ),
        !(event matches Event::Command(Some(_))) && !(event is Opened) ==> untouched(
            old(state)@.requests,
            other,
            final(state)@.requests,
        ) && final(state)@.opening == old(state)@.opening,
        match event {
            Event::Command(Some(command)) => {
                &&& final(state)@.opening == match command {
                    Command::Request(request) => Some(request),
                    _ => None,
                }
                &&& match outcome {
                    Ok(Action::Finish) => exists|answer: Result<B, _>| #[trigger]
                        command_taken_in(
                            old(state)@.requests,
                            command,
                            Err(Undelivered::Block(answer)),
                            final(state)@.requests,
                            other,
                        ),
                    Ok(action) => {
                        &&& calls_for(command, action)
                        &&& command_taken_in(
                            old(state)@.requests,
                            command,
                            Ok(()),
                            final(state)@.requests,
                            other,
                        )
                    },
                    Err(answer) => {
                        &&& answer is Tip
                        &&& command_taken_in(
                            old(state)@.requests,
                            command,
                            Err(answer),
                            final(state)@.requests,
                            other,
                        )
                    },
                }
            },
            Event::Subscribed | Event::Done => outcome->Ok_0 is NextCommand,
            Event::Opened(id) => {
                &&& old(state)@.opening is Some
                &&& outcome->Ok_0 matches Action::Send(message)
                &&& asked_for(
                    old(state)@.requests,
                    id,
                    old(state)@.opening->Some_0,
                    message,
                    final(state)@.requests,
                    other,
                )
                &&& final(state)@.opening is None
            },
            Event::Command(None)
            | Event::Failed
            | Event::InboundEnded
            | Event::RequestsEnded => outcome->Ok_0 is Finish,
        },
{
    if let Event::Command(Some(command)) = event {
        let before = old(state)@.requests;
        let after = final(state)@.requests;
        match outcome {
            Ok(Action::Finish) => {
                let answer = choose|answer: Result<B, _>| #[trigger]
                    delivered(
                        command_delivery(before, command),
                        Err(Undelivered::Block(answer)),
                    );
                lemma_command_taken_in(
                    before,
                    command,
                    Err(Undelivered::Block(answer)),
                    after,
                    other,
                );
            },
            Ok(_) => lemma_command_taken_in(before, command, Ok(()), after, other),
            Err(answer) => lemma_command_taken_in(before, command, Err(answer), after, other),
        }
    }
}

/// An event comes at the stage that waits for it, and at no other; only what ends a connection
/// can come at any stage before the end.
pub proof fn law_events_come_at_their_stage<B, H, I, T, N, M>(
    event: Event<B, H, I, T, N, M>,
    stage: Stage,
)
    ensures
        event.fits(stage) <==> match (event, stage) {
            (_, Stage::Finished) => false,
            (Event::Subscribed, Stage::Subscribing) => true,
            (Event::Command(_), Stage::Commands) => true,
            (Event::Opened(_), Stage::Opening) => true,
            (Event::Done, Stage::Busy) => true,
            (Event::Failed, _) => true,
            (Event::InboundEnded, _) => true,
            (Event::RequestsEnded, _) => true,
            _ => false,
        },
{
}

/// When the parts of a state fit together: a request waits for its light connection while one is
/// being opened, and at no other stage before the end.
pub proof fn law_when_the_parts_fit<B, H, I>(state: ConnectionStateView<B, H, I>)
    ensures
        state.wf() <==> {
            &&& state.stage is Opening ==> state.opening is Some
            &&& state.opening is Some ==> state.stage is Opening || state.stage is Finished
        },
{
}

/// Every command can be dealt with but one with empty headers for which a tip request waits, and
/// a step can be taken with every event that comes at its stage but for that one.
pub proof fn law_steps_can_be_taken<B, H, I: Clone, T, N, M>(
    state: &mut ConnectionState<B, H, I>,
    command: Command<B, H, I, T, N, M>,
    event: Event<B, H, I, T, N, M>,
)
    requires
        old(state)@.wf(),
    ensures
        ({
            let usable = command matches Command::BlockHeaders(asked, Ok(headers))
                ==> headers.0@.len() > 0 || !old(state)@.requests.contains_key(asked)
                || old(state)@.requests[asked] is Block;
            &&& usable && old(state)@.opening is None ==> call_requires(
                ConnectionState::<B, H, I>::handle_command::<T, N, M>,
                (state, command),
            )
            &&& event.fits(old(state)@.stage) && (event matches Event::Command(Some(brought))
                ==> brought == command && usable) ==> call_requires(
                ConnectionState::<B, H, I>::step::<T, N, M>,
                (state, event),
            )
        }),
{
}

/// A new connection has nothing waiting and begins by subscribing, with the flag off. Running it
/// waits until it is at its end and then ends well. It can deal with every command but one with
/// empty headers for which a tip request waits.
pub proof fn law_connections_begin_and_end<B, H, I, T, N, M>(
    new: ConnectionState<B, H, I>,
    state: &ConnectionState<B, H, I>,
    first: Action<I, N, M>,
    polled: Result<Async<()>, ()>,
    command: &Command<B, H, I, T, N, M>,
    usable: bool,
    id: LightWeightConnectionId,
)
    requires
        call_ensures(ConnectionState::<B, H, I>::new, (), new),
        call_ensures(ConnectionState::<B, H, I>::first_action::<N, M>, (state,), first),
        call_ensures(ConnectionState::<B, H, I>::poll, (state,), polled),
        call_ensures(ConnectionState::<B, H, I>::can_handle::<T, N, M>, (state, command), usable),
    ensures
        !new@.requests.contains_key(id),
        new@.opening is None,
        new@.stage is Subscribing,
        first matches Action::Subscribe(flag) && !flag,
        polled is Ok,
        polled->Ok_0 is Ready <==> state@.stage is Finished,
        !usable <==> {
            &&& *command matches Command::BlockHeaders(asked, Ok(headers))
            &&& headers.0@.len() == 0
            &&& state@.requests.contains_key(asked)
            &&& state@.requests[asked] is Tip
        },
{
}

/// The runs that are spoken of elsewhere are made of such steps: a step that succeeds takes a
/// connection from one state of a run to the next.
pub proof fn law_runs_are_made_of_steps<B, H, I: Clone, T, N, M>(
    state: &mut ConnectionState<B, H, I>,
    event: Event<B, H, I, T, N, M>,
    action: Action<I, N, M>,
)
    requires
        old(state)@.wf(),
        event.fits(old(state)@.stage),
        call_ensures(ConnectionState::<B, H, I>::step::<T, N, M>, (state, event), Ok(action)),
    ensures
        stepped(old(state)@, event, action, final(state)@),
{
}

/// The light connections that were told to close in a run, in order.
pub open spec fn closings<I, N, M>(actions: Seq<Action<I, N, M>>) -> Seq<LightWeightConnectionId>
    decreases actions.len(),
{
    if actions.len() == 0 {
        Seq::empty()
    } else {
        closings(actions.drop_last()) + match actions.last() {
            Action::CloseLightConnection(id) => seq![id],
            _ => Seq::empty(),
        }
    }
}

/// The light connections over which blocks came in a run, in order, up to one whose block could
/// not be delivered.
pub open spec fn blocks_came_on<B, H, I, T, N, M>(
    events: Seq<Event<B, H, I, T, N, M>>,
    actions: Seq<Action<I, N, M>>,
) -> Seq<LightWeightConnectionId>
    decreases events.len(),
{
    if events.len() == 0 {
        Seq::empty()
    } else {
        blocks_came_on(events.drop_last(), actions.drop_last()) + match events.last() {
            Event::Command(Some(Command::Blocks(id, _))) => if actions.last() is Finish {
                Seq::empty()
            } else {
                seq![id]
            },
            _ => Seq::empty(),
        }
    }
}

/// Over a run, the light connections that are closed are exactly those over which blocks came,
/// once for each block and in the order of the blocks. A block that cannot be delivered ends the
/// run in place of the closing.
pub proof fn law_each_block_closes_its_light_connection<B, H, I: Clone, T, N, M>(
    states: Seq<ConnectionStateView<B, H, I>>,
    events: Seq<Event<B, H, I, T, N, M>>,
    actions: Seq<Action<I, N, M>>,
)
    requires
        is_run(states, events, actions),
    ensures
        closings(actions) == blocks_came_on(events, actions),
    decreases events.len(),
{
    if events.len() > 0 {
        law_each_block_closes_its_light_connection(
            states.drop_last(),
            events.drop_last(),
            actions.drop_last(),
        );
    }
}

} // verus!
