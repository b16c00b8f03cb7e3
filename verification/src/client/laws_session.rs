//! What holds of working off a queue of commands as a whole.
use crate::channels;
use crate::client::connection::{inbound_delivery, requests_after_inbound};
use crate::client::error::{rpc, Cause, RequestError};
use crate::client::laws::has_sent;
use crate::client::laws_poll::one;
use crate::client::message::{BlockHeaders, Inbound, LightWeightConnectionId, Message, Response};
use crate::client::requests::{
    asks, block_answer, remembered, tip_answer, Delivery, Request, Undelivered,
};
use crate::client::session::{
    about, command_action, command_delivery, command_of, requests_after_command, requests_step,
    taken, went_on, Action, Command, ConnectionStateView, Event, Stage,
};
use vstd::prelude::*;

verus! {

/// Something that bears on the requests that wait.
#[verifier::reject_recursive_types(B)]
#[verifier::reject_recursive_types(H)]
pub enum Happening<B, H, I, T, N, M> {
    /// A command was worked off, and the answer that it made owed was taken or not.
    Command(Command<B, H, I, T, N, M>, bool),
    /// A light connection was opened, and this request waits there now.
    Opened(LightWeightConnectionId, Request<B, H, I>),
}

impl<B, H, I, T, N, M> Happening<B, H, I, T, N, M> {
    /// The light connection that this is about, where something may wait on it.
    pub open spec fn concerns(self) -> Option<LightWeightConnectionId> {
        match self {
            Happening::Command(command, _) => about(command),
            Happening::Opened(id, _) => Some(id),
        }
    }

    /// The requests that wait afterwards.
    pub open spec fn after(
        self,
        requests: Map<LightWeightConnectionId, Request<B, H, I>>,
    ) -> Map<LightWeightConnectionId, Request<B, H, I>> {
        match self {
            Happening::Command(command, taken) => requests_after_command(requests, command, taken),
            Happening::Opened(id, request) => requests.insert(id, request),
        }
    }

    /// What this makes owed to the program.
    pub open spec fn owes(
        self,
        requests: Map<LightWeightConnectionId, Request<B, H, I>>,
    ) -> Option<Delivery<B, H, I>> {
        match self {
            Happening::Command(command, _) => command_delivery(requests, command),
            Happening::Opened(_, _) => None,
        }
    }
}

/// The requests that wait after a sequence of happenings.
pub open spec fn requests_after_all<B, H, I, T, N, M>(
    requests: Map<LightWeightConnectionId, Request<B, H, I>>,
    happenings: Seq<Happening<B, H, I, T, N, M>>,
) -> Map<LightWeightConnectionId, Request<B, H, I>>
    decreases happenings.len(),
{
    if happenings.len() == 0 {
        requests
    } else {
        happenings.last().after(requests_after_all(requests, happenings.drop_last()))
    }
}

/// What the happening at a place in a sequence makes owed to the program.
pub open spec fn delivery_at<B, H, I, T, N, M>(
    requests: Map<LightWeightConnectionId, Request<B, H, I>>,
    happenings: Seq<Happening<B, H, I, T, N, M>>,
    place: int,
) -> Option<Delivery<B, H, I>> {
    happenings[place].owes(requests_after_all(requests, happenings.take(place)))
}

/// Happenings about other light connections leave a request alone, and its channel
/// end with it, however many there are.
pub proof fn law_requests_are_independent<B, H, I, T, N, M>(
    requests: Map<LightWeightConnectionId, Request<B, H, I>>,
    happenings: Seq<Happening<B, H, I, T, N, M>>,
    id: LightWeightConnectionId,
)
    requires
        forall|k: int|
            0 <= k < happenings.len() ==> (#[trigger] happenings[k]).concerns() != Some(id),
    ensures
        requests_after_all(requests, happenings).contains_key(id) == requests.contains_key(id),
        requests.contains_key(id) ==> requests_after_all(requests, happenings)[id] == requests[id],
    decreases happenings.len(),
{
    if happenings.len() > 0 {
        law_requests_are_independent(requests, happenings.drop_last(), id);
        assert(happenings.last() == happenings[happenings.len() - 1]);
    }
}

/// A command about a light connection on which nothing waits makes nothing owed and
/// changes no request, no channel end among that.
pub proof fn law_unasked_commands_are_ignored<B, H, I, T, N, M>(
    requests: Map<LightWeightConnectionId, Request<B, H, I>>,
    command: Command<B, H, I, T, N, M>,
    taken: bool,
)
    requires
        about(command) matches Some(id) ==> !requests.contains_key(id),
    ensures
        command_delivery(requests, command) is None,
        requests_after_command(requests, command, taken) == requests,
{
}

/// A command never makes a request wait for its answer that did not wait before, and
/// alters none but by one more block on the channel end of the block request that it
/// is about.
pub proof fn law_commands_only_settle<B, H, I, T, N, M>(
    requests: Map<LightWeightConnectionId, Request<B, H, I>>,
    command: Command<B, H, I, T, N, M>,
    taken: bool,
    id: LightWeightConnectionId,
)
    requires
        requests_after_command(requests, command, taken).contains_key(id),
    ensures
        requests.contains_key(id),
        requests_after_command(requests, command, taken)[id] == match (command, requests[id]) {
            (Command::Blocks(to_id, response), Request::Block(chan, from, to)) => if to_id == id {
                Request::Block(chan.after(block_answer(response), taken), from, to)
            } else {
                requests[id]
            },
            _ => requests[id],
        },
{
}

/// Nothing is owed to anyone who did not ask: a delivery goes to the channel end of
/// the request that waits on the light connection that the command is about.
pub proof fn law_deliveries_go_to_who_asked<B, H, I, T, N, M>(
    requests: Map<LightWeightConnectionId, Request<B, H, I>>,
    command: Command<B, H, I, T, N, M>,
)
    ensures
        command_delivery(requests, command) matches Some(delivery) ==> {
            &&& about(command) matches Some(id)
            &&& requests.contains_key(id)
            &&& match (delivery, requests[id]) {
                (Delivery::Tip(to, _), Request::Tip(chan)) => to == chan,
                (Delivery::Block(to, _, _), Request::Block(chan, _, _)) => to == chan,
                (Delivery::Close(to), Request::Block(chan, _, _)) => to == chan,
                _ => false,
            }
        },
{
}

/// Where nothing waits on a light connection, nothing waits there until it is
/// opened again.
proof fn lemma_settled_stays_settled<B, H, I, T, N, M>(
    requests: Map<LightWeightConnectionId, Request<B, H, I>>,
    happenings: Seq<Happening<B, H, I, T, N, M>>,
    id: LightWeightConnectionId,
    early: int,
    late: int,
)
    requires
        0 <= early <= late <= happenings.len(),
        !requests_after_all(requests, happenings.take(early)).contains_key(id),
        forall|k: int|
            early <= k < late ==> !(#[trigger] happenings[k] matches Happening::Opened(opened, _)
                && opened == id),
    ensures
        !requests_after_all(requests, happenings.take(late)).contains_key(id),
    decreases late - early,
{
    if early < late {
        lemma_settled_stays_settled(requests, happenings, id, early, late - 1);
        assert(happenings.take(late).drop_last() =~= happenings.take(late - 1));
        assert(happenings.take(late).last() == happenings[late - 1]);
    }
}

/// A request that a command settles is never answered again: neither a tip request
/// after its answer, nor a block request after a remote error, headers or the end of
/// its light connection. No later command about the light connection makes anything
/// owed, until it is opened again.
pub proof fn law_settled_requests_get_nothing<B, H, I, T, N, M>(
    requests: Map<LightWeightConnectionId, Request<B, H, I>>,
    happenings: Seq<Happening<B, H, I, T, N, M>>,
    id: LightWeightConnectionId,
    first: int,
    second: int,
)
    requires
        0 <= first < second < happenings.len(),
        happenings[first] is Command,
        happenings[first].concerns() == Some(id),
        happenings[second].concerns() == Some(id),
        requests_after_all(requests, happenings.take(first)).contains_key(id) ==> (
        requests_after_all(requests, happenings.take(first))[id] is Tip || !(
        happenings[first]->Command_0 matches Command::Blocks(_, Ok(_)))),
        forall|k: int|
            first < k < second ==> !(#[trigger] happenings[k] matches Happening::Opened(opened, _)
                && opened == id),
    ensures
        delivery_at(requests, happenings, second) is None,
{
    assert(happenings.take(first + 1).drop_last() =~= happenings.take(first));
    assert(happenings.take(first + 1).last() == happenings[first]);
    lemma_settled_stays_settled(requests, happenings, id, first + 1, second);
}

/// The blocks that came over a light connection and were taken, in the order in which
/// they came.
pub open spec fn blocks_on<B, H, I, T, N, M>(
    happenings: Seq<Happening<B, H, I, T, N, M>>,
    id: LightWeightConnectionId,
) -> Seq<Result<B, RequestError>>
    decreases happenings.len(),
{
    if happenings.len() == 0 {
        Seq::empty()
    } else {
        let before = blocks_on(happenings.drop_last(), id);
        match happenings.last() {
            Happening::Command(Command::Blocks(to_id, Ok(block)), true) => if to_id == id {
                before.push(Ok(block))
            } else {
                before
            },
            _ => before,
        }
    }
}

/// Whatever else goes on meanwhile, the channel end of a block request gets every
/// block that comes over its light connection, in the order in which they come, and
/// nothing else. A remote error, headers or the end of the light connection end that:
/// the request is then refused with one error, or its channel closed without any.
pub proof fn law_blocks_arrive_in_order<B, H, I, T, N, M>(
    requests: Map<LightWeightConnectionId, Request<B, H, I>>,
    happenings: Seq<Happening<B, H, I, T, N, M>>,
    id: LightWeightConnectionId,
    end: int,
)
    requires
        requests.contains_key(id),
        requests[id] is Block,
        0 <= end <= happenings.len(),
        forall|k: int|
            0 <= k < end && (#[trigger] happenings[k]).concerns() == Some(id)
                ==> happenings[k] matches Happening::Command(Command::Blocks(_, Ok(_)), _),
    ensures
        ({
            let waiting = requests_after_all(requests, happenings.take(end));
            &&& waiting.contains_key(id)
            &&& waiting[id] matches Request::Block(chan, from, to)
            &&& has_sent(requests[id]->Block_0, blocks_on(happenings.take(end), id), chan)
            &&& from == requests[id]->Block_1
            &&& to == requests[id]->Block_2
            &&& end < happenings.len() ==> match happenings[end] {
                Happening::Command(Command::Blocks(to_id, Err(text)), _) => to_id == id
                    ==> delivery_at(requests, happenings, end) == Some(
                    Delivery::<B, H, I>::Block(chan, Err(rpc(Cause::Remote(text))), None),
                ),
                Happening::Command(Command::BlockHeaders(to_id, _), _) => to_id == id
                    ==> delivery_at(requests, happenings, end) == Some(
                    Delivery::<B, H, I>::Block(chan, Err(rpc(Cause::UnexpectedReply)), None),
                ),
                Happening::Command(Command::CloseConnection(to_id), _) => to_id == id
                    ==> delivery_at(requests, happenings, end) == Some(
                    Delivery::<B, H, I>::Close(chan),
                ),
                _ => true,
            }
        }),
    decreases end,
{
    broadcast use channels::law_after;

    if end > 0 {
        law_blocks_arrive_in_order(requests, happenings, id, end - 1);
        let last = happenings[end - 1];
        assert(happenings.take(end).drop_last() =~= happenings.take(end - 1));
        assert(happenings.take(end).last() == last);
        if last.concerns() == Some(id) {
            let waiting = requests_after_all(requests, happenings.take(end - 1));
            let response = last->Command_0->Blocks_1;
            assert(requests_after_all(requests, happenings.take(end))[id]->Block_0
                == waiting[id]->Block_0.after(block_answer(response), last->Command_1));
        }
    }
}

/// A tip request that is answered with headers gets the first of them, over the
/// channel end that it came with, and is then forgotten.
pub proof fn law_tip_round_trip<B, H, I: Clone, T, N, M>(
    requests: Map<LightWeightConnectionId, Request<B, H, I>>,
    id: LightWeightConnectionId,
    request: Request<B, H, I>,
    stored: Request<B, H, I>,
    response: Response<BlockHeaders<H>, String>,
    taken: bool,
)
    requires
        request is Tip,
        remembered(request, stored),
    ensures
        command_delivery(
            requests.insert(id, stored),
            Command::<B, H, I, T, N, M>::BlockHeaders(id, response),
        ) == Some(Delivery::<B, H, I>::Tip(request->Tip_0, tip_answer(response))),
        requests_after_command(
            requests.insert(id, stored),
            Command::<B, H, I, T, N, M>::BlockHeaders(id, response),
            taken,
        ) == requests.remove(id),
{
    assert(requests.insert(id, stored).remove(id) =~= requests.remove(id));
}

/// A connection that works off commands treats a message from the remote node as
/// a polled connection does, but for two things: a block request does not outlive
/// a remote error, and headers for a block request are refused in other words.
pub proof fn law_both_drivers_agree<B, H, I, T, N, M>(
    requests: Map<LightWeightConnectionId, Request<B, H, I>>,
    inbound: Inbound<B, H, T>,
    taken: bool,
)
    ensures
        match command_of::<B, H, I, T, N, M>(inbound) {
            None => {
                &&& inbound_delivery(requests, inbound) is None
                &&& requests_after_inbound(requests, inbound, taken) == requests
            },
            Some(command) => {
                &&& requests_after_command(requests, command, taken) == match inbound {
                    Inbound::Block(id, Err(_)) => requests.remove(id),
                    _ => requests_after_inbound(requests, inbound, taken),
                }
                &&& command_delivery(requests, command) == match (
                    inbound,
                    inbound_delivery(requests, inbound),
                ) {
                    (Inbound::BlockHeaders(_, _), Some(Delivery::Block(chan, _, range))) => Some(
                        Delivery::<B, H, I>::Block(
                            chan,
                            Err(rpc(Cause::UnexpectedReply)),
                            range,
                        ),
                    ),
                    (Inbound::Block(_, Err(_)), Some(Delivery::Block(chan, answer, _))) => Some(
                        Delivery::<B, H, I>::Block(chan, answer, None),
                    ),
                    (_, delivery) => delivery,
                }
            },
        },
{
    if let Inbound::Block(id, Err(_)) = inbound {
        if !requests.contains_key(id) {
            assert(requests.remove(id) =~= requests);
        }
    }
}

/// The end is final: after it no event can come.
pub proof fn law_finish_is_final<B, H, I, T, N, M>(event: Event<B, H, I, T, N, M>)
    ensures
        !event.fits(Stage::Finished),
{
}

/// The end of the inbound half, of the program's requests or of the queue, and a
/// failure of the network, end the connection from wherever it stands, and nobody is
/// sent anything.
pub proof fn law_every_end_finishes<B, H, I: Clone, T, N, M>(
    before: ConnectionStateView<B, H, I>,
    event: Event<B, H, I, T, N, M>,
    outcome: Result<Action<I, N, M>, Undelivered<B, H>>,
    after: ConnectionStateView<B, H, I>,
)
    requires
        event is InboundEnded || event is RequestsEnded || event is Failed || event
            == Event::<B, H, I, T, N, M>::Command(None),
        went_on(before, event, outcome),
        requests_step(before, event, after, taken(outcome)),
    ensures
        outcome == Ok::<Action<I, N, M>, Undelivered<B, H>>(Action::Finish),
        after.requests == before.requests,
        after.opening == before.opening,
{
}

/// Commands are worked off one at a time: after a command that calls for something
/// on the network, no command is taken before the network is done with that.
pub proof fn law_one_command_at_a_time<B, H, I, T, N, M>(
    command: Command<B, H, I, T, N, M>,
    event: Event<B, H, I, T, N, M>,
)
    requires
        event.fits(command_action(command).stage()),
    ensures
        event is Command ==> command_action(command) is NextCommand,
        event is Opened ==> command is Request,
{
}

/// An event took a connection from one state to the next and called for an action.
pub open spec fn stepped<B, H, I: Clone, T, N, M>(
    before: ConnectionStateView<B, H, I>,
    event: Event<B, H, I, T, N, M>,
    action: Action<I, N, M>,
    after: ConnectionStateView<B, H, I>,
) -> bool {
    &&& before.wf()
    &&& event.fits(before.stage)
    &&& after.wf()
    &&& after.stage == action.stage()
    &&& requests_step(before, event, after, !(action is Finish))
    &&& went_on(before, event, Ok::<Action<I, N, M>, Undelivered<B, H>>(action))
}

/// A run of a connection: the events, the actions that they called for, and the
/// states before, between and after them.
pub open spec fn is_run<B, H, I: Clone, T, N, M>(
    states: Seq<ConnectionStateView<B, H, I>>,
    events: Seq<Event<B, H, I, T, N, M>>,
    actions: Seq<Action<I, N, M>>,
) -> bool
    decreases events.len(),
{
    &&& states.len() == events.len() + 1
    &&& actions.len() == events.len()
    &&& events.len() == 0 || {
        &&& is_run(states.drop_last(), events.drop_last(), actions.drop_last())
        &&& stepped(states.drop_last().last(), events.last(), actions.last(), states.last())
    }
}

/// The requests of the program that were taken from the queue in a run, in order.
pub open spec fn requests_made<B, H, I, T, N, M>(events: Seq<Event<B, H, I, T, N, M>>) -> Seq<
    Request<B, H, I>,
>
    decreases events.len(),
{
    if events.len() == 0 {
        Seq::empty()
    } else {
        requests_made(events.drop_last()) + match events.last() {
            Event::Command(Some(Command::Request(request))) => seq![request],
            _ => Seq::empty(),
        }
    }
}

/// The light connections that were opened in a run, in order, with the request that
/// each was opened for.
pub open spec fn openings<B, H, I, T, N, M>(
    states: Seq<ConnectionStateView<B, H, I>>,
    events: Seq<Event<B, H, I, T, N, M>>,
) -> Seq<(LightWeightConnectionId, Request<B, H, I>)>
    decreases events.len(),
{
    if events.len() == 0 {
        Seq::empty()
    } else {
        openings(states.drop_last(), events.drop_last()) + match events.last() {
            Event::Opened(id) => match states.drop_last().last().opening {
                Some(request) => seq![(id, request)],
                None => Seq::empty(),
            },
            _ => Seq::empty(),
        }
    }
}

/// The queries that opened light connections led to in a run, in order.
pub open spec fn queries<B, H, I, T, N, M>(
    events: Seq<Event<B, H, I, T, N, M>>,
    actions: Seq<Action<I, N, M>>,
) -> Seq<Message<I, N, M>>
    decreases events.len(),
{
    if events.len() == 0 {
        Seq::empty()
    } else {
        queries(events.drop_last(), actions.drop_last()) + match (events.last(), actions.last()) {
            (Event::Opened(_), Action::Send(message)) => seq![message],
            _ => Seq::empty(),
        }
    }
}

/// Every request of the program gets its light connection and its query, once and in
/// the order in which the requests were made; only the last may still wait for its
/// light connection.
pub proof fn law_requests_are_asked_in_order<B, H, I: Clone, T, N, M>(
    states: Seq<ConnectionStateView<B, H, I>>,
    events: Seq<Event<B, H, I, T, N, M>>,
    actions: Seq<Action<I, N, M>>,
)
    requires
        is_run(states, events, actions),
        states[0].wf(),
    ensures
        one(states[0].opening) + requests_made(events) == openings(states, events).map_values(
            |opened: (LightWeightConnectionId, Request<B, H, I>)| opened.1,
        ) + one(states.last().opening),
        queries(events, actions).len() == openings(states, events).len(),
        forall|k: int|
            0 <= k < queries(events, actions).len() ==> asks(
                #[trigger] queries(events, actions)[k],
                openings(states, events)[k].0,
                openings(states, events)[k].1,
            ),
    decreases events.len(),
{
    let request_of = |opened: (LightWeightConnectionId, Request<B, H, I>)| opened.1;
    if events.len() == 0 {
        assert(openings(states, events).map_values(request_of) =~= Seq::empty());
        assert(one(states[0].opening) + requests_made(events) =~= Seq::empty() + one(
            states.last().opening,
        ));
    } else {
        let early = states.drop_last();
        assert(states[0] == early[0]);
        law_requests_are_asked_in_order(early, events.drop_last(), actions.drop_last());
        let before = openings(early, events.drop_last());
        let all = openings(states, events);
        match events.last() {
            Event::Opened(id) => {
                let request = early.last().opening->Some_0;
                assert(all =~= before.push((id, request)));
                assert(all.map_values(request_of) =~= before.map_values(request_of) + seq![
                    request,
                ]);
            },
            _ => {
                assert(all =~= before);
            },
        }
        assert(one(states[0].opening) + requests_made(events) =~= all.map_values(request_of) + one(
            states.last().opening,
        ));
    }
}

/// What bore on the waiting requests in a run: each command, and each request that
/// began to wait for its answer.
pub open spec fn happenings<B, H, I, T, N, M>(
    states: Seq<ConnectionStateView<B, H, I>>,
    events: Seq<Event<B, H, I, T, N, M>>,
    actions: Seq<Action<I, N, M>>,
) -> Seq<Happening<B, H, I, T, N, M>>
    decreases events.len(),
{
    if events.len() == 0 {
        Seq::empty()
    } else {
        happenings(states.drop_last(), events.drop_last(), actions.drop_last())
            + match events.last() {
            Event::Command(Some(command)) => seq![
                Happening::Command(command, !(actions.last() is Finish)),
            ],
            Event::Opened(id) => seq![Happening::Opened(id, states.last().requests[id])],
            _ => Seq::empty(),
        }
    }
}

/// The commands among some happenings, in order.
pub open spec fn commands_of<B, H, I, T, N, M>(
    happenings: Seq<Happening<B, H, I, T, N, M>>,
) -> Seq<Command<B, H, I, T, N, M>>
    decreases happenings.len(),
{
    if happenings.len() == 0 {
        Seq::empty()
    } else {
        commands_of(happenings.drop_last()) + match happenings.last() {
            Happening::Command(command, _) => seq![command],
            _ => Seq::empty(),
        }
    }
}

/// The requests that began to wait among some happenings, in order, with the light
/// connection on which each waits.
pub open spec fn waits_of<B, H, I, T, N, M>(
    happenings: Seq<Happening<B, H, I, T, N, M>>,
) -> Seq<(LightWeightConnectionId, Request<B, H, I>)>
    decreases happenings.len(),
{
    if happenings.len() == 0 {
        Seq::empty()
    } else {
        waits_of(happenings.drop_last()) + match happenings.last() {
            Happening::Opened(id, request) => seq![(id, request)],
            _ => Seq::empty(),
        }
    }
}

/// The commands that were taken from the queue in a run, in order.
pub open spec fn commands_come<B, H, I, T, N, M>(events: Seq<Event<B, H, I, T, N, M>>) -> Seq<
    Command<B, H, I, T, N, M>,
>
    decreases events.len(),
{
    if events.len() == 0 {
        Seq::empty()
    } else {
        commands_come(events.drop_last()) + match events.last() {
            Event::Command(command) => one(command),
            _ => Seq::empty(),
        }
    }
}

/// Each command and each request is handled once and in order: the requests that wait
/// after a run are those that come of taking in, one after the other, every command
/// that came and every request that got its light connection, and nothing besides.
pub proof fn law_everything_is_handled_once<B, H, I: Clone, T, N, M>(
    states: Seq<ConnectionStateView<B, H, I>>,
    events: Seq<Event<B, H, I, T, N, M>>,
    actions: Seq<Action<I, N, M>>,
)
    requires
        is_run(states, events, actions),
    ensures
        states.last().requests == requests_after_all(
            states[0].requests,
            happenings(states, events, actions),
        ),
        commands_of(happenings(states, events, actions)) == commands_come(events),
        waits_of(happenings(states, events, actions)).len() == openings(states, events).len(),
        forall|k: int|
            0 <= k < openings(states, events).len() ==> {
                &&& waits_of(happenings(states, events, actions))[k].0 == openings(
                    states,
                    events,
                )[k].0
                &&& remembered(
                    (#[trigger] openings(states, events)[k]).1,
                    waits_of(happenings(states, events, actions))[k].1,
                )
            },
    decreases events.len(),
{
    if events.len() > 0 {
        let early = states.drop_last();
        law_everything_is_handled_once(early, events.drop_last(), actions.drop_last());
        assert(states[0] == early[0]);
        let before = happenings(early, events.drop_last(), actions.drop_last());
        let all = happenings(states, events, actions);
        match events.last() {
            Event::Command(Some(command)) => {
                assert(all =~= before.push(
                    Happening::Command(command, !(actions.last() is Finish)),
                ));
                assert(all.drop_last() =~= before);
                assert(openings(states, events) =~= openings(early, events.drop_last()));
                assert(waits_of(all) =~= waits_of(before));
            },
            Event::Opened(id) => {
                assert(all =~= before.push(Happening::Opened(id, states.last().requests[id])));
                assert(all.drop_last() =~= before);
                assert(commands_of(all) =~= commands_of(before));
                assert(commands_come(events) =~= commands_come(events.drop_last()));
            },
            _ => {
                assert(all =~= before);
                assert(commands_come(events) =~= commands_come(events.drop_last()));
                assert(openings(states, events) =~= openings(early, events.drop_last()));
            },
        }
    }
}

} // verus!
