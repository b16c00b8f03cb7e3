//! A connection to a remote node that is driven by a queue of commands.
//!
//! What comes from the network and what the program asks for is put into one
//! queue, and [`ConnectionState`] works the queue off, one command after the
//! other: it says what to do on the network next and takes in how that went.
use crate::channels::{self, dropped, unbounded_halves, Outlet};
use crate::client::error::Cause;
use crate::client::message::{BlockHeaders, Inbound, LightWeightConnectionId, Message, Response};
use crate::client::requests::{
    asks, block_delivery, close_delivery, delivered, headers_delivery, remembered,
    requests_after_delivery, usable_headers, Delivery, Request, RequestTable, Undelivered,
};
use crate::poll::Async;
use futures::sync::mpsc::UnboundedReceiver;
use vstd::prelude::*;

verus! {

/// Something that the connection has to deal with.
#[verifier::reject_recursive_types(B)]
#[verifier::reject_recursive_types(H)]
pub enum Command<B, H, I, T, N, M> {
    /// Send a message to the remote node.
    Message(Message<I, N, M>),
    /// The remote node answered with headers.
    BlockHeaders(LightWeightConnectionId, Response<BlockHeaders<H>, String>),
    /// The remote node answered with a block.
    Blocks(LightWeightConnectionId, Response<B, String>),
    /// The remote node answered to a transaction.
    Transaction(LightWeightConnectionId, Response<T, String>),
    /// The program asks for something.
    Request(Request<B, H, I>),
    /// The remote node closed a light connection.
    CloseConnection(LightWeightConnectionId),
}

/// What to do next.
pub enum Action<I, N, M> {
    /// Subscribe with the remote node, with this flag.
    Subscribe(bool),
    /// Take the next command from the queue.
    NextCommand,
    /// Acknowledge the remote node's id.
    AckNodeId(N),
    /// Send a message.
    Send(Message<I, N, M>),
    /// Open a light connection.
    OpenLightConnection,
    /// Close a light connection.
    CloseLightConnection(LightWeightConnectionId),
    /// Stop: the connection is at its end, which is no error whatever led to it.
    Finish,
}

/// What a connection waits for.
#[derive(Debug, Clone, Copy, PartialEq, Eq, Structural)]
pub enum Stage {
    /// The subscription to be made.
    Subscribing,
    /// A command.
    Commands,
    /// A light connection for a request.
    Opening,
    /// The network to finish what it was told to do.
    Busy,
    /// Nothing any more.
    Finished,
}

/// What was waited for, as it came.
#[verifier::reject_recursive_types(B)]
#[verifier::reject_recursive_types(H)]
pub enum Event<B, H, I, T, N, M> {
    /// The subscription was made.
    Subscribed,
    /// The queue gave a command, or is at its end.
    Command(Option<Command<B, H, I, T, N, M>>),
    /// A light connection was opened.
    Opened(LightWeightConnectionId),
    /// The network did what it was told to do.
    Done,
    /// The network or the queue failed.
    Failed,
    /// Nothing more comes from the remote node: the inbound half is at its end or
    /// has failed.
    InboundEnded,
    /// Nothing more comes from the program: all its handles are gone.
    RequestsEnded,
}

/// The command that a message from the remote node makes, if it makes one.
pub open spec fn command_of<B, H, I, T, N, M>(inbound: Inbound<B, H, T>) -> Option<
    Command<B, H, I, T, N, M>,
> {
    match inbound {
        Inbound::BlockHeaders(id, response) => Some(Command::BlockHeaders(id, response)),
        Inbound::Block(id, response) => Some(Command::Blocks(id, response)),
        Inbound::CloseConnection(id) => Some(Command::CloseConnection(id)),
        Inbound::NothingExciting | Inbound::TransactionReceived(_, _) | Inbound::Other => None,
    }
}

/// Makes the command that a message from the remote node calls for. Answers to
/// transactions and what is of no interest call for none.
pub fn inbound_command<B, H, I, T, N, M>(inbound: Inbound<B, H, T>) -> (command: Option<
    Command<B, H, I, T, N, M>,
>)
    ensures
        command == command_of::<B, H, I, T, N, M>(inbound),
{
    match inbound {
        Inbound::NothingExciting => None,
        Inbound::BlockHeaders(id, response) => Some(Command::BlockHeaders(id, response)),
        Inbound::Block(id, response) => Some(Command::Blocks(id, response)),
        Inbound::TransactionReceived(_, _) => None,
        Inbound::CloseConnection(id) => Some(Command::CloseConnection(id)),
        Inbound::Other => None,
    }
}

/// Makes the queue of commands: an outlet for what comes from the network, another
/// for what the program asks for, and the end at which the commands are taken.
pub fn command_queue<B, H, I, T, N, M>() -> (queue: (
    Outlet<Command<B, H, I, T, N, M>>,
    Outlet<Command<B, H, I, T, N, M>>,
    UnboundedReceiver<Command<B, H, I, T, N, M>>,
))
    ensures
        unbounded_halves(queue.0.end(), queue.2),
        cloned(queue.0.end(), queue.1.end()),
        queue.0.sent() == Seq::<Command<B, H, I, T, N, M>>::empty(),
        queue.0.refused() == Seq::<Command<B, H, I, T, N, M>>::empty(),
        queue.0.shares() == 1,
        queue.1.fresh(),
{
    broadcast use channels::law_shared;

    let (mut network, commands) = channels::unbounded();
    let program = network.share();
    (network, program, commands)
}

/// Puts the command that a message from the remote node calls for into the queue,
/// and nothing where it calls for none. If nobody works the queue off any more, the
/// command comes back.
pub fn forward_inbound<B, H, I, T, N, M>(
    queue: &mut Outlet<Command<B, H, I, T, N, M>>,
    inbound: Inbound<B, H, T>,
) -> (outcome: Result<(), Command<B, H, I, T, N, M>>)
    ensures
        match command_of::<B, H, I, T, N, M>(inbound) {
            Some(command) => {
                &&& *final(queue) == old(queue).after(command, outcome is Ok)
                &&& outcome matches Err(back) ==> back == command
            },
            None => outcome is Ok && *final(queue) == *old(queue),
        },
{
    match inbound_command(inbound) {
        None => Ok(()),
        Some(command) => queue.post(command),
    }
}

/// Puts a request of the program into the queue. If nobody works the queue off
/// any more, the command comes back.
pub fn forward_request<B, H, I, T, N, M>(
    queue: &mut Outlet<Command<B, H, I, T, N, M>>,
    request: Request<B, H, I>,
) -> (outcome: Result<(), Command<B, H, I, T, N, M>>)
    ensures
        *final(queue) == old(queue).after(Command::Request(request), outcome is Ok),
        outcome matches Err(back) ==> back == Command::<B, H, I, T, N, M>::Request(request),
{
    queue.post(Command::Request(request))
}

/// The light connection that a command is about, where something may wait on it.
pub open spec fn about<B, H, I, T, N, M>(command: Command<B, H, I, T, N, M>) -> Option<
    LightWeightConnectionId,
> {
    match command {
        Command::BlockHeaders(id, _) => Some(id),
        Command::Blocks(id, _) => Some(id),
        Command::CloseConnection(id) => Some(id),
        Command::Message(_) | Command::Transaction(_, _) | Command::Request(_) => None,
    }
}

/// What a command makes owed to the program. A block request is done with after a
/// response with an error, headers or the end of its light connection; a tip request
/// after any of those or a block.
pub open spec fn command_delivery<B, H, I, T, N, M>(
    requests: Map<LightWeightConnectionId, Request<B, H, I>>,
    command: Command<B, H, I, T, N, M>,
) -> Option<Delivery<B, H, I>> {
    match command {
        Command::BlockHeaders(id, response) => headers_delivery(
            requests,
            id,
            response,
            Cause::UnexpectedReply,
        ),
        Command::Blocks(id, response) => block_delivery(requests, id, response, response is Ok),
        Command::CloseConnection(id) => close_delivery(requests, id),
        Command::Message(_) | Command::Transaction(_, _) | Command::Request(_) => None,
    }
}

/// The requests that wait after a command, whose answer was taken or not. Only what
/// waits on the light connection that the command is about can change.
pub open spec fn requests_after_command<B, H, I, T, N, M>(
    requests: Map<LightWeightConnectionId, Request<B, H, I>>,
    command: Command<B, H, I, T, N, M>,
    taken: bool,
) -> Map<LightWeightConnectionId, Request<B, H, I>> {
    match about(command) {
        Some(id) => requests_after_delivery(
            requests,
            id,
            command_delivery(requests, command),
            taken,
        ),
        None => requests,
    }
}

/// A command can be dealt with: if it brings headers for which a tip request
/// waits, there is at least one.
pub open spec fn usable_command<B, H, I, T, N, M>(
    requests: Map<LightWeightConnectionId, Request<B, H, I>>,
    command: Command<B, H, I, T, N, M>,
) -> bool {
    match command {
        Command::BlockHeaders(id, response) => usable_headers(requests, id, response),
        _ => true,
    }
}

/// What a command calls for on the network. Whatever a block was the answer to,
/// its light connection is closed.
pub open spec fn command_action<B, H, I, T, N, M>(command: Command<B, H, I, T, N, M>) -> Action<
    I,
    N,
    M,
> {
    match command {
        Command::Message(Message::AckNodeId(_, node_id)) => Action::AckNodeId(node_id),
        Command::Message(message) => Action::Send(message),
        Command::Blocks(id, _) => Action::CloseLightConnection(id),
        Command::Request(_) => Action::OpenLightConnection,
        Command::BlockHeaders(_, _)
        | Command::Transaction(_, _)
        | Command::CloseConnection(_) => Action::NextCommand,
    }
}

impl<I, N, M> Action<I, N, M> {
    /// What is waited for after this action.
    pub open spec fn stage(self) -> Stage {
        match self {
            Action::Subscribe(_) => Stage::Subscribing,
            Action::NextCommand => Stage::Commands,
            Action::OpenLightConnection => Stage::Opening,
            Action::AckNodeId(_)
            | Action::Send(_)
            | Action::CloseLightConnection(_) => Stage::Busy,
            Action::Finish => Stage::Finished,
        }
    }
}

impl<B, H, I, T, N, M> Event<B, H, I, T, N, M> {
    /// The event can come at this stage.
    pub open spec fn fits(self, stage: Stage) -> bool {
        match self {
            Event::Subscribed => stage == Stage::Subscribing,
            Event::Command(_) => stage == Stage::Commands,
            Event::Opened(_) => stage == Stage::Opening,
            Event::Done => stage == Stage::Busy,
            Event::Failed | Event::InboundEnded | Event::RequestsEnded => stage
                != Stage::Finished,
        }
    }
}

/// Puts a light connection to what is owed on it.
fn addressed<B, H, I>(
    id: LightWeightConnectionId,
    delivery: Option<Delivery<B, H, I>>,
) -> (owed: Option<(LightWeightConnectionId, Delivery<B, H, I>)>)
    ensures
        owed == match delivery {
            Some(delivery) => Some((id, delivery)),
            None => None,
        },
{
    match delivery {
        Some(delivery) => Some((id, delivery)),
        None => None,
    }
}

/// The state of a connection.
#[verifier::ext_equal]
#[verifier::reject_recursive_types(B)]
#[verifier::reject_recursive_types(H)]
#[verifier::reject_recursive_types(I)]
pub struct ConnectionStateView<B, H, I> {
    /// The requests that wait for an answer.
    pub requests: Map<LightWeightConnectionId, Request<B, H, I>>,
    /// The request that waits for its light connection.
    pub opening: Option<Request<B, H, I>>,
    /// What is waited for.
    pub stage: Stage,
}

impl<B, H, I> ConnectionStateView<B, H, I> {
    /// The parts fit together.
    pub open spec fn wf(self) -> bool {
        match self.stage {
            Stage::Opening => self.opening is Some,
            Stage::Finished => true,
            _ => self.opening is None,
        }
    }
}

/// A connection to a remote node.
#[verifier::reject_recursive_types(B)]
#[verifier::reject_recursive_types(H)]
#[verifier::reject_recursive_types(I)]
pub struct ConnectionState<B, H, I> {
    requests: RequestTable<B, H, I>,
    opening: Option<Request<B, H, I>>,
    stage: Stage,
}

impl<B, H, I> View for ConnectionState<B, H, I> {
    type V = ConnectionStateView<B, H, I>;

    closed spec fn view(&self) -> Self::V {
        ConnectionStateView {
            requests: self.requests@,
            opening: self.opening,
            stage: self.stage,
        }
    }
}

impl<B, H, I> ConnectionState<B, H, I> {
    /// Makes the state of a connection that has just been set up.
    pub fn new() -> (state: Self)
        ensures
            state@.wf(),
            state@ == (ConnectionStateView::<B, H, I> {
                requests: Map::empty(),
                opening: None,
                stage: Stage::Subscribing,
            }),
    {
        ConnectionState {
            requests: RequestTable::new(),
            opening: None,
            stage: Stage::Subscribing,
        }
    }

    /// Gives the first thing to do: subscribe, with the flag off.
    pub fn first_action<N, M>(&self) -> (action: Action<I, N, M>)
        ensures
            action == Action::<I, N, M>::Subscribe(false),
    {
        Action::Subscribe(false)
    }

    /// What running the connection gives: it waits until it is at its end, and then
    /// ends well.
    pub fn poll(&self) -> (polled: Result<Async<()>, ()>)
        ensures
            polled == Ok::<Async<()>, ()>(
                if self@.stage == Stage::Finished {
                    Async::Ready(())
                } else {
                    Async::NotReady
                },
            ),
    {
        match self.stage {
            Stage::Finished => Ok(Async::Ready(())),
            _ => Ok(Async::NotReady),
        }
    }

    /// Says whether a command can be dealt with.
    pub fn can_handle<T, N, M>(&self, command: &Command<B, H, I, T, N, M>) -> (usable: bool)
        ensures
            usable == usable_command(self@.requests, *command),
    {
        match command {
            Command::BlockHeaders(id, response) => self.requests.can_use_headers(*id, response),
            _ => true,
        }
    }

    /// Takes in a command and says what it makes owed to the program, on which light
    /// connection, and what it calls for on the network.
    pub fn handle_command<T, N, M>(&mut self, command: Command<B, H, I, T, N, M>) -> (decision: (
        Option<(LightWeightConnectionId, Delivery<B, H, I>)>,
        Action<I, N, M>,
    ))
        requires
            old(self)@.opening is None,
            usable_command(old(self)@.requests, command),
        ensures
            final(self)@ == (ConnectionStateView {
                requests: match about(command) {
                    Some(id) => old(self)@.requests.remove(id),
                    None => old(self)@.requests,
                },
                opening: match command {
                    Command::Request(request) => Some(request),
                    _ => None,
                },
                stage: command_action(command).stage(),
            }),
            match decision.0 {
                Some((id, delivery)) => {
                    &&& about(command) == Some(id)
                    &&& command_delivery(old(self)@.requests, command) == Some(delivery)
                },
                None => command_delivery(old(self)@.requests, command) is None,
            },
            decision.1 == command_action(command),
    {
        match command {
            Command::Message(Message::AckNodeId(_, node_id)) => {
                self.stage = Stage::Busy;
                (None, Action::AckNodeId(node_id))
            },
            Command::Message(message) => {
                self.stage = Stage::Busy;
                (None, Action::Send(message))
            },
            Command::BlockHeaders(id, response) => {
                self.stage = Stage::Commands;
                let owed = addressed(id, self.requests.headers(id, response, Cause::UnexpectedReply));
                (owed, Action::NextCommand)
            },
            Command::Blocks(id, response) => {
                self.stage = Stage::Busy;
                let owed = addressed(id, self.requests.block(id, response, false));
                (owed, Action::CloseLightConnection(id))
            },
            Command::Transaction(_, _) => {
                self.stage = Stage::Commands;
                (None, Action::NextCommand)
            },
            Command::Request(request) => {
                self.stage = Stage::Opening;
                self.opening = Some(request);
                (None, Action::OpenLightConnection)
            },
            Command::CloseConnection(id) => {
                self.stage = Stage::Commands;
                let owed = addressed(id, self.requests.closed(id));
                (owed, Action::NextCommand)
            },
        }
    }

    /// Decides how to go on once it is known how a delivery went. A block that
    /// could not be delivered ends the connection; an answer to a tip request that
    /// could not be delivered comes back.
    pub fn settle<N, M>(
        &mut self,
        action: Action<I, N, M>,
        delivered: Result<(), Undelivered<B, H>>,
    ) -> (outcome: Result<Action<I, N, M>, Undelivered<B, H>>)
        ensures
            outcome == settled(action, delivered),
            final(self)@ == (ConnectionStateView {
                stage: if delivered is Ok {
                    old(self)@.stage
                } else {
                    Stage::Finished
                },
                ..old(self)@
            }),
    {
        match delivered {
            Ok(()) => Ok(action),
            Err(Undelivered::Block(_)) => {
                self.stage = Stage::Finished;
                Ok(Action::Finish)
            },
            Err(Undelivered::Tip(answer)) => {
                self.stage = Stage::Finished;
                Err(Undelivered::Tip(answer))
            },
        }
    }

    /// Takes in the light connection that was opened for a request and gives the
    /// query to send over it. A request that waited on that light connection before
    /// is dropped as it is.
    pub fn opened<N, M>(
        &mut self,
        id: LightWeightConnectionId,
        request: Request<B, H, I>,
    ) -> (message: Message<I, N, M>) where I: Clone
        ensures
            final(self)@ == (ConnectionStateView {
                requests: old(self)@.requests.insert(id, final(self)@.requests[id]),
                ..old(self)@
            }),
            remembered(request, final(self)@.requests[id]),
            asks(message, id, request),
            old(self)@.requests.contains_key(id) ==> dropped(old(self)@.requests[id]),
    {
        self.requests.register(id, request)
    }

    /// Goes on after what was waited for has come.
    pub fn step<T, N, M>(&mut self, event: Event<B, H, I, T, N, M>) -> (outcome: Result<
        Action<I, N, M>,
        Undelivered<B, H>,
    >) where I: Clone
        requires
            old(self)@.wf(),
            event.fits(old(self)@.stage),
            event matches Event::Command(Some(command)) ==> usable_command(
                old(self)@.requests,
                command,
            ),
        ensures
            final(self)@.wf(),
            requests_step(old(self)@, event, final(self)@, taken(outcome)),
            went_on(old(self)@, event, outcome),
            final(self)@.stage == (match outcome {
                Ok(action) => action.stage(),
                Err(_) => Stage::Finished,
            }),
    {
        match event {
            Event::Subscribed => {
                self.stage = Stage::Commands;
                Ok(Action::NextCommand)
            },
            Event::Command(Some(command)) => {
                let (owed, action) = self.handle_command(command);
                let sent = match owed {
                    None => Ok(()),
                    Some((id, delivery)) => self.requests.deliver(id, Some(delivery)),
                };
                assert(self@.requests =~= requests_after_command(
                    old(self)@.requests,
                    command,
                    sent is Ok,
                ));
                self.settle(action, sent)
            },
            Event::Command(None) => {
                self.stage = Stage::Finished;
                Ok(Action::Finish)
            },
            Event::Opened(id) => {
                self.stage = Stage::Busy;
                match self.opening.take() {
                    Some(request) => Ok(Action::Send(self.opened(id, request))),
                    None => Ok(Action::NextCommand),
                }
            },
            Event::Done => {
                self.stage = Stage::Commands;
                Ok(Action::NextCommand)
            },
            Event::Failed | Event::InboundEnded | Event::RequestsEnded => {
                self.stage = Stage::Finished;
                Ok(Action::Finish)
            },
        }
    }
}

/// How a connection goes on once it is known how a delivery went.
pub open spec fn settled<B, H, I, N, M>(
    action: Action<I, N, M>,
    delivered: Result<(), Undelivered<B, H>>,
) -> Result<Action<I, N, M>, Undelivered<B, H>> {
    match delivered {
        Ok(()) => Ok(action),
        Err(Undelivered::Block(_)) => Ok(Action::Finish),
        Err(Undelivered::Tip(answer)) => Err(Undelivered::Tip(answer)),
    }
}

/// The answer that a command made owed, if it made one owed, was taken.
pub open spec fn taken<B, H, I, N, M>(
    outcome: Result<Action<I, N, M>, Undelivered<B, H>>,
) -> bool {
    outcome matches Ok(action) && !(action is Finish)
}

/// What an event does to the requests. A command settles what it settles, a request
/// of the program waits for its light connection, and an opened light connection
/// lets it wait for its answer there.
pub open spec fn requests_step<B, H, I: Clone, T, N, M>(
    before: ConnectionStateView<B, H, I>,
    event: Event<B, H, I, T, N, M>,
    after: ConnectionStateView<B, H, I>,
    taken: bool,
) -> bool {
    match event {
        Event::Command(Some(command)) => {
            &&& after.requests == requests_after_command(before.requests, command, taken)
            &&& after.opening == match command {
                Command::Request(request) => Some(request),
                _ => None,
            }
        },
        Event::Opened(id) => {
            &&& after.requests == before.requests.insert(id, after.requests[id])
            &&& before.opening matches Some(request) && remembered(request, after.requests[id])
            &&& before.requests.contains_key(id) ==> dropped(before.requests[id])
            &&& after.opening is None
        },
        _ => {
            &&& after.requests == before.requests
            &&& after.opening == before.opening
        },
    }
}

/// How a connection goes on after an event. A command leads to what it calls for
/// on the network, unless it makes something owed that cannot be delivered: a
/// block then ends the connection, and the answer to a tip request comes back. The
/// end of anything that the connection lives on ends it.
pub open spec fn went_on<B, H, I, T, N, M>(
    before: ConnectionStateView<B, H, I>,
    event: Event<B, H, I, T, N, M>,
    outcome: Result<Action<I, N, M>, Undelivered<B, H>>,
) -> bool {
    match event {
        Event::Subscribed | Event::Done => outcome matches Ok(Action::NextCommand),
        Event::Command(Some(command)) => {
            let owed = command_delivery(before.requests, command);
            match outcome {
                Ok(Action::Finish) => exists|answer: Result<B, _>| #[trigger]
                    delivered(owed, Err(Undelivered::Block(answer))),
                Ok(action) => action == command_action(command) && delivered(owed, Ok(())),
                Err(answer) => answer is Tip && delivered(owed, Err(answer)),
            }
        },
        Event::Command(None)
        | Event::Failed
        | Event::InboundEnded
        | Event::RequestsEnded => outcome matches Ok(Action::Finish),
        Event::Opened(id) => {
            &&& before.opening matches Some(request)
            &&& outcome matches Ok(Action::Send(message))
            &&& asks(message, id, request)
        },
    }
}

} // verus!
