//! A connection to a remote node that is driven by polling.
//!
//! [`Connection`] says what to poll next and takes in what the poll gave, until
//! it says what the whole poll returns.
use crate::channels::{self, dropped};
use crate::client::error::Cause;
use crate::client::message::{Inbound, LightWeightConnectionId, Message};
use crate::client::requests::{
    asks, block_delivery, close_delivery, delivered, headers_delivery, remembered,
    requests_after_delivery, usable_headers, Delivery, Request, RequestTable, Undelivered,
};
use crate::poll::Async;
use vstd::prelude::*;

verus! {

/// The inbound half of the connection failed.
#[derive(Debug, PartialEq, Eq)]
pub struct InboundError<E>(pub E);

/// The outbound half of the connection failed.
#[derive(Debug, PartialEq, Eq)]
pub struct OutboundError<E>(pub E);

/// The error that ends a connection.
#[derive(Debug, PartialEq, Eq)]
pub enum ConnectionError<IE, OE> {
    Inbound(InboundError<IE>),
    Outbound(OutboundError<OE>),
}

/// A reference to the error underneath a [`ConnectionError`].
#[derive(Debug)]
pub enum Source<'a, IE, OE> {
    Inbound(&'a InboundError<IE>),
    Outbound(&'a OutboundError<OE>),
}

impl<IE, OE> From<InboundError<IE>> for ConnectionError<IE, OE> {
    fn from(err: InboundError<IE>) -> (error: Self) {
        ConnectionError::Inbound(err)
    }
}

impl<IE, OE> vstd::std_specs::convert::FromSpecImpl<InboundError<IE>> for ConnectionError<IE, OE> {
    open spec fn obeys_from_spec() -> bool {
        true
    }

    open spec fn from_spec(err: InboundError<IE>) -> Self {
        ConnectionError::Inbound(err)
    }
}

impl<IE, OE> From<OutboundError<OE>> for ConnectionError<IE, OE> {
    fn from(err: OutboundError<OE>) -> (error: Self) {
        ConnectionError::Outbound(err)
    }
}

impl<IE, OE> vstd::std_specs::convert::FromSpecImpl<OutboundError<OE>> for ConnectionError<IE, OE> {
    open spec fn obeys_from_spec() -> bool {
        true
    }

    open spec fn from_spec(err: OutboundError<OE>) -> Self {
        ConnectionError::Outbound(err)
    }
}

impl<IE, OE> ConnectionError<IE, OE> {
    /// The error in words.
    pub open spec fn words(self) -> Seq<char> {
        match self {
            ConnectionError::Inbound(_) => "network input error"@,
            ConnectionError::Outbound(_) => "network output error"@,
        }
    }

    /// Returns the error in words.
    pub fn message(&self) -> (text: String)
        ensures
            text@ == self.words(),
    {
        match self {
            ConnectionError::Inbound(_) => "network input error".to_owned(),
            ConnectionError::Outbound(_) => "network output error".to_owned(),
        }
    }

    /// Returns the error underneath.
    pub fn source(&self) -> (source: Option<Source<'_, IE, OE>>)
        ensures
            source == Some(
                match *self {
                    ConnectionError::Inbound(err) => Source::Inbound(&err),
                    ConnectionError::Outbound(err) => Source::Outbound(&err),
                },
            ),
    {
        match self {
            ConnectionError::Inbound(err) => Some(Source::Inbound(err)),
            ConnectionError::Outbound(err) => Some(Source::Outbound(err)),
        }
    }
}

/// The light connection that a message from the remote node is about, where
/// something may wait for it.
pub open spec fn addressee<B, H, T>(inbound: Inbound<B, H, T>) -> Option<LightWeightConnectionId> {
    match inbound {
        Inbound::BlockHeaders(id, _) => Some(id),
        Inbound::Block(id, _) => Some(id),
        Inbound::CloseConnection(id) => Some(id),
        Inbound::NothingExciting | Inbound::TransactionReceived(_, _) | Inbound::Other => None,
    }
}

/// What a message from the remote node makes owed to the program. Headers and the
/// end of a light connection settle what waits there; a block settles only a tip
/// request.
pub open spec fn inbound_delivery<B, H, I, T>(
    requests: Map<LightWeightConnectionId, Request<B, H, I>>,
    inbound: Inbound<B, H, T>,
) -> Option<Delivery<B, H, I>> {
    match inbound {
        Inbound::BlockHeaders(id, response) => headers_delivery(
            requests,
            id,
            response,
            Cause::UnexpectedResponse,
        ),
        Inbound::Block(id, response) => block_delivery(requests, id, response, true),
        Inbound::CloseConnection(id) => close_delivery(requests, id),
        Inbound::NothingExciting | Inbound::TransactionReceived(_, _) | Inbound::Other => None,
    }
}

/// The requests that wait after a message from the remote node, whose answer was
/// taken or not. Only what waits on the light connection that the message is about
/// can change.
pub open spec fn requests_after_inbound<B, H, I, T>(
    requests: Map<LightWeightConnectionId, Request<B, H, I>>,
    inbound: Inbound<B, H, T>,
    taken: bool,
) -> Map<LightWeightConnectionId, Request<B, H, I>> {
    match addressee(inbound) {
        Some(id) => requests_after_delivery(
            requests,
            id,
            inbound_delivery(requests, inbound),
            taken,
        ),
        None => requests,
    }
}

/// A message from the remote node can be used: if it holds headers for which a
/// tip request waits, there is at least one.
pub open spec fn usable_inbound<B, H, I, T>(
    requests: Map<LightWeightConnectionId, Request<B, H, I>>,
    inbound: Inbound<B, H, T>,
) -> bool {
    match inbound {
        Inbound::BlockHeaders(id, response) => usable_headers(requests, id, response),
        _ => true,
    }
}

/// What a connection waits for.
#[derive(Debug, Clone, Copy, PartialEq, Eq, Structural)]
pub enum Stage {
    /// Nothing: no poll is under way.
    Idle,
    /// A message from the remote node.
    Inbound,
    /// A request of the program.
    Requests,
    /// A light connection for a request.
    Opening,
    /// The query of a request to be accepted for sending.
    Sending,
    /// The outbound half to be flushed.
    Outbound,
    /// The outbound half to be closed.
    Closing,
}

/// How far a poll has come.
#[derive(Debug, Clone, Copy, PartialEq, Eq, Structural)]
pub struct Progress {
    /// The inbound half is still held.
    pub inbound_open: bool,
    /// This round has had a message or a request.
    pub events_processed: bool,
    /// What is waited for.
    pub stage: Stage,
}

impl Progress {
    /// While the inbound half is held, a poll goes through the rounds; once it is
    /// dropped, only closing is left.
    pub open spec fn wf(self) -> bool {
        match self.stage {
            Stage::Idle => true,
            Stage::Closing => !self.inbound_open,
            _ => self.inbound_open,
        }
    }
}

/// What was waited for, as it came.
#[verifier::reject_recursive_types(B)]
#[verifier::reject_recursive_types(H)]
pub enum Event<B, H, I, T, IE, OE> {
    /// The inbound half was polled.
    Inbound(Result<Async<Option<Inbound<B, H, T>>>, InboundError<IE>>),
    /// The queue of requests was polled.
    Requests(Async<Option<Request<B, H, I>>>),
    /// A light connection was opened.
    Opened(LightWeightConnectionId),
    /// The query was accepted for sending.
    Sent,
    /// The light connection could not be opened, or the query not be sent.
    Failed(OutboundError<OE>),
    /// The outbound half was flushed.
    Outbound(Result<Async<()>, OutboundError<OE>>),
    /// The outbound half was closed.
    Closed(Result<Async<()>, OutboundError<OE>>),
}

/// What to do next.
pub enum Action<I, N, M, IE, OE> {
    /// Poll the inbound half.
    PollInbound,
    /// Poll the queue of requests.
    PollRequests,
    /// Open a light connection.
    OpenLightConnection,
    /// Hand a query to the outbound half.
    Send(Message<I, N, M>),
    /// Flush the outbound half.
    PollOutbound,
    /// Drop the inbound half and close the outbound half.
    CloseOutbound,
    /// Return this from the poll.
    Return(Result<Async<()>, ConnectionError<IE, OE>>),
}

impl<B, H, I, T, IE, OE> Event<B, H, I, T, IE, OE> {
    /// The event can come at this stage.
    pub open spec fn fits(self, stage: Stage) -> bool {
        match self {
            Event::Inbound(_) => stage == Stage::Inbound,
            Event::Requests(_) => stage == Stage::Requests,
            Event::Opened(_) => stage == Stage::Opening,
            Event::Sent => stage == Stage::Sending,
            Event::Failed(_) => stage == Stage::Opening || stage == Stage::Sending,
            Event::Outbound(_) => stage == Stage::Outbound,
            Event::Closed(_) => stage == Stage::Closing,
        }
    }

    /// The message from the remote node that this event brings, if it does.
    pub open spec fn message(self) -> Option<Inbound<B, H, T>> {
        match self {
            Event::Inbound(Ok(Async::Ready(message))) => message,
            _ => None,
        }
    }

    /// The request of the program that this event brings, if it does.
    pub open spec fn request(self) -> Option<Request<B, H, I>> {
        match self {
            Event::Requests(Async::Ready(request)) => request,
            _ => None,
        }
    }

    /// The event is the end of the inbound half or of the queue of requests.
    pub open spec fn ends_input(self) -> bool {
        match self {
            Event::Inbound(Ok(Async::Ready(None))) => true,
            Event::Requests(Async::Ready(None)) => true,
            _ => false,
        }
    }

    /// How far a poll has come after this event.
    pub open spec fn advance(self, progress: Progress) -> Progress {
        if self.ends_input() {
            Progress { inbound_open: false, stage: Stage::Closing, ..progress }
        } else if self.message() is Some {
            Progress { events_processed: true, stage: Stage::Requests, ..progress }
        } else if self.request() is Some {
            Progress { events_processed: true, stage: Stage::Opening, ..progress }
        } else {
            match self {
                Event::Inbound(Ok(_)) => Progress { stage: Stage::Requests, ..progress },
                Event::Requests(_) => Progress { stage: Stage::Outbound, ..progress },
                Event::Opened(_) => Progress { stage: Stage::Sending, ..progress },
                Event::Sent => Progress { stage: Stage::Outbound, ..progress },
                Event::Outbound(Ok(_)) => if progress.events_processed {
                    Progress { events_processed: false, stage: Stage::Inbound, ..progress }
                } else {
                    Progress { stage: Stage::Idle, ..progress }
                },
                Event::Inbound(Err(_))
                | Event::Failed(_)
                | Event::Outbound(Err(_))
                | Event::Closed(_) => Progress { stage: Stage::Idle, ..progress },
            }
        }
    }

    /// What a poll returns at this event, if it returns. An error of either half
    /// is returned as it is; a round without a message or a request leaves the
    /// poll waiting; and the outcome of closing is the outcome of the poll.
    pub open spec fn poll_result(self, progress: Progress) -> Option<
        Result<Async<()>, ConnectionError<IE, OE>>,
    > {
        match self {
            Event::Inbound(Err(err)) => Some(Err(ConnectionError::Inbound(err))),
            Event::Failed(err) => Some(Err(ConnectionError::Outbound(err))),
            Event::Outbound(Err(err)) => Some(Err(ConnectionError::Outbound(err))),
            Event::Outbound(Ok(_)) => if progress.events_processed {
                None
            } else {
                Some(Ok(Async::NotReady))
            },
            Event::Closed(Err(err)) => Some(Err(ConnectionError::Outbound(err))),
            Event::Closed(Ok(closed)) => Some(Ok(closed)),
            _ => None,
        }
    }
}

/// The state of a connection.
#[verifier::ext_equal]
#[verifier::reject_recursive_types(B)]
#[verifier::reject_recursive_types(H)]
#[verifier::reject_recursive_types(I)]
pub struct ConnectionView<B, H, I> {
    /// The requests that wait for an answer.
    pub requests: Map<LightWeightConnectionId, Request<B, H, I>>,
    /// The request that waits for its light connection.
    pub opening: Option<Request<B, H, I>>,
    /// How far the poll has come.
    pub progress: Progress,
}

/// A connection to a remote node.
#[verifier::reject_recursive_types(B)]
#[verifier::reject_recursive_types(H)]
#[verifier::reject_recursive_types(I)]
pub struct Connection<B, H, I> {
    requests: RequestTable<B, H, I>,
    opening: Option<Request<B, H, I>>,
    progress: Progress,
}

impl<B, H, I> View for Connection<B, H, I> {
    type V = ConnectionView<B, H, I>;

    closed spec fn view(&self) -> Self::V {
        ConnectionView {
            requests: self.requests@,
            opening: self.opening,
            progress: self.progress,
        }
    }
}

impl<B, H, I> ConnectionView<B, H, I> {
    /// The parts fit together.
    pub open spec fn wf(self) -> bool {
        &&& self.progress.wf()
        &&& self.opening is Some <==> self.progress.stage == Stage::Opening
    }
}

impl<B, H, I> Connection<B, H, I> {
    /// Makes a connection on which nothing has been asked yet.
    pub fn new() -> (connection: Self)
        ensures
            connection@.wf(),
            connection@ == (ConnectionView::<B, H, I> {
                requests: Map::empty(),
                opening: None,
                progress: Progress {
                    inbound_open: true,
                    events_processed: false,
                    stage: Stage::Idle,
                },
            }),
    {
        Connection {
            requests: RequestTable::new(),
            opening: None,
            progress: Progress {
                inbound_open: true,
                events_processed: false,
                stage: Stage::Idle,
            },
        }
    }

    /// Says whether a message from the remote node can be used.
    pub fn can_process<T>(&self, inbound: &Inbound<B, H, T>) -> (usable: bool)
        ensures
            usable == usable_inbound(self@.requests, *inbound),
    {
        match inbound {
            Inbound::BlockHeaders(id, response) => self.requests.can_use_headers(*id, response),
            _ => true,
        }
    }

    /// Takes in a message from the remote node and says what it makes owed to the
    /// program, and on which light connection. A response for which nothing waits is
    /// ignored.
    pub fn route_inbound<T>(&mut self, inbound: Inbound<B, H, T>) -> (owed: Option<
        (LightWeightConnectionId, Delivery<B, H, I>),
    >)
        requires
            usable_inbound(old(self)@.requests, inbound),
        ensures
            final(self)@ == (ConnectionView {
                requests: match addressee(inbound) {
                    Some(id) => old(self)@.requests.remove(id),
                    None => old(self)@.requests,
                },
                ..old(self)@
            }),
            match owed {
                Some((id, delivery)) => {
                    &&& addressee(inbound) == Some(id)
                    &&& inbound_delivery(old(self)@.requests, inbound) == Some(delivery)
                },
                None => inbound_delivery(old(self)@.requests, inbound) is None,
            },
    {
        let (id, delivery) = match inbound {
            Inbound::NothingExciting => {
                return None;
            },
            Inbound::BlockHeaders(id, response) => (
                id,
                self.requests.headers(id, response, Cause::UnexpectedResponse),
            ),
            Inbound::Block(id, response) => (id, self.requests.block(id, response, true)),
            Inbound::TransactionReceived(_, _) => {
                return None;
            },
            Inbound::CloseConnection(id) => (id, self.requests.closed(id)),
            Inbound::Other => {
                return None;
            },
        };
        match delivery {
            Some(delivery) => Some((id, delivery)),
            None => None,
        }
    }

    /// Takes in a message from the remote node and delivers what it makes owed
    /// to the program. An answer for which the program no longer waits comes back.
    pub fn process_inbound<T>(&mut self, inbound: Inbound<B, H, T>) -> (outcome: Result<
        (),
        Undelivered<B, H>,
    >)
        requires
            usable_inbound(old(self)@.requests, inbound),
        ensures
            final(self)@ == (ConnectionView {
                requests: requests_after_inbound(old(self)@.requests, inbound, outcome is Ok),
                ..old(self)@
            }),
            delivered(inbound_delivery(old(self)@.requests, inbound), outcome),
    {
        let outcome = match self.route_inbound(inbound) {
            None => Ok(()),
            Some((id, delivery)) => self.requests.deliver(id, Some(delivery)),
        };
        assert(self@.requests =~= requests_after_inbound(
            old(self)@.requests,
            inbound,
            outcome is Ok,
        ));
        outcome
    }

    /// Takes in a request of the program, for which a light connection has been
    /// opened, and gives the query to send over it. A request that waited on that
    /// light connection before is dropped as it is.
    pub fn process_request<N, M>(
        &mut self,
        id: LightWeightConnectionId,
        request: Request<B, H, I>,
    ) -> (message: Message<I, N, M>) where I: Clone
        ensures
            final(self)@ == (ConnectionView {
                requests: old(self)@.requests.insert(id, final(self)@.requests[id]),
                ..old(self)@
            }),
            remembered(request, final(self)@.requests[id]),
            asks(message, id, request),
            old(self)@.requests.contains_key(id) ==> dropped(old(self)@.requests[id]),
    {
        self.requests.register(id, request)
    }

    /// Starts a poll: with a round if the inbound half is still held, else with
    /// closing the outbound half.
    pub fn poll<N, M, IE, OE>(&mut self) -> (action: Action<I, N, M, IE, OE>)
        requires
            old(self)@.wf(),
            old(self)@.progress.stage == Stage::Idle,
        ensures
            final(self)@.wf(),
            final(self)@ == (ConnectionView {
                progress: start(old(self)@.progress),
                ..old(self)@
            }),
            action == if old(self)@.progress.inbound_open {
                Action::<I, N, M, IE, OE>::PollInbound
            } else {
                Action::<I, N, M, IE, OE>::CloseOutbound
            },
    {
        if self.progress.inbound_open {
            self.progress.events_processed = false;
            self.progress.stage = Stage::Inbound;
            Action::PollInbound
        } else {
            self.progress.stage = Stage::Closing;
            Action::CloseOutbound
        }
    }

    /// Goes on with a poll after what was waited for has come. A message that
    /// makes an answer owed for which the program no longer waits fails the step
    /// with that answer.
    pub fn step<T, N, M, IE, OE>(&mut self, event: Event<B, H, I, T, IE, OE>) -> (outcome: Result<
        Action<I, N, M, IE, OE>,
        Undelivered<B, H>,
    >) where I: Clone
        requires
            old(self)@.wf(),
            event.fits(old(self)@.progress.stage),
            event.message() matches Some(message) ==> usable_inbound(
                old(self)@.requests,
                message,
            ),
        ensures
            final(self)@.wf(),
            final(self)@.progress == event.advance(old(self)@.progress),
            requests_step(old(self)@, event, final(self)@, outcome is Ok),
            match outcome {
                Ok(action) => {
                    &&& acts(old(self)@, event, action)
                    &&& event.message() matches Some(message) ==> delivered(
                        inbound_delivery(old(self)@.requests, message),
                        Ok(()),
                    )
                },
                Err(answer) => event.message() matches Some(message) && delivered(
                    inbound_delivery(old(self)@.requests, message),
                    Err(answer),
                ),
            },
    {
        match event {
            Event::Inbound(Ok(Async::NotReady)) => {
                self.progress.stage = Stage::Requests;
                Ok(Action::PollRequests)
            },
            Event::Inbound(Ok(Async::Ready(None))) => {
                self.progress.inbound_open = false;
                self.progress.stage = Stage::Closing;
                Ok(Action::CloseOutbound)
            },
            Event::Inbound(Ok(Async::Ready(Some(message)))) => {
                self.progress.events_processed = true;
                self.progress.stage = Stage::Requests;
                match self.process_inbound(message) {
                    Ok(()) => Ok(Action::PollRequests),
                    Err(answer) => Err(answer),
                }
            },
            Event::Inbound(Err(err)) => {
                self.progress.stage = Stage::Idle;
                Ok(Action::Return(Err(ConnectionError::from(err))))
            },
            Event::Requests(Async::NotReady) => {
                self.progress.stage = Stage::Outbound;
                Ok(Action::PollOutbound)
            },
            Event::Requests(Async::Ready(Some(request))) => {
                self.progress.events_processed = true;
                self.progress.stage = Stage::Opening;
                self.opening = Some(request);
                Ok(Action::OpenLightConnection)
            },
            Event::Requests(Async::Ready(None)) => {
                self.progress.inbound_open = false;
                self.progress.stage = Stage::Closing;
                Ok(Action::CloseOutbound)
            },
            Event::Opened(id) => {
                self.progress.stage = Stage::Sending;
                match self.opening.take() {
                    Some(request) => Ok(Action::Send(self.process_request(id, request))),
                    None => Ok(Action::PollOutbound),
                }
            },
            Event::Sent => {
                self.progress.stage = Stage::Outbound;
                Ok(Action::PollOutbound)
            },
            Event::Failed(err) => {
                self.progress.stage = Stage::Idle;
                match self.opening.take() {
                    Some(request) => channels::discard(request),
                    None => {},
                }
                Ok(Action::Return(Err(ConnectionError::from(err))))
            },
            Event::Outbound(Ok(_)) => {
                if self.progress.events_processed {
                    self.progress.events_processed = false;
                    self.progress.stage = Stage::Inbound;
                    Ok(Action::PollInbound)
                } else {
                    self.progress.stage = Stage::Idle;
                    Ok(Action::Return(Ok(Async::NotReady)))
                }
            },
            Event::Outbound(Err(err)) => {
                self.progress.stage = Stage::Idle;
                Ok(Action::Return(Err(ConnectionError::from(err))))
            },
            Event::Closed(Ok(closed)) => {
                self.progress.stage = Stage::Idle;
                Ok(Action::Return(Ok(closed)))
            },
            Event::Closed(Err(err)) => {
                self.progress.stage = Stage::Idle;
                Ok(Action::Return(Err(ConnectionError::from(err))))
            },
        }
    }
}

/// How far a poll has come when it starts.
pub open spec fn start(progress: Progress) -> Progress {
    if progress.inbound_open {
        Progress { events_processed: false, stage: Stage::Inbound, ..progress }
    } else {
        Progress { stage: Stage::Closing, ..progress }
    }
}

/// What an event does to the requests. A message from the remote node settles
/// what it settles, a request of the program waits for its light connection, and
/// an opened light connection lets it wait for its answer there. A request whose
/// light connection cannot be opened is dropped as it is.
pub open spec fn requests_step<B, H, I: Clone, T, IE, OE>(
    before: ConnectionView<B, H, I>,
    event: Event<B, H, I, T, IE, OE>,
    after: ConnectionView<B, H, I>,
    taken: bool,
) -> bool {
    match event {
        Event::Inbound(Ok(Async::Ready(Some(message)))) => {
            &&& after.requests == requests_after_inbound(before.requests, message, taken)
            &&& after.opening == before.opening
        },
        Event::Requests(Async::Ready(Some(request))) => {
            &&& after.requests == before.requests
            &&& after.opening == Some(request)
        },
        Event::Opened(id) => {
            &&& after.requests == before.requests.insert(id, after.requests[id])
            &&& before.opening matches Some(request) && remembered(request, after.requests[id])
            &&& before.requests.contains_key(id) ==> dropped(before.requests[id])
            &&& after.opening is None
        },
        Event::Failed(_) => {
            &&& after.requests == before.requests
            &&& before.opening matches Some(request) ==> dropped(request)
            &&& after.opening is None
        },
        _ => {
            &&& after.requests == before.requests
            &&& after.opening == before.opening
        },
    }
}

/// An action is the one that an event calls for: what the poll returns, the query
/// of the request that waited for its light connection, or what the next stage
/// waits for.
pub open spec fn acts<B, H, I, T, N, M, IE, OE>(
    before: ConnectionView<B, H, I>,
    event: Event<B, H, I, T, IE, OE>,
    action: Action<I, N, M, IE, OE>,
) -> bool {
    match event.advance(before.progress).stage {
        Stage::Idle => event.poll_result(before.progress) matches Some(returned) && action
            == Action::<I, N, M, IE, OE>::Return(returned),
        Stage::Inbound => action is PollInbound,
        Stage::Requests => action is PollRequests,
        Stage::Opening => action is OpenLightConnection,
        Stage::Sending => {
            &&& event matches Event::Opened(id)
            &&& before.opening matches Some(request)
            &&& action matches Action::Send(message)
            &&& asks(message, id, request)
        },
        Stage::Outbound => action is PollOutbound,
        Stage::Closing => action is CloseOutbound,
    }
}

} // verus!
