//! Requests that wait for the remote node's answer.
use crate::channels::{self, answered, closed_down, dropped, unanswered, Outlet};
use crate::client::error::{rpc, Cause, ErrorKind, RequestError};
use crate::client::message::{
    convert_response, BlockHeaders, GetBlockHeaders, GetBlocks, LightWeightConnectionId, Message,
    Response,
};
use futures::sync::oneshot;
use std::collections::HashMap;
use vstd::prelude::*;

verus! {

broadcast use vstd::std_specs::hash::group_hash_axioms;

/// A request of the program, with the channel end over which it wants the answer.
#[verifier::reject_recursive_types(B)]
#[verifier::reject_recursive_types(H)]
pub enum Request<B, H, I> {
    /// The header at the tip of the remote node's chain.
    Tip(oneshot::Sender<Result<H, RequestError>>),
    /// The blocks of a range, one by one.
    Block(Outlet<Result<B, RequestError>>, I, I),
}

/// Something owed to the program that asked.
#[verifier::reject_recursive_types(B)]
#[verifier::reject_recursive_types(H)]
pub enum Delivery<B, H, I> {
    /// The answer to a tip request.
    Tip(oneshot::Sender<Result<H, RequestError>>, Result<H, RequestError>),
    /// One answer to a block request, which goes on waiting for the blocks of its
    /// range if that is given, and is done with else.
    Block(Outlet<Result<B, RequestError>>, Result<B, RequestError>, Option<(I, I)>),
    /// No more answers to a block request.
    Close(Outlet<Result<B, RequestError>>),
}

/// An answer that nobody was there to take.
#[derive(Debug)]
pub enum Undelivered<B, H> {
    Tip(Result<H, RequestError>),
    Block(Result<B, RequestError>),
}

impl<B, H, I> Delivery<B, H, I> {
    /// What is sent, unless the delivery only closes a channel.
    pub open spec fn answer(self) -> Option<Undelivered<B, H>> {
        match self {
            Delivery::Tip(_, answer) => Some(Undelivered::Tip(answer)),
            Delivery::Block(_, answer, _) => Some(Undelivered::Block(answer)),
            Delivery::Close(_) => None,
        }
    }

    /// The request that goes on waiting after the delivery: its channel end has had
    /// this one answer more.
    pub open spec fn resumed(self, taken: bool) -> Option<Request<B, H, I>> {
        match self {
            Delivery::Block(chan, answer, Some((from, to))) => Some(
                Request::Block(chan.after(answer, taken), from, to),
            ),
            _ => None,
        }
    }

    /// What became of a channel end that is done with: it was used up by the answer,
    /// or dropped after it, or closed without any answer.
    pub open spec fn finished(self, taken: bool) -> bool {
        match self {
            Delivery::Tip(chan, answer) => if taken {
                answered(chan, answer)
            } else {
                unanswered(chan, answer)
            },
            Delivery::Block(_, _, Some(_)) => true,
            Delivery::Block(chan, answer, None) => dropped(chan.after(answer, taken)),
            Delivery::Close(chan) => taken && closed_down(chan),
        }
    }

    /// Carries the delivery out and gives the request that goes on waiting. An
    /// answer that cannot be delivered because the program has stopped waiting for
    /// it comes back.
    pub fn perform(self) -> (outcome: (Result<(), Undelivered<B, H>>, Option<Request<B, H, I>>))
        ensures
            self.finished(outcome.0 is Ok),
            outcome.1 == self.resumed(outcome.0 is Ok),
            outcome.0 matches Err(answer) ==> Some(answer) == self.answer(),
    {
        match self {
            Delivery::Tip(chan, answer) => match chan.send(answer) {
                Ok(()) => (Ok(()), None),
                Err(answer) => (Err(Undelivered::Tip(answer)), None),
            },
            Delivery::Block(chan, answer, range) => {
                let mut chan = chan;
                let sent = match chan.post(answer) {
                    Ok(()) => Ok(()),
                    Err(answer) => Err(Undelivered::Block(answer)),
                };
                match range {
                    Some((from, to)) => (sent, Some(Request::Block(chan, from, to))),
                    None => {
                        channels::discard(chan);
                        (sent, None)
                    },
                }
            },
            Delivery::Close(chan) => {
                channels::close(chan);
                (Ok(()), None)
            },
        }
    }
}

/// What was owed was tried to be delivered, and taken or not. Only an answer can
/// fail to be taken.
pub open spec fn delivered<B, H, I>(
    owed: Option<Delivery<B, H, I>>,
    sent: Result<(), Undelivered<B, H>>,
) -> bool {
    match owed {
        Some(delivery) => {
            &&& delivery.finished(sent is Ok)
            &&& sent matches Err(answer) ==> delivery.answer() == Some(answer)
        },
        None => sent is Ok,
    }
}

/// The requests that wait once what was owed on a light connection has been
/// delivered: no other request is touched.
pub open spec fn requests_after_delivery<B, H, I>(
    requests: Map<LightWeightConnectionId, Request<B, H, I>>,
    id: LightWeightConnectionId,
    owed: Option<Delivery<B, H, I>>,
    taken: bool,
) -> Map<LightWeightConnectionId, Request<B, H, I>> {
    match owed {
        Some(delivery) => match delivery.resumed(taken) {
            Some(request) => requests.insert(id, request),
            None => requests.remove(id),
        },
        None => requests,
    }
}

/// Makes the error for a response that does not fit the pending request.
pub fn unexpected_response_error() -> (error: RequestError)
    ensures
        error == rpc(Cause::UnexpectedResponse),
{
    RequestError::new(ErrorKind::Rpc, Cause::UnexpectedResponse)
}

/// Takes the first of some headers.
fn first_header<H>(headers: BlockHeaders<H>) -> (first: H)
    requires
        headers.0@.len() > 0,
    ensures
        first == headers.0@[0],
{
    let mut headers: Vec<H> = headers.0;
    headers.swap_remove(0)
}

/// Leaves a block as it is.
fn same_block<B>(block: B) -> (same: B)
    ensures
        same == block,
{
    block
}

/// The answer to a tip request that a response with headers makes.
pub open spec fn tip_answer<H>(response: Response<BlockHeaders<H>, String>) -> Result<
    H,
    RequestError,
> {
    match response {
        Ok(headers) => Ok(headers.0@[0]),
        Err(text) => Err(rpc(Cause::Remote(text))),
    }
}

/// The answer to a block request that a response with a block makes.
pub open spec fn block_answer<B>(response: Response<B, String>) -> Result<B, RequestError> {
    match response {
        Ok(block) => Ok(block),
        Err(text) => Err(rpc(Cause::Remote(text))),
    }
}

/// A response with headers can be used: where a tip request waits for it, it
/// holds at least one header or is an error.
pub open spec fn usable_headers<B, H, I>(
    requests: Map<LightWeightConnectionId, Request<B, H, I>>,
    id: LightWeightConnectionId,
    response: Response<BlockHeaders<H>, String>,
) -> bool {
    requests.contains_key(id) && requests[id] is Tip ==> match response {
        Ok(headers) => headers.0@.len() > 0,
        Err(_) => true,
    }
}

/// What a response with headers makes owed. A tip request gets the first header
/// or the remote error; a block request is refused with the given cause.
pub open spec fn headers_delivery<B, H, I>(
    requests: Map<LightWeightConnectionId, Request<B, H, I>>,
    id: LightWeightConnectionId,
    response: Response<BlockHeaders<H>, String>,
    mismatch: Cause,
) -> Option<Delivery<B, H, I>> {
    if requests.contains_key(id) {
        match requests[id] {
            Request::Tip(chan) => Some(Delivery::Tip(chan, tip_answer(response))),
            Request::Block(chan, _, _) => Some(
                Delivery::Block(chan, Err(rpc(mismatch)), None),
            ),
        }
    } else {
        None
    }
}

/// What a response with a block makes owed. A block request gets the block or
/// the remote error and goes on waiting where the caller keeps it; a tip request is
/// refused.
pub open spec fn block_delivery<B, H, I>(
    requests: Map<LightWeightConnectionId, Request<B, H, I>>,
    id: LightWeightConnectionId,
    response: Response<B, String>,
    keep: bool,
) -> Option<Delivery<B, H, I>> {
    if requests.contains_key(id) {
        match requests[id] {
            Request::Tip(chan) => Some(
                Delivery::Tip(chan, Err(rpc(Cause::UnexpectedResponse))),
            ),
            Request::Block(chan, from, to) => Some(
                Delivery::Block(
                    chan,
                    block_answer(response),
                    if keep {
                        Some((from, to))
                    } else {
                        None
                    },
                ),
            ),
        }
    } else {
        None
    }
}

/// What the end of a light connection makes owed. A tip request is refused; the
/// answers to a block request are complete.
pub open spec fn close_delivery<B, H, I>(
    requests: Map<LightWeightConnectionId, Request<B, H, I>>,
    id: LightWeightConnectionId,
) -> Option<Delivery<B, H, I>> {
    if requests.contains_key(id) {
        match requests[id] {
            Request::Tip(chan) => Some(Delivery::Tip(chan, Err(rpc(Cause::UnexpectedClose)))),
            Request::Block(chan, _, _) => Some(Delivery::Close(chan)),
        }
    } else {
        None
    }
}

/// A request as it is remembered: the same channel end, and clones of the ids.
pub open spec fn remembered<B, H, I: Clone>(
    request: Request<B, H, I>,
    stored: Request<B, H, I>,
) -> bool {
    match (request, stored) {
        (Request::Tip(chan), Request::Tip(stored_chan)) => chan == stored_chan,
        (Request::Block(chan, from, to), Request::Block(stored_chan, stored_from, stored_to)) => {
            &&& chan == stored_chan
            &&& cloned(from, stored_from)
            &&& cloned(to, stored_to)
        },
        _ => false,
    }
}

/// The query that a request puts to the remote node: for the tip, headers from
/// nowhere in particular and up to no header in particular; for blocks, the
/// range that was asked for.
pub open spec fn asks<B, H, I, N, M>(
    message: Message<I, N, M>,
    id: LightWeightConnectionId,
    request: Request<B, H, I>,
) -> bool {
    match (request, message) {
        (Request::Tip(_), Message::GetBlockHeaders(asked_id, query)) => {
            &&& asked_id == id
            &&& query.from@.len() == 0
            &&& query.to is None
        },
        (Request::Block(_, from, to), Message::GetBlocks(asked_id, query)) => {
            &&& asked_id == id
            &&& query.from == from
            &&& query.to == to
        },
        _ => false,
    }
}

/// The requests that wait for an answer, by the light connection over which it
/// is to come.
#[verifier::reject_recursive_types(B)]
#[verifier::reject_recursive_types(H)]
#[verifier::reject_recursive_types(I)]
pub struct RequestTable<B, H, I> {
    pending: HashMap<LightWeightConnectionId, Request<B, H, I>>,
}

impl<B, H, I> View for RequestTable<B, H, I> {
    type V = Map<LightWeightConnectionId, Request<B, H, I>>;

    closed spec fn view(&self) -> Self::V {
        self.pending@
    }
}

impl<B, H, I> RequestTable<B, H, I> {
    /// Makes a table in which nothing waits.
    pub fn new() -> (table: Self)
        ensures
            table@ == Map::<LightWeightConnectionId, Request<B, H, I>>::empty(),
    {
        RequestTable { pending: HashMap::new() }
    }

    /// Says whether a tip request waits on a light connection.
    pub fn awaits_tip(&self, id: LightWeightConnectionId) -> (waits: bool)
        ensures
            waits == (self@.contains_key(id) && self@[id] is Tip),
    {
        match self.pending.get(&id) {
            Some(Request::Tip(_)) => true,
            _ => false,
        }
    }

    /// Says whether a response with headers can be used: it cannot where a tip
    /// request waits for it and it holds no header at all.
    pub fn can_use_headers(
        &self,
        id: LightWeightConnectionId,
        response: &Response<BlockHeaders<H>, String>,
    ) -> (usable: bool)
        ensures
            usable == usable_headers(self@, id, *response),
    {
        match response {
            Ok(headers) => !self.awaits_tip(id) || headers.0.len() > 0,
            Err(_) => true,
        }
    }

    /// Remembers a request under a light connection. One that waited there before is
    /// dropped as it is.
    fn remember(&mut self, id: LightWeightConnectionId, request: Request<B, H, I>)
        ensures
            final(self)@ == old(self)@.insert(id, request),
            old(self)@.contains_key(id) ==> dropped(old(self)@[id]),
    {
        match self.pending.insert(id, request) {
            Some(replaced) => channels::discard(replaced),
            None => {},
        }
    }

    /// Remembers a request under the light connection that was opened for it and
    /// gives the query to send there. A request that waited there before is dropped
    /// as it is.
    pub fn register<N, M>(
        &mut self,
        id: LightWeightConnectionId,
        request: Request<B, H, I>,
    ) -> (message: Message<I, N, M>) where I: Clone
        ensures
            final(self)@ == old(self)@.insert(id, final(self)@[id]),
            remembered(request, final(self)@[id]),
            asks(message, id, request),
            old(self)@.contains_key(id) ==> dropped(old(self)@[id]),
    {
        match request {
            Request::Tip(chan) => {
                self.remember(id, Request::Tip(chan));
                Message::GetBlockHeaders(id, GetBlockHeaders { from: Vec::new(), to: None })
            },
            Request::Block(chan, from, to) => {
                self.remember(id, Request::Block(chan, from.clone(), to.clone()));
                Message::GetBlocks(id, GetBlocks { from, to })
            },
        }
    }

    /// Takes in a response with headers. The request that waited is done with,
    /// whatever it was.
    pub fn headers(
        &mut self,
        id: LightWeightConnectionId,
        response: Response<BlockHeaders<H>, String>,
        mismatch: Cause,
    ) -> (delivery: Option<Delivery<B, H, I>>)
        requires
            usable_headers(old(self)@, id, response),
        ensures
            final(self)@ == old(self)@.remove(id),
            delivery == headers_delivery(old(self)@, id, response, mismatch),
    {
        match self.pending.remove(&id) {
            None => None,
            Some(Request::Tip(chan)) => {
                let answer = convert_response(response, first_header);
                Some(Delivery::Tip(chan, answer))
            },
            Some(Request::Block(chan, _, _)) => Some(
                Delivery::Block(chan, Err(RequestError::new(ErrorKind::Rpc, mismatch)), None),
            ),
        }
    }

    /// Takes in a response with a block. A block request is to go on waiting for
    /// further blocks; after a response with an error it is to do so only where the
    /// caller wants that. A tip request is done with. What is to go on waiting is in
    /// the delivery.
    pub fn block(
        &mut self,
        id: LightWeightConnectionId,
        response: Response<B, String>,
        keep_failed: bool,
    ) -> (delivery: Option<Delivery<B, H, I>>)
        ensures
            final(self)@ == old(self)@.remove(id),
            delivery == block_delivery(old(self)@, id, response, response is Ok || keep_failed),
    {
        let keep = match response {
            Ok(_) => true,
            Err(_) => keep_failed,
        };
        match self.pending.remove(&id) {
            None => None,
            Some(Request::Block(chan, from, to)) => {
                let range = if keep {
                    Some((from, to))
                } else {
                    None
                };
                Some(Delivery::Block(chan, convert_response(response, same_block), range))
            },
            Some(Request::Tip(chan)) => Some(
                Delivery::Tip(chan, Err(unexpected_response_error())),
            ),
        }
    }

    /// Takes in the end of a light connection. The request that waited on it is
    /// done with.
    pub fn closed(&mut self, id: LightWeightConnectionId) -> (delivery: Option<Delivery<B, H, I>>)
        ensures
            final(self)@ == old(self)@.remove(id),
            delivery == close_delivery(old(self)@, id),
    {
        match self.pending.remove(&id) {
            None => None,
            Some(Request::Tip(chan)) => Some(
                Delivery::Tip(
                    chan,
                    Err(RequestError::new(ErrorKind::Rpc, Cause::UnexpectedClose)),
                ),
            ),
            Some(Request::Block(chan, _, _)) => Some(Delivery::Close(chan)),
        }
    }

    /// Delivers what a light connection makes owed, and lets the request that goes
    /// on waiting wait there.
    pub fn deliver(
        &mut self,
        id: LightWeightConnectionId,
        owed: Option<Delivery<B, H, I>>,
    ) -> (sent: Result<(), Undelivered<B, H>>)
        requires
            owed is Some ==> !old(self)@.contains_key(id),
        ensures
            final(self)@ == requests_after_delivery(old(self)@, id, owed, sent is Ok),
            delivered(owed, sent),
    {
        match owed {
            None => Ok(()),
            Some(delivery) => {
                let (sent, waiting) = delivery.perform();
                match waiting {
                    Some(request) => self.remember(id, request),
                    None => {},
                }
                assert(self@ =~= requests_after_delivery(old(self)@, id, owed, sent is Ok));
                sent
            },
        }
    }
}

} // verus!
