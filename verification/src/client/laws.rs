//! What holds of requests and their answers on a connection as a whole.
use crate::channels::{self, Outlet};
use crate::client::connection::{addressee, inbound_delivery, requests_after_inbound};
use crate::client::error::{rpc, Cause, RequestError};
use crate::client::handle::{request_result, stream_result, tip_result, Canceled, Header};
use crate::client::message::{BlockHeaders, Inbound, LightWeightConnectionId, Response};
use crate::client::requests::{block_answer, remembered, tip_answer, Delivery, Request};
use crate::poll::Async;
use vstd::prelude::*;

verus! {

/// Something that bears on the requests that wait.
#[verifier::reject_recursive_types(B)]
#[verifier::reject_recursive_types(H)]
pub enum Happening<B, H, I, T> {
    /// A message came, and the answer that it made owed was taken or not.
    Message(Inbound<B, H, T>, bool),
    /// A light connection was opened, and this request waits there now.
    Opened(LightWeightConnectionId, Request<B, H, I>),
}

impl<B, H, I, T> Happening<B, H, I, T> {
    /// The light connection that this is about, where something may wait for it.
    pub open spec fn concerns(self) -> Option<LightWeightConnectionId> {
        match self {
            Happening::Message(inbound, _) => addressee(inbound),
            Happening::Opened(id, _) => Some(id),
        }
    }

    /// The requests that wait afterwards.
    pub open spec fn after(
        self,
        requests: Map<LightWeightConnectionId, Request<B, H, I>>,
    ) -> Map<LightWeightConnectionId, Request<B, H, I>> {
        match self {
            Happening::Message(inbound, taken) => requests_after_inbound(requests, inbound, taken),
            Happening::Opened(id, request) => requests.insert(id, request),
        }
    }

    /// What this makes owed to the program.
    pub open spec fn owes(
        self,
        requests: Map<LightWeightConnectionId, Request<B, H, I>>,
    ) -> Option<Delivery<B, H, I>> {
        match self {
            Happening::Message(inbound, _) => inbound_delivery(requests, inbound),
            Happening::Opened(_, _) => None,
        }
    }
}

/// The requests that wait after a sequence of happenings.
pub open spec fn requests_after_all<B, H, I, T>(
    requests: Map<LightWeightConnectionId, Request<B, H, I>>,
    happenings: Seq<Happening<B, H, I, T>>,
) -> Map<LightWeightConnectionId, Request<B, H, I>>
    decreases happenings.len(),
{
    if happenings.len() == 0 {
        requests
    } else {
        happenings.last().after(requests_after_all(requests, happenings.drop_last()))
    }
}

/// What the happening at a place in a sequence makes owed to the program.
pub open spec fn delivery_at<B, H, I, T>(
    requests: Map<LightWeightConnectionId, Request<B, H, I>>,
    happenings: Seq<Happening<B, H, I, T>>,
    place: int,
) -> Option<Delivery<B, H, I>> {
    happenings[place].owes(requests_after_all(requests, happenings.take(place)))
}

/// The same channel end, whose record has these values more.
pub open spec fn has_sent<T>(before: Outlet<T>, values: Seq<T>, after: Outlet<T>) -> bool {
    &&& after.end() == before.end()
    &&& after.shares() == before.shares()
    &&& after.sent() == before.sent() + values
}

/// Happenings about other light connections leave a request alone, and its channel
/// end with it, however many there are.
pub proof fn law_requests_are_independent<B, H, I, T>(
    requests: Map<LightWeightConnectionId, Request<B, H, I>>,
    happenings: Seq<Happening<B, H, I, T>>,
    id: LightWeightConnectionId,
)
    requires
        forall|k: int|
            0 <= k < happenings.len() ==> (#[trigger] happenings[k]).concerns() != Some(id),
    ensures
        requests_after_all(requests, happenings).contains_key(id) == requests.contains_key(id),
        requests.contains_key(id) ==> requests_after_all(requests, happenings)[id] == requests[id],
    decreases happenings.len(),
{
    if happenings.len() > 0 {
        law_requests_are_independent(requests, happenings.drop_last(), id);
        assert(happenings.last() == happenings[happenings.len() - 1]);
    }
}

/// A message for which nothing waits is ignored: it makes nothing owed and changes
/// nothing, no channel end among that.
pub proof fn law_unasked_messages_are_ignored<B, H, I, T>(
    requests: Map<LightWeightConnectionId, Request<B, H, I>>,
    inbound: Inbound<B, H, T>,
    taken: bool,
)
    requires
        addressee(inbound) matches Some(id) ==> !requests.contains_key(id),
    ensures
        inbound_delivery(requests, inbound) is None,
        requests_after_inbound(requests, inbound, taken) == requests,
{
}

/// A message never makes a request wait that did not wait before, and alters none
/// but by one more answer on the channel end of the block request that it is about.
pub proof fn law_messages_only_settle<B, H, I, T>(
    requests: Map<LightWeightConnectionId, Request<B, H, I>>,
    inbound: Inbound<B, H, T>,
    taken: bool,
    id: LightWeightConnectionId,
)
    requires
        requests_after_inbound(requests, inbound, taken).contains_key(id),
    ensures
        requests.contains_key(id),
        requests_after_inbound(requests, inbound, taken)[id] == match (inbound, requests[id]) {
            (Inbound::Block(to_id, response), Request::Block(chan, from, to)) => if to_id == id {
                Request::Block(chan.after(block_answer(response), taken), from, to)
            } else {
                requests[id]
            },
            _ => requests[id],
        },
{
}

/// Where nothing waits on a light connection, nothing waits there until it is
/// opened again.
proof fn lemma_settled_stays_settled<B, H, I, T>(
    requests: Map<LightWeightConnectionId, Request<B, H, I>>,
    happenings: Seq<Happening<B, H, I, T>>,
    id: LightWeightConnectionId,
    early: int,
    late: int,
)
    requires
        0 <= early <= late <= happenings.len(),
        !requests_after_all(requests, happenings.take(early)).contains_key(id),
        forall|k: int|
            early <= k < late ==> !(#[trigger] happenings[k] matches Happening::Opened(opened, _)
                && opened == id),
    ensures
        !requests_after_all(requests, happenings.take(late)).contains_key(id),
    decreases late - early,
{
    if early < late {
        lemma_settled_stays_settled(requests, happenings, id, early, late - 1);
        assert(happenings.take(late).drop_last() =~= happenings.take(late - 1));
        assert(happenings.take(late).last() == happenings[late - 1]);
    }
}

/// A request that a message settles is never answered again: neither a tip request
/// after its answer, nor a block request after headers or the end of its light
/// connection. No later message about the light connection makes anything owed,
/// until it is opened again.
pub proof fn law_settled_requests_get_nothing<B, H, I, T>(
    requests: Map<LightWeightConnectionId, Request<B, H, I>>,
    happenings: Seq<Happening<B, H, I, T>>,
    id: LightWeightConnectionId,
    first: int,
    second: int,
)
    requires
        0 <= first < second < happenings.len(),
        happenings[first] is Message,
        happenings[first].concerns() == Some(id),
        happenings[second].concerns() == Some(id),
        requests_after_all(requests, happenings.take(first)).contains_key(id) ==> (
        requests_after_all(requests, happenings.take(first))[id] is Tip || !(
        happenings[first]->Message_0 is Block)),
        forall|k: int|
            first < k < second ==> !(#[trigger] happenings[k] matches Happening::Opened(opened, _)
                && opened == id),
    ensures
        delivery_at(requests, happenings, second) is None,
{
    assert(happenings.take(first + 1).drop_last() =~= happenings.take(first));
    assert(happenings.take(first + 1).last() == happenings[first]);
    lemma_settled_stays_settled(requests, happenings, id, first + 1, second);
}

/// A tip request is answered at most once: of two messages about its light
/// connection, which is not opened again in between, the second makes nothing owed.
pub proof fn law_tip_is_answered_once<B, H, I, T>(
    requests: Map<LightWeightConnectionId, Request<B, H, I>>,
    happenings: Seq<Happening<B, H, I, T>>,
    id: LightWeightConnectionId,
    first: int,
    second: int,
)
    requires
        requests.contains_key(id),
        requests[id] is Tip,
        0 <= first < second < happenings.len(),
        happenings[first].concerns() == Some(id),
        happenings[second].concerns() == Some(id),
        forall|k: int|
            0 <= k < second ==> !(#[trigger] happenings[k] matches Happening::Opened(opened, _)
                && opened == id),
    ensures
        delivery_at(requests, happenings, second) is None,
{
    lemma_tip_stays_tip(requests, happenings, id, first);
    law_settled_requests_get_nothing(requests, happenings, id, first, second);
}

/// What waits on the light connection of a tip request is that request, as long as
/// anything does and the light connection is not opened again.
proof fn lemma_tip_stays_tip<B, H, I, T>(
    requests: Map<LightWeightConnectionId, Request<B, H, I>>,
    happenings: Seq<Happening<B, H, I, T>>,
    id: LightWeightConnectionId,
    place: int,
)
    requires
        requests.contains_key(id),
        requests[id] is Tip,
        0 <= place <= happenings.len(),
        forall|k: int|
            0 <= k < place ==> !(#[trigger] happenings[k] matches Happening::Opened(opened, _)
                && opened == id),
    ensures
        requests_after_all(requests, happenings.take(place)).contains_key(id)
            ==> requests_after_all(requests, happenings.take(place))[id] == requests[id],
    decreases place,
{
    if place > 0 {
        lemma_tip_stays_tip(requests, happenings, id, place - 1);
        assert(happenings.take(place).drop_last() =~= happenings.take(place - 1));
        assert(happenings.take(place).last() == happenings[place - 1]);
    }
}

/// Nothing is owed to anyone who did not ask: a delivery goes to the channel end
/// of the request that waits on the light connection that the message is about.
pub proof fn law_deliveries_go_to_who_asked<B, H, I, T>(
    requests: Map<LightWeightConnectionId, Request<B, H, I>>,
    inbound: Inbound<B, H, T>,
)
    ensures
        inbound_delivery(requests, inbound) matches Some(delivery) ==> {
            &&& addressee(inbound) matches Some(id)
            &&& requests.contains_key(id)
            &&& match (delivery, requests[id]) {
                (Delivery::Tip(to, _), Request::Tip(chan)) => to == chan,
                (Delivery::Block(to, _, _), Request::Block(chan, _, _)) => to == chan,
                (Delivery::Close(to), Request::Block(chan, _, _)) => to == chan,
                _ => false,
            }
        },
{
}

/// A tip request that is answered with headers gets the first of them, over the
/// channel end that it came with, and is then forgotten.
pub proof fn law_tip_round_trip<B, H, I: Clone, T>(
    requests: Map<LightWeightConnectionId, Request<B, H, I>>,
    id: LightWeightConnectionId,
    request: Request<B, H, I>,
    stored: Request<B, H, I>,
    response: Response<BlockHeaders<H>, String>,
    taken: bool,
)
    requires
        request is Tip,
        remembered(request, stored),
    ensures
        inbound_delivery(
            requests.insert(id, stored),
            Inbound::<B, H, T>::BlockHeaders(id, response),
        ) == Some(Delivery::<B, H, I>::Tip(request->Tip_0, tip_answer(response))),
        requests_after_inbound(
            requests.insert(id, stored),
            Inbound::<B, H, T>::BlockHeaders(id, response),
            taken,
        ) == requests.remove(id),
{
    assert(requests.insert(id, stored).remove(id) =~= requests.remove(id));
}

/// What the program gets that asked for the tip: the id and date of the first of
/// the headers that the remote node answered with, or the remote error inside the
/// error of the operation.
pub proof fn law_tip_gives_first_header<D, I, P>(
    response: Response<BlockHeaders<Header<D, I, P>>, String>,
)
    ensures
        tip_result(Ok(Async::Ready(tip_answer(response)))) == match response {
            Ok(headers) => Ok::<Async<(I, D)>, RequestError>(
                Async::Ready((headers.0@[0].id, headers.0@[0].date)),
            ),
            Err(text) => Err::<Async<(I, D)>, RequestError>(
                rpc(Cause::Nested(Box::new(rpc(Cause::Remote(text))))),
            ),
        },
{
}

/// What the program gets that pulls blocks: each block that the remote node
/// answered with, or the remote error.
pub proof fn law_stream_gives_each_answer<B>(response: Response<B, String>)
    ensures
        stream_result(Ok(Async::Ready(Some(block_answer(response))))) == match response {
            Ok(block) => Ok::<Async<Option<B>>, RequestError>(Async::Ready(Some(block))),
            Err(text) => Err::<Async<Option<B>>, RequestError>(rpc(Cause::Remote(text))),
        },
{
}

/// A connection that goes away without an answer fails the future of the request,
/// and the future of the tip with that failure inside.
pub proof fn law_lost_connection_is_reported<D, I, P>()
    ensures
        request_result::<Header<D, I, P>>(Err(Canceled)) == Err::<
            Async<Header<D, I, P>>,
            RequestError,
        >(rpc(Cause::Canceled)),
        tip_result::<D, I, P>(Err(Canceled)) == Err::<Async<(I, D)>, RequestError>(
            rpc(Cause::Nested(Box::new(rpc(Cause::Canceled)))),
        ),
{
}

/// The answers with blocks that came over a light connection and were taken, in the
/// order in which they came.
pub open spec fn blocks_on<B, H, I, T>(
    happenings: Seq<Happening<B, H, I, T>>,
    id: LightWeightConnectionId,
) -> Seq<Result<B, RequestError>>
    decreases happenings.len(),
{
    if happenings.len() == 0 {
        Seq::empty()
    } else {
        let before = blocks_on(happenings.drop_last(), id);
        match happenings.last() {
            Happening::Message(Inbound::Block(to_id, response), true) => if to_id == id {
                before.push(block_answer(response))
            } else {
                before
            },
            _ => before,
        }
    }
}

/// Whatever else goes on meanwhile, the channel end of a block request gets every
/// block and every remote error that comes over its light connection, in the order
/// in which they come, and nothing else. Headers or the end of the light connection
/// end that: the request is then refused with one error, or its channel closed
/// without any.
pub proof fn law_blocks_arrive_in_order<B, H, I, T>(
    requests: Map<LightWeightConnectionId, Request<B, H, I>>,
    happenings: Seq<Happening<B, H, I, T>>,
    id: LightWeightConnectionId,
    end: int,
)
    requires
        requests.contains_key(id),
        requests[id] is Block,
        0 <= end <= happenings.len(),
        forall|k: int|
            0 <= k < end && (#[trigger] happenings[k]).concerns() == Some(id)
                ==> happenings[k] matches Happening::Message(Inbound::Block(_, _), _),
    ensures
        ({
            let waiting = requests_after_all(requests, happenings.take(end));
            &&& waiting.contains_key(id)
            &&& waiting[id] matches Request::Block(chan, from, to)
            &&& has_sent(requests[id]->Block_0, blocks_on(happenings.take(end), id), chan)
            &&& from == requests[id]->Block_1
            &&& to == requests[id]->Block_2
            &&& end < happenings.len() ==> match happenings[end] {
                Happening::Message(Inbound::BlockHeaders(to_id, _), _) => to_id == id
                    ==> delivery_at(requests, happenings, end) == Some(
                    Delivery::<B, H, I>::Block(
                        chan,
                        Err(rpc(Cause::UnexpectedResponse)),
                        None,
                    ),
                ),
                Happening::Message(Inbound::CloseConnection(to_id), _) => to_id == id
                    ==> delivery_at(requests, happenings, end) == Some(
                    Delivery::<B, H, I>::Close(chan),
                ),
                _ => true,
            }
        }),
    decreases end,
{
    broadcast use channels::law_after;

    if end > 0 {
        law_blocks_arrive_in_order(requests, happenings, id, end - 1);
        let last = happenings[end - 1];
        assert(happenings.take(end).drop_last() =~= happenings.take(end - 1));
        assert(happenings.take(end).last() == last);
        if last.concerns() == Some(id) {
            let waiting = requests_after_all(requests, happenings.take(end - 1));
            let response = last->Message_0->Block_1;
            assert(requests_after_all(requests, happenings.take(end))[id]->Block_0
                == waiting[id]->Block_0.after(block_answer(response), last->Message_1));
        }
    }
}

} // verus!
