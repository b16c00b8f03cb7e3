//! What holds of each call on the table of waiting requests.
use crate::channels::{self, answered, closed_down, dropped, unanswered, Outlet};
use crate::client::error::{Cause, ErrorKind, RequestError};
use crate::client::message::{BlockHeaders, LightWeightConnectionId, Message, Response};
use crate::client::requests::{
    unexpected_response_error, Delivery, Request, RequestTable, Undelivered,
};
use futures::sync::oneshot;
use vstd::prelude::*;

verus! {

/// The query of a request goes out on the light connection under which the request
/// waits, asks for what the request asks for, and leaves every other request alone: for
/// the tip, headers with no range; for blocks, the range that was given, its ends not
/// exchanged. The channel end of the request waits there as it came.
pub proof fn law_a_query_is_addressed_to_its_request<B, H, I: Clone, N, M>(
    table: &mut RequestTable<B, H, I>,
    id: LightWeightConnectionId,
    request: Request<B, H, I>,
    message: Message<I, N, M>,
    other: LightWeightConnectionId,
)
    requires
        call_ensures(RequestTable::<B, H, I>::register::<N, M>, (table, id, request), message),
    ensures
        final(table)@.contains_key(id),
        match (request, message, final(table)@[id]) {
            (
                Request::Tip(chan),
                Message::GetBlockHeaders(asked, query),
                Request::Tip(waiting),
            ) => {
                &&& asked == id
                &&& query.from@.len() == 0
                &&& query.to is None
                &&& waiting == chan
            },
            (
                Request::Block(chan, first, last),
                Message::GetBlocks(asked, query),
                Request::Block(waiting, waiting_first, waiting_last),
            ) => {
                &&& asked == id
                &&& query.from == first
                &&& query.to == last
                &&& waiting == chan
                &&& cloned(first, waiting_first)
                &&& cloned(last, waiting_last)
            },
            _ => false,
        },
        other != id ==> final(table)@.contains_key(other) == old(table)@.contains_key(other),
        other != id && old(table)@.contains_key(other) ==> final(table)@[other]
            == old(table)@[other],
        old(table)@.contains_key(id) ==> dropped(old(table)@[id]),
{
}

/// There and back: whatever the remote node answers on the light connection that a query
/// was sent on is owed to the very request that the query was made for.
pub proof fn law_answers_come_back_to_the_request<B, H, I: Clone, N, M>(
    table: &mut RequestTable<B, H, I>,
    id: LightWeightConnectionId,
    request: Request<B, H, I>,
    message: Message<I, N, M>,
    later: &mut RequestTable<B, H, I>,
    headers: Response<BlockHeaders<H>, String>,
    mismatch: Cause,
    block: Response<B, String>,
    keep_failed: bool,
    owed: Option<Delivery<B, H, I>>,
)
    requires
        call_ensures(RequestTable::<B, H, I>::register::<N, M>, (table, id, request), message),
        old(later)@ == final(table)@,
        match message {
            Message::GetBlockHeaders(asked, _) => call_ensures(
                RequestTable::<B, H, I>::headers,
                (later, asked, headers, mismatch),
                owed,
            ),
            Message::GetBlocks(asked, _) => call_ensures(
                RequestTable::<B, H, I>::block,
                (later, asked, block, keep_failed),
                owed,
            ),
            _ => true,
        },
    ensures
        match (request, owed) {
            (Request::Tip(chan), Some(Delivery::Tip(to, answer))) => {
                &&& to == chan
                &&& headers is Ok <==> answer is Ok
                &&& headers matches Ok(headers) ==> answer->Ok_0 == headers.0@[0]
                &&& headers matches Err(text) ==> answer->Err_0.cause == Cause::Remote(text)
            },
            (Request::Block(chan, _, _), Some(Delivery::Block(to, answer, _))) => {
                &&& to == chan
                &&& block is Ok <==> answer is Ok
                &&& block matches Ok(block) ==> answer->Ok_0 == block
                &&& block matches Err(text) ==> answer->Err_0.cause == Cause::Remote(text)
            },
            _ => false,
        },
{
}

/// Headers on a light connection settle what waits there, touch nothing else, and are
/// owed to that request: its first header or the remote error to a tip request, the given
/// refusal to a block request, which is done with.
pub proof fn law_headers_settle<B, H, I>(
    table: &mut RequestTable<B, H, I>,
    id: LightWeightConnectionId,
    response: Response<BlockHeaders<H>, String>,
    mismatch: Cause,
    owed: Option<Delivery<B, H, I>>,
    other: LightWeightConnectionId,
)
    requires
        call_ensures(
            RequestTable::<B, H, I>::headers,
            (table, id, response, mismatch),
            owed,
        ),
    ensures
        !final(table)@.contains_key(id),
        other != id ==> final(table)@.contains_key(other) == old(table)@.contains_key(other),
        other != id && old(table)@.contains_key(other) ==> final(table)@[other]
            == old(table)@[other],
        owed is Some <==> old(table)@.contains_key(id),
        old(table)@.contains_key(id) ==> match (old(table)@[id], owed->Some_0) {
            (Request::Tip(chan), Delivery::Tip(to, answer)) => {
                &&& to == chan
                &&& response is Ok <==> answer is Ok
                &&& response matches Ok(headers) ==> answer->Ok_0 == headers.0@[0]
                &&& response matches Err(text) ==> answer->Err_0.kind is Rpc && answer->Err_0.cause
                    == Cause::Remote(text)
            },
            (Request::Block(chan, _, _), Delivery::Block(to, answer, range)) => {
                &&& to == chan
                &&& answer is Err
                &&& answer->Err_0.kind is Rpc
                &&& answer->Err_0.cause == mismatch
                &&& range is None
            },
            _ => false,
        },
{
}

/// A block on a light connection touches nothing that waits elsewhere. To a block request
/// the block itself or the remote error is owed, and the request is to go on waiting for
/// its range unless an error ended it; a tip request is refused and done with.
pub proof fn law_a_block_is_owed_to_its_request<B, H, I>(
    table: &mut RequestTable<B, H, I>,
    id: LightWeightConnectionId,
    response: Response<B, String>,
    keep_failed: bool,
    owed: Option<Delivery<B, H, I>>,
    other: LightWeightConnectionId,
)
    requires
        call_ensures(
            RequestTable::<B, H, I>::block,
            (table, id, response, keep_failed),
            owed,
        ),
    ensures
        !final(table)@.contains_key(id),
        other != id ==> final(table)@.contains_key(other) == old(table)@.contains_key(other),
        other != id && old(table)@.contains_key(other) ==> final(table)@[other]
            == old(table)@[other],
        owed is Some <==> old(table)@.contains_key(id),
        old(table)@.contains_key(id) ==> match (old(table)@[id], owed->Some_0) {
            (Request::Tip(chan), Delivery::Tip(to, answer)) => {
                &&& to == chan
                &&& answer is Err
                &&& answer->Err_0.kind is Rpc
                &&& answer->Err_0.cause is UnexpectedResponse
            },
            (Request::Block(chan, first, last), Delivery::Block(to, answer, range)) => {
                &&& to == chan
                &&& response is Ok <==> answer is Ok
                &&& response matches Ok(block) ==> answer->Ok_0 == block
                &&& response matches Err(text) ==> answer->Err_0.kind is Rpc && answer->Err_0.cause
                    == Cause::Remote(text)
                &&& range is Some <==> response is Ok || keep_failed
                &&& range matches Some(range) ==> range == (first, last)
            },
            _ => false,
        },
{
}

/// The end of a light connection settles what waits there and touches nothing else: a tip
/// request is refused, and the channel of a block request is to be closed as it is.
pub proof fn law_an_end_settles<B, H, I>(
    table: &mut RequestTable<B, H, I>,
    id: LightWeightConnectionId,
    owed: Option<Delivery<B, H, I>>,
    other: LightWeightConnectionId,
)
    requires
        call_ensures(RequestTable::<B, H, I>::closed, (table, id), owed),
    ensures
        !final(table)@.contains_key(id),
        other != id ==> final(table)@.contains_key(other) == old(table)@.contains_key(other),
        other != id && old(table)@.contains_key(other) ==> final(table)@[other]
            == old(table)@[other],
        owed is Some <==> old(table)@.contains_key(id),
        old(table)@.contains_key(id) ==> match (old(table)@[id], owed->Some_0) {
            (Request::Tip(chan), Delivery::Tip(to, answer)) => {
                &&& to == chan
                &&& answer is Err
                &&& answer->Err_0.kind is Rpc
                &&& answer->Err_0.cause is UnexpectedClose
            },
            (Request::Block(chan, _, _), Delivery::Close(to)) => to == chan,
            _ => false,
        },
{
}

/// A delivery hands over the one answer that it holds, on the end that it holds, and
/// nothing else. What goes on waiting is the same request with that one answer more on its
/// record; an end that is done with is used up by the answer, dropped right after it, or
/// closed without any. An answer that is not taken comes back as it is.
pub proof fn law_a_delivery_hands_over_its_answer<B, H, I>(
    delivery: Delivery<B, H, I>,
    outcome: (Result<(), Undelivered<B, H>>, Option<Request<B, H, I>>),
)
    requires
        call_ensures(Delivery::<B, H, I>::perform, (delivery,), outcome),
    ensures
        match delivery {
            Delivery::Tip(chan, answer) => {
                &&& outcome.1 is None
                &&& match outcome.0 {
                    Ok(()) => answered(chan, answer),
                    Err(back) => back == Undelivered::<B, H>::Tip(answer) && unanswered(
                        chan,
                        answer,
                    ),
                }
            },
            Delivery::Block(chan, answer, range) => {
                &&& outcome.0 matches Err(back) ==> back == Undelivered::<B, H>::Block(answer)
                &&& outcome.1 is Some <==> range is Some
                &&& match range {
                    Some((first, last)) => {
                        &&& outcome.1->Some_0 matches Request::Block(waiting, from, to)
                        &&& from == first
                        &&& to == last
                        &&& waiting.end() == chan.end()
                        &&& waiting.shares() == chan.shares()
                        &&& outcome.0 is Ok ==> waiting.sent() == chan.sent().push(answer)
                            && waiting.refused() == chan.refused()
                        &&& outcome.0 is Err ==> waiting.sent() == chan.sent()
                            && waiting.refused() == chan.refused().push(answer)
                    },
                    None => exists|gone: Outlet<Result<B, RequestError>>|
                        {
                            &&& #[trigger] dropped(gone)
                            &&& gone.end() == chan.end()
                            &&& gone.shares() == chan.shares()
                            &&& outcome.0 is Ok ==> gone.sent() == chan.sent().push(answer)
                                && gone.refused() == chan.refused()
                            &&& outcome.0 is Err ==> gone.sent() == chan.sent() && gone.refused()
                                == chan.refused().push(answer)
                        },
                }
            },
            Delivery::Close(chan) => {
                &&& outcome.0 is Ok
                &&& outcome.1 is None
                &&& closed_down(chan)
            },
        },
{
    broadcast use channels::law_after;

    if let Delivery::Block(chan, answer, None) = delivery {
        assert(dropped(chan.after(answer, outcome.0 is Ok)));
    }
}

/// Delivering what is owed on a light connection changes nothing elsewhere, and nothing at
/// all where nothing is owed. What waits there afterwards is what carrying out the delivery
/// gives back.
pub proof fn law_delivering_touches_one_request<B, H, I>(
    table: &mut RequestTable<B, H, I>,
    id: LightWeightConnectionId,
    owed: Option<Delivery<B, H, I>>,
    sent: Result<(), Undelivered<B, H>>,
    other: LightWeightConnectionId,
)
    requires
        owed is Some ==> !old(table)@.contains_key(id),
        call_ensures(RequestTable::<B, H, I>::deliver, (table, id, owed), sent),
    ensures
        other != id || owed is None ==> final(table)@.contains_key(other)
            == old(table)@.contains_key(other),
        (other != id || owed is None) && old(table)@.contains_key(other)
            ==> final(table)@[other] == old(table)@[other],
        match owed {
            None => sent is Ok,
            Some(Delivery::Tip(chan, answer)) => {
                &&& !final(table)@.contains_key(id)
                &&& match sent {
                    Ok(()) => answered(chan, answer),
                    Err(back) => back == Undelivered::<B, H>::Tip(answer) && unanswered(
                        chan,
                        answer,
                    ),
                }
            },
            Some(Delivery::Block(chan, answer, range)) => {
                &&& sent matches Err(back) ==> back == Undelivered::<B, H>::Block(answer)
                &&& final(table)@.contains_key(id) <==> range is Some
                &&& match range {
                    Some((first, last)) => {
                        &&& final(table)@[id] matches Request::Block(waiting, from, to)
                        &&& from == first
                        &&& to == last
                        &&& waiting.end() == chan.end()
                        &&& waiting.shares() == chan.shares()
                        &&& sent is Ok ==> waiting.sent() == chan.sent().push(answer)
                            && waiting.refused() == chan.refused()
                        &&& sent is Err ==> waiting.sent() == chan.sent() && waiting.refused()
                            == chan.refused().push(answer)
                    },
                    None => dropped(chan.after(answer, sent is Ok)),
                }
            },
            Some(Delivery::Close(chan)) => {
                &&& sent is Ok
                &&& !final(table)@.contains_key(id)
                &&& closed_down(chan)
            },
        },
{
    broadcast use channels::law_after;

}

/// A new table holds nothing; a table knows on which light connections a tip request waits;
/// and it can use every response with headers but an empty one for which such a request
/// waits.
pub proof fn law_tables_know_what_waits<B, H, I>(
    new: RequestTable<B, H, I>,
    table: &RequestTable<B, H, I>,
    id: LightWeightConnectionId,
    waits: bool,
    response: &Response<BlockHeaders<H>, String>,
    usable: bool,
)
    requires
        call_ensures(RequestTable::<B, H, I>::new, (), new),
        call_ensures(RequestTable::<B, H, I>::awaits_tip, (table, id), waits),
        call_ensures(RequestTable::<B, H, I>::can_use_headers, (table, id, response), usable),
    ensures
        !new@.contains_key(id),
        waits <==> table@.contains_key(id) && table@[id] is Tip,
        !usable <==> {
            &&& table@.contains_key(id)
            &&& table@[id] is Tip
            &&& *response is Ok
            &&& (*response)->Ok_0.0@.len() == 0
        },
{
}

/// The refusal of a response that does not fit names the exchange as the place and the
/// misfit as the cause.
pub proof fn law_a_misfit_is_named(error: RequestError)
    requires
        call_ensures(unexpected_response_error, (), error),
    ensures
        error.kind is Rpc,
        error.cause is UnexpectedResponse,
{
}

/// Every response with headers can be taken in but an empty one for which a tip request
/// waits, and every block and every end; what is owed can be delivered where nothing waits.
pub proof fn law_answers_can_be_taken_in<B, H, I>(
    table: &mut RequestTable<B, H, I>,
    id: LightWeightConnectionId,
    headers: Response<BlockHeaders<H>, String>,
    mismatch: Cause,
    block: Response<B, String>,
    keep_failed: bool,
    owed: Option<Delivery<B, H, I>>,
)
    ensures
        !(old(table)@.contains_key(id) && old(table)@[id] is Tip && headers is Ok
            && headers->Ok_0.0@.len() == 0) ==> call_requires(
            RequestTable::<B, H, I>::headers,
            (table, id, headers, mismatch),
        ),
        call_requires(RequestTable::<B, H, I>::block, (table, id, block, keep_failed)),
        call_requires(RequestTable::<B, H, I>::closed, (table, id)),
        !old(table)@.contains_key(id) ==> call_requires(
            RequestTable::<B, H, I>::deliver,
            (table, id, owed),
        ),
{
}

/// A channel end was used up by one answer, which was taken or came back.
pub open spec fn answers_tip<B, H>(
    chan: oneshot::Sender<Result<H, RequestError>>,
    answer: Result<H, RequestError>,
    sent: Result<(), Undelivered<B, H>>,
) -> bool {
    match sent {
        Ok(()) => answered(chan, answer),
        Err(back) => back == Undelivered::<B, H>::Tip(answer) && unanswered(chan, answer),
    }
}

/// One answer was put to a channel end, and nothing else; it was taken or came back.
pub open spec fn answers_blocks<B, H>(
    before: Outlet<Result<B, RequestError>>,
    answer: Result<B, RequestError>,
    sent: Result<(), Undelivered<B, H>>,
    after: Outlet<Result<B, RequestError>>,
) -> bool {
    &&& after.end() == before.end()
    &&& after.shares() == before.shares()
    &&& match sent {
        Ok(()) => {
            &&& after.sent() == before.sent().push(answer)
            &&& after.refused() == before.refused()
        },
        Err(back) => {
            &&& back == Undelivered::<B, H>::Block(answer)
            &&& after.sent() == before.sent()
            &&& after.refused() == before.refused().push(answer)
        },
    }
}

/// One answer was put to a channel end, and nothing else, and the end was then dropped.
pub open spec fn ends_blocks<B, H>(
    before: Outlet<Result<B, RequestError>>,
    answer: Result<B, RequestError>,
    sent: Result<(), Undelivered<B, H>>,
) -> bool {
    exists|gone: Outlet<Result<B, RequestError>>| #[trigger]
        dropped(gone) && answers_blocks(before, answer, sent, gone)
}

/// Headers that come over a light connection answer what waits there and settle it. The
/// first of them answers a tip request; a block request is refused with the given cause.
pub open spec fn headers_taken_in<B, H, I>(
    before: Map<LightWeightConnectionId, Request<B, H, I>>,
    id: LightWeightConnectionId,
    response: Response<BlockHeaders<H>, String>,
    mismatch: Cause,
    sent: Result<(), Undelivered<B, H>>,
    after: Map<LightWeightConnectionId, Request<B, H, I>>,
) -> bool {
    &&& !after.contains_key(id)
    &&& if before.contains_key(id) {
        match (before[id], response) {
            (Request::Tip(chan), Ok(headers)) => answers_tip(chan, Ok(headers.0@[0]), sent),
            (Request::Tip(chan), Err(text)) => answers_tip(
                chan,
                Err(RequestError { kind: ErrorKind::Rpc, cause: Cause::Remote(text) }),
                sent,
            ),
            (Request::Block(chan, _, _), _) => ends_blocks(
                chan,
                Err(RequestError { kind: ErrorKind::Rpc, cause: mismatch }),
                sent,
            ),
        }
    } else {
        sent is Ok
    }
}

/// A block that comes over a light connection answers what waits there. It settles a tip
/// request, which is refused; a block request goes on waiting for its range unless a remote
/// error ends it.
pub open spec fn block_taken_in<B, H, I>(
    before: Map<LightWeightConnectionId, Request<B, H, I>>,
    id: LightWeightConnectionId,
    response: Response<B, String>,
    keep_failed: bool,
    sent: Result<(), Undelivered<B, H>>,
    after: Map<LightWeightConnectionId, Request<B, H, I>>,
) -> bool {
    if before.contains_key(id) {
        match before[id] {
            Request::Tip(chan) => {
                &&& !after.contains_key(id)
                &&& answers_tip(
                    chan,
                    Err(RequestError { kind: ErrorKind::Rpc, cause: Cause::UnexpectedResponse }),
                    sent,
                )
            },
            Request::Block(chan, first, last) => {
                let answer = match response {
                    Ok(block) => Ok(block),
                    Err(text) => Err(
                        RequestError { kind: ErrorKind::Rpc, cause: Cause::Remote(text) },
                    ),
                };
                if response is Ok || keep_failed {
                    &&& after.contains_key(id)
                    &&& after[id] matches Request::Block(waiting, from, to)
                    &&& answers_blocks(chan, answer, sent, waiting)
                    &&& from == first
                    &&& to == last
                } else {
                    &&& !after.contains_key(id)
                    &&& ends_blocks(chan, answer, sent)
                }
            },
        }
    } else {
        &&& !after.contains_key(id)
        &&& sent is Ok
    }
}

/// The end of a light connection settles what waits there: a tip request is refused, and the
/// channel of a block request closed as it is.
pub open spec fn end_taken_in<B, H, I>(
    before: Map<LightWeightConnectionId, Request<B, H, I>>,
    id: LightWeightConnectionId,
    sent: Result<(), Undelivered<B, H>>,
    after: Map<LightWeightConnectionId, Request<B, H, I>>,
) -> bool {
    &&& !after.contains_key(id)
    &&& if before.contains_key(id) {
        match before[id] {
            Request::Tip(chan) => answers_tip(
                chan,
                Err(RequestError { kind: ErrorKind::Rpc, cause: Cause::UnexpectedClose }),
                sent,
            ),
            Request::Block(chan, _, _) => sent is Ok && closed_down(chan),
        }
    } else {
        sent is Ok
    }
}

/// What waits on a light connection, if anything, is the very same as before, its channel end
/// and the record of that included.
pub open spec fn untouched<B, H, I>(
    before: Map<LightWeightConnectionId, Request<B, H, I>>,
    id: LightWeightConnectionId,
    after: Map<LightWeightConnectionId, Request<B, H, I>>,
) -> bool {
    &&& after.contains_key(id) == before.contains_key(id)
    &&& before.contains_key(id) ==> after[id] == before[id]
}

} // verus!
