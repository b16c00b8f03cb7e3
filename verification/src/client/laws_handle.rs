//! What the program gets for what it asks: what holds of each call on its side of a
//! connection.
use crate::channels::{self, Outlet};
use crate::client::error::{Cause, RequestError};
use crate::client::handle::{
    ask_tip, asked_for_tip, asked_with, Canceled, ClientHandle, Header, PullBlocksToTip, PullBlocksToTipStream,
    RequestFuture, TipFuture,
};
use crate::client::message::{BlockHeaders, LightWeightConnectionId, Response};
use crate::client::requests::{Delivery, Request, RequestTable};
use crate::poll::Async;
use futures::sync::oneshot;
use vstd::prelude::*;

verus! {

/// The future of a request gives what its channel end gives, whatever that is: the
/// answer where there is one, the very error where that is the answer, and the loss of
/// the connection where nobody is left to answer. It waits only where the channel end
/// does.
pub proof fn law_an_answer_is_handed_on<T>(
    received: Result<Async<Result<T, RequestError>>, Canceled>,
    result: Result<Async<T>, RequestError>,
)
    requires
        call_ensures(RequestFuture::<T>::poll, (received,), result),
    ensures
        (result matches Ok(Async::NotReady)) <==> (received matches Ok(Async::NotReady)),
        received matches Ok(Async::Ready(answer)) ==> match result {
            Ok(Async::Ready(value)) => answer == Ok::<T, RequestError>(value),
            Err(err) => answer == Err::<T, RequestError>(err),
            _ => false,
        },
        received is Err ==> result is Err && result->Err_0.kind is Rpc && result->Err_0.cause
            is Canceled,
{
}

/// The future of the tip gives the id and date of the very header that its channel end
/// gives, and fails whenever that gives an error, with that error inside. It waits only
/// where the channel end does.
pub proof fn law_the_tip_is_handed_on<D, I, P>(
    received: Result<Async<Result<Header<D, I, P>, RequestError>>, Canceled>,
    result: Result<Async<(I, D)>, RequestError>,
)
    requires
        call_ensures(TipFuture::<Header<D, I, P>>::poll, (received,), result),
    ensures
        (result matches Ok(Async::NotReady)) <==> (received matches Ok(Async::NotReady)),
        received matches Ok(Async::Ready(Ok(header))) ==> result == Ok::<_, RequestError>(
            Async::Ready((header.id, header.date)),
        ),
        received matches Ok(Async::Ready(Err(inner))) ==> result is Err && result->Err_0.kind
            is Rpc && result->Err_0.cause == Cause::Nested(Box::new(inner)),
        received is Err ==> {
            &&& result is Err
            &&& result->Err_0.kind is Rpc
            &&& result->Err_0.cause matches Cause::Nested(inner)
            &&& inner.kind is Rpc
            &&& inner.cause is Canceled
        },
{
}

/// Asking for the tip and asking for its header come to the same: on the same answer
/// both wait, or both succeed and the first gives the id and date of what the second
/// gives, or both fail and the first wraps the error of the second.
pub proof fn law_tip_and_header_agree<D, I, P>(
    received: Result<Async<Result<Header<D, I, P>, RequestError>>, Canceled>,
    tip: Result<Async<(I, D)>, RequestError>,
    header: Result<Async<Header<D, I, P>>, RequestError>,
)
    requires
        call_ensures(TipFuture::<Header<D, I, P>>::poll, (received,), tip),
        call_ensures(RequestFuture::<Header<D, I, P>>::poll, (received,), header),
    ensures
        match (tip, header) {
            (Ok(Async::Ready((id, date))), Ok(Async::Ready(header))) => {
                &&& id == header.id
                &&& date == header.date
            },
            (Ok(Async::NotReady), Ok(Async::NotReady)) => true,
            (Err(outer), Err(inner)) => outer.cause == Cause::Nested(Box::new(inner)),
            _ => false,
        },
{
}

/// The stream of blocks gives what its channel end gives, whatever that is: each block,
/// each error as it is, and the end exactly where the channel is at its end. It waits
/// only where the channel end does.
pub proof fn law_blocks_are_handed_on<B>(
    received: Result<Async<Option<Result<B, RequestError>>>, ()>,
    result: Result<Async<Option<B>>, RequestError>,
)
    requires
        call_ensures(PullBlocksToTipStream::<B>::poll, (received,), result),
    ensures
        (result matches Ok(Async::NotReady)) <==> (received matches Ok(Async::NotReady)),
        (result matches Ok(Async::Ready(None))) <==> (received matches Ok(Async::Ready(None))),
        received matches Ok(Async::Ready(Some(answer))) ==> match result {
            Ok(Async::Ready(Some(block))) => answer == Ok::<B, RequestError>(block),
            Err(err) => answer == Err::<B, RequestError>(err),
            _ => false,
        },
        received is Err ==> result is Err && result->Err_0.kind is Rpc && result->Err_0.cause
            is ChannelRead,
{
}

/// From the remote node to the program: whatever headers or error the remote node
/// answers a tip request with, the future of the header gives the first header or that
/// error, and the future of the tip its id and date or that error inside another.
pub proof fn law_remote_answer_reaches_the_program<B, D, I, P>(
    table: &mut RequestTable<B, Header<D, I, P>, I>,
    id: LightWeightConnectionId,
    response: Response<BlockHeaders<Header<D, I, P>>, String>,
    mismatch: Cause,
    delivery: Option<Delivery<B, Header<D, I, P>, I>>,
    header: Result<Async<Header<D, I, P>>, RequestError>,
    tip: Result<Async<(I, D)>, RequestError>,
)
    requires
        old(table)@.contains_key(id),
        old(table)@[id] is Tip,
        call_ensures(
            RequestTable::<B, Header<D, I, P>, I>::headers,
            (table, id, response, mismatch),
            delivery,
        ),
        delivery matches Some(Delivery::Tip(_, answer)) ==> call_ensures(
            RequestFuture::<Header<D, I, P>>::poll,
            (Ok(Async::Ready(answer)),),
            header,
        ) && call_ensures(
            TipFuture::<Header<D, I, P>>::poll,
            (Ok(Async::Ready(answer)),),
            tip,
        ),
    ensures
        delivery matches Some(Delivery::Tip(chan, _)) && chan == old(table)@[id]->Tip_0,
        match response {
            Ok(headers) => {
                &&& header == Ok::<_, RequestError>(Async::Ready(headers.0@[0]))
                &&& tip == Ok::<_, RequestError>(
                    Async::Ready((headers.0@[0].id, headers.0@[0].date)),
                )
            },
            Err(text) => {
                &&& header is Err
                &&& header->Err_0.kind is Rpc
                &&& header->Err_0.cause == Cause::Remote(text)
                &&& tip is Err
                &&& tip->Err_0.kind is Rpc
                &&& tip->Err_0.cause == Cause::Nested(Box::new(header->Err_0))
            },
        },
{
}

/// From the remote node to the program: where the light connection of a tip request
/// ends or brings a block, both futures fail, and say which of the two it was.
pub proof fn law_a_refused_tip_fails<B, D, I, P>(
    table: &mut RequestTable<B, Header<D, I, P>, I>,
    id: LightWeightConnectionId,
    block: Option<Response<B, String>>,
    keep_failed: bool,
    delivery: Option<Delivery<B, Header<D, I, P>, I>>,
    header: Result<Async<Header<D, I, P>>, RequestError>,
    tip: Result<Async<(I, D)>, RequestError>,
)
    requires
        old(table)@.contains_key(id),
        old(table)@[id] is Tip,
        match block {
            Some(response) => call_ensures(
                RequestTable::<B, Header<D, I, P>, I>::block,
                (table, id, response, keep_failed),
                delivery,
            ),
            None => call_ensures(
                RequestTable::<B, Header<D, I, P>, I>::closed,
                (table, id),
                delivery,
            ),
        },
        delivery matches Some(Delivery::Tip(_, answer)) ==> call_ensures(
            RequestFuture::<Header<D, I, P>>::poll,
            (Ok(Async::Ready(answer)),),
            header,
        ) && call_ensures(
            TipFuture::<Header<D, I, P>>::poll,
            (Ok(Async::Ready(answer)),),
            tip,
        ),
    ensures
        delivery matches Some(Delivery::Tip(chan, _)) && chan == old(table)@[id]->Tip_0,
        header is Err,
        header->Err_0.kind is Rpc,
        block is Some ==> header->Err_0.cause is UnexpectedResponse,
        block is None ==> header->Err_0.cause is UnexpectedClose,
        tip is Err,
        tip->Err_0.kind is Rpc,
        tip->Err_0.cause == Cause::Nested(Box::new(header->Err_0)),
{
}

/// From the remote node to the program: a stream gives each block and each error that
/// the remote node answers with, and fails where headers came in their place.
pub proof fn law_remote_blocks_reach_the_program<B, H, I>(
    table: &mut RequestTable<B, H, I>,
    id: LightWeightConnectionId,
    response: Response<B, String>,
    keep_failed: bool,
    delivery: Option<Delivery<B, H, I>>,
    given: Result<Async<Option<B>>, RequestError>,
)
    requires
        old(table)@.contains_key(id),
        old(table)@[id] is Block,
        call_ensures(
            RequestTable::<B, H, I>::block,
            (table, id, response, keep_failed),
            delivery,
        ),
        delivery matches Some(Delivery::Block(_, answer, _)) ==> call_ensures(
            PullBlocksToTipStream::<B>::poll,
            (Ok(Async::Ready(Some(answer))),),
            given,
        ),
    ensures
        delivery matches Some(Delivery::Block(chan, _, _)) && chan == old(table)@[id]->Block_0,
        match response {
            Ok(block) => given == Ok::<_, RequestError>(Async::Ready(Some(block))),
            Err(text) => given is Err && given->Err_0.kind is Rpc && given->Err_0.cause
                == Cause::Remote(text),
        },
{
}

/// From the remote node to the program: where headers come in the place of blocks, the
/// stream fails with the cause for that; it does not end as if all blocks had come.
pub proof fn law_refused_blocks_fail<B, H, I>(
    table: &mut RequestTable<B, H, I>,
    id: LightWeightConnectionId,
    response: Response<BlockHeaders<H>, String>,
    mismatch: Cause,
    delivery: Option<Delivery<B, H, I>>,
    given: Result<Async<Option<B>>, RequestError>,
)
    requires
        old(table)@.contains_key(id),
        old(table)@[id] is Block,
        call_ensures(
            RequestTable::<B, H, I>::headers,
            (table, id, response, mismatch),
            delivery,
        ),
        delivery matches Some(Delivery::Block(_, answer, _)) ==> call_ensures(
            PullBlocksToTipStream::<B>::poll,
            (Ok(Async::Ready(Some(answer))),),
            given,
        ),
    ensures
        delivery matches Some(Delivery::Block(chan, _, _)) && chan == old(table)@[id]->Block_0,
        given is Err,
        given->Err_0.kind is Rpc,
        given->Err_0.cause == mismatch,
{
}

/// The request for the tip and its future get the two ends that they are made of.
pub proof fn law_request_and_future_are_paired<B, H, I>(
    source: oneshot::Sender<Result<H, RequestError>>,
    sink: oneshot::Receiver<Result<H, RequestError>>,
    asked: (Request<B, H, I>, RequestFuture<H>),
)
    requires
        call_ensures(ask_tip::<B, H, I>, (source, sink), asked),
    ensures
        asked.0 == Request::<B, H, I>::Tip(source),
        asked.1.0 == sink,
{
}

/// One tip request was put to a handle, and nothing else: it was taken, with the other
/// half of the channel at which the future waits, or it came back.
pub open spec fn one_tip_request<B, H, I>(
    before: ClientHandle<B, H, I>,
    after: ClientHandle<B, H, I>,
    asked: Result<RequestFuture<H>, Request<B, H, I>>,
) -> bool {
    &&& after.channel.end() == before.channel.end()
    &&& match asked {
        Ok(future) => {
            &&& after.channel.refused() == before.channel.refused()
            &&& after.channel.sent().len() == before.channel.sent().len() + 1
            &&& after.channel.sent().drop_last() == before.channel.sent()
            &&& after.channel.sent().last() matches Request::Tip(source)
            &&& call_ensures(
                futures::sync::oneshot::channel::<Result<H, RequestError>>,
                (),
                (source, future.0),
            )
        },
        Err(request) => {
            &&& request is Tip
            &&& after.channel.sent() == before.channel.sent()
            &&& after.channel.refused() == before.channel.refused().push(request)
        },
    }
}

/// Each call for the tip or its header queues one tip request, of which the caller gets
/// the answer, and nothing else; where the connection is gone, that request comes back
/// and nothing is queued.
pub proof fn law_each_call_queues_one_tip_request<B, H, I>(
    handle: &mut ClientHandle<B, H, I>,
    header: Result<RequestFuture<H>, Request<B, H, I>>,
    tip: Result<TipFuture<H>, Request<B, H, I>>,
)
    ensures
        call_ensures(ClientHandle::<B, H, I>::tip_header, (handle,), header) ==> {
            &&& one_tip_request(*old(handle), *final(handle), header)
            &&& final(handle).channel.shares() == old(handle).channel.shares()
        },
        call_ensures(ClientHandle::<B, H, I>::tip, (handle,), tip) ==> {
            &&& one_tip_request(
                *old(handle),
                *final(handle),
                match tip {
                    Ok(future) => Ok(future.0),
                    Err(request) => Err(request),
                },
            )
            &&& final(handle).channel.shares() == old(handle).channel.shares()
        },
{
    broadcast use channels::law_after;

    let before = handle.channel;
    if call_ensures(ClientHandle::<B, H, I>::tip_header, (handle,), header) {
        if header is Ok {
            let source = choose|source: oneshot::Sender<Result<H, RequestError>>|
                #![trigger channels::oneshot_halves(source, header->Ok_0.0)]
                channels::oneshot_halves(source, header->Ok_0.0) && final(handle).channel
                    == before.after(Request::Tip(source), true);
            assert(final(handle).channel.sent().drop_last() =~= before.sent());
        }
    }
    if call_ensures(ClientHandle::<B, H, I>::tip, (handle,), tip) {
        if tip is Ok {
            let source = choose|source: oneshot::Sender<Result<H, RequestError>>|
                #![trigger channels::oneshot_halves(source, tip->Ok_0.0.0)]
                channels::oneshot_halves(source, tip->Ok_0.0.0) && final(handle).channel
                    == before.after(Request::Tip(source), true);
            assert(final(handle).channel.sent().drop_last() =~= before.sent());
        }
    }
}

/// Pulling blocks queues one tip request, of which the pull gets the answer, and no
/// request for blocks yet: that is to go out later over a further outlet of the same
/// channel, over which nothing has gone. The blocks are to begin at the first of the
/// given ids, however many are given.
pub proof fn law_pulling_begins_with_the_tip<B, H, I: Clone>(
    handle: &mut ClientHandle<B, H, I>,
    from: &[I],
    asked: Result<PullBlocksToTip<B, H, I>, Request<B, H, I>>,
)
    requires
        from@.len() > 0,
        call_ensures(ClientHandle::<B, H, I>::pull_blocks_to_tip, (handle, from), asked),
    ensures
        match asked {
            Ok(pull) => {
                &&& one_tip_request(*old(handle), *final(handle), Ok(pull.chan.0))
                &&& final(handle).channel.shares() == old(handle).channel.shares() + 1
                &&& cloned(from@.first(), pull.from)
                &&& cloned(old(handle).channel.end(), pull.request.end())
                &&& pull.request.sent().len() == 0
                &&& pull.request.refused().len() == 0
                &&& pull.request.shares() == 0
            },
            Err(request) => {
                &&& one_tip_request(*old(handle), *final(handle), Err(request))
                &&& final(handle).channel.shares() == old(handle).channel.shares()
            },
        },
{
    broadcast use {channels::law_after, channels::law_shared};

    let before = handle.channel;
    if asked is Ok {
        let future = asked->Ok_0.chan.0;
        let posted = choose|posted: Outlet<Request<B, H, I>>|
            #[trigger] asked_for_tip(before, posted, future)
                && final(handle).channel == posted.shared();
        let source = choose|source: oneshot::Sender<Result<H, RequestError>>|
            #![trigger channels::oneshot_halves(source, future.0)]
            channels::oneshot_halves(source, future.0) && posted == before.after(
                Request::Tip(source),
                true,
            );
        assert(final(handle).channel.sent().drop_last() =~= before.sent());
    }
}

/// A pull asks for blocks exactly when it learns the tip, once, and for the range from
/// the block that it was given to the tip that it learned; the stream that it gives
/// reads the other half of the channel that goes out with that request. While it waits,
/// and when the tip cannot be had, it asks for nothing; then it waits or fails as the
/// future of the tip does.
pub proof fn law_a_pull_asks_once_it_knows_the_tip<B, D, I: Clone, P>(
    pull: &mut PullBlocksToTip<B, Header<D, I, P>, I>,
    received: Result<Async<Result<Header<D, I, P>, RequestError>>, Canceled>,
    result: Result<
        Async<Result<PullBlocksToTipStream<B>, Request<B, Header<D, I, P>, I>>>,
        RequestError,
    >,
    tip: Result<Async<(I, D)>, RequestError>,
)
    requires
        call_ensures(
            PullBlocksToTip::<B, Header<D, I, P>, I>::poll,
            (pull, received),
            result,
        ),
        call_ensures(TipFuture::<Header<D, I, P>>::poll, (received,), tip),
    ensures
        final(pull).from == old(pull).from,
        final(pull).chan == old(pull).chan,
        final(pull).request.end() == old(pull).request.end(),
        final(pull).request.shares() == old(pull).request.shares(),
        (result matches Ok(Async::NotReady)) <==> (received matches Ok(Async::NotReady)),
        result is Err <==> tip is Err,
        tip matches Err(inner) ==> result->Err_0.kind is Rpc && result->Err_0.cause
            == Cause::Nested(Box::new(inner)),
        match received {
            Ok(Async::Ready(Ok(header))) => {
                &&& result matches Ok(Async::Ready(asked))
                &&& match asked {
                    Ok(stream) => {
                        &&& final(pull).request.refused() == old(pull).request.refused()
                        &&& final(pull).request.sent().len() == old(pull).request.sent().len() + 1
                        &&& final(pull).request.sent().drop_last() == old(pull).request.sent()
                        &&& final(pull).request.sent().last() matches Request::Block(
                            chan,
                            first,
                            last,
                        )
                        &&& cloned(old(pull).from, first)
                        &&& last == header.id
                        &&& chan.sent().len() == 0
                        &&& chan.refused().len() == 0
                        &&& chan.shares() == 0
                        &&& call_ensures(
                            futures::sync::mpsc::unbounded::<Result<B, RequestError>>,
                            (),
                            (chan.end(), stream.channel),
                        )
                    },
                    Err(request) => {
                        &&& final(pull).request.sent() == old(pull).request.sent()
                        &&& final(pull).request.refused() == old(pull).request.refused().push(
                            request,
                        )
                        &&& request matches Request::Block(chan, first, last)
                        &&& cloned(old(pull).from, first)
                        &&& last == header.id
                        &&& chan.sent().len() == 0
                        &&& chan.refused().len() == 0
                    },
                }
            },
            _ => {
                &&& final(pull).request.sent() == old(pull).request.sent()
                &&& final(pull).request.refused() == old(pull).request.refused()
            },
        },
{
    broadcast use channels::law_after;

    if let Ok(Async::Ready(Ok(stream))) = result {
        if let Ok(Async::Ready(Ok(header))) = received {
            let request = choose|request: Request<B, Header<D, I, P>, I>|
                {
                    &&& #[trigger] asked_with(
                        *old(pull),
                        request,
                        *final(pull),
                        stream,
                    )
                    &&& request matches Request::Block(_, from, to)
                    &&& cloned(old(pull).from, from)
                    &&& to == header.id
                };
            assert(final(pull).request.sent().drop_last() =~= old(pull).request.sent());
        }
    }
}

/// The request for blocks goes from the block of the pull to the given tip, and takes
/// the given channel end along as it is.
pub proof fn law_a_block_request_has_its_range<B, D, I: Clone, P>(
    pull: &PullBlocksToTip<B, Header<D, I, P>, I>,
    chan: Outlet<Result<B, RequestError>>,
    tip: I,
    request: Request<B, Header<D, I, P>, I>,
)
    requires
        call_ensures(
            PullBlocksToTip::<B, Header<D, I, P>, I>::block_request,
            (pull, chan, tip),
            request,
        ),
    ensures
        request matches Request::Block(sent_chan, first, last) && sent_chan == chan && cloned(
            pull.from,
            first,
        ) && last == tip,
{
}

/// Everything can be asked for at any time, and blocks from any ids at all but none; and
/// every pull can be polled with whatever its channel end gives.
pub proof fn law_asking_is_always_possible<B, D, I: Clone, P>(
    handle: &mut ClientHandle<B, Header<D, I, P>, I>,
    from: &[I],
    pull: &mut PullBlocksToTip<B, Header<D, I, P>, I>,
    received: Result<Async<Result<Header<D, I, P>, RequestError>>, Canceled>,
)
    ensures
        call_requires(ClientHandle::<B, Header<D, I, P>, I>::tip, (handle,)),
        call_requires(ClientHandle::<B, Header<D, I, P>, I>::tip_header, (handle,)),
        from@.len() > 0 ==> call_requires(
            ClientHandle::<B, Header<D, I, P>, I>::pull_blocks_to_tip,
            (handle, from),
        ),
        call_requires(PullBlocksToTip::<B, Header<D, I, P>, I>::poll, (pull, received)),
{
}

} // verus!
