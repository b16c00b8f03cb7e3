//! The program's side of a connection: asking for the tip and for blocks.
//!
//! A future of this module holds the channel end on which the answer comes. The
//! program polls that end and hands in what it got; `poll` makes of it what the
//! future gives.
use crate::channels::{self, oneshot_halves, unbounded_halves, Outlet};
use crate::client::error::{rpc, Cause, ErrorKind, RequestError};
use crate::client::requests::Request;
use crate::poll::Async;
use futures::sync::mpsc::UnboundedReceiver;
use futures::sync::oneshot;
use vstd::prelude::*;

verus! {

/// What the client reads of a block header.
#[derive(Debug, PartialEq, Eq)]
pub struct Header<D, I, P> {
    /// The id of the block.
    pub id: I,
    /// The date of the block.
    pub date: D,
    /// The header itself.
    pub content: P,
}

/// The sending half of a channel was dropped before it sent anything.
#[derive(Debug, Clone, Copy, PartialEq, Eq, Structural)]
pub struct Canceled;

/// The answer to a request, when it comes.
#[verifier::reject_recursive_types(T)]
pub struct RequestFuture<T>(pub oneshot::Receiver<Result<T, RequestError>>);

/// The id and date of the tip, when they come.
#[verifier::reject_recursive_types(H)]
pub struct TipFuture<H>(pub RequestFuture<H>);

/// The blocks from a known one to the tip, when the tip is known.
#[verifier::reject_recursive_types(B)]
#[verifier::reject_recursive_types(H)]
#[verifier::reject_recursive_types(I)]
pub struct PullBlocksToTip<B, H, I> {
    /// The tip, when it comes.
    pub chan: TipFuture<H>,
    /// Where the range begins.
    pub from: I,
    /// Where requests go.
    pub request: Outlet<Request<B, H, I>>,
}

/// Blocks, one by one, as they come.
#[verifier::reject_recursive_types(B)]
pub struct PullBlocksToTipStream<B> {
    /// Where the blocks come.
    pub channel: UnboundedReceiver<Result<B, RequestError>>,
}

/// What the future of a request gives for what its channel end gave.
pub open spec fn request_result<T>(
    received: Result<Async<Result<T, RequestError>>, Canceled>,
) -> Result<Async<T>, RequestError> {
    match received {
        Ok(Async::Ready(Ok(answer))) => Ok(Async::Ready(answer)),
        Ok(Async::Ready(Err(err))) => Err(err),
        Ok(Async::NotReady) => Ok(Async::NotReady),
        Err(Canceled) => Err(rpc(Cause::Canceled)),
    }
}

/// What the future of the tip gives for what its channel end gave: the id and
/// date of the header, or the failure wrapped into a further error.
pub open spec fn tip_result<D, I, P>(
    received: Result<Async<Result<Header<D, I, P>, RequestError>>, Canceled>,
) -> Result<Async<(I, D)>, RequestError> {
    match request_result(received) {
        Ok(Async::Ready(header)) => Ok(Async::Ready((header.id, header.date))),
        Ok(Async::NotReady) => Ok(Async::NotReady),
        Err(err) => Err(rpc(Cause::Nested(Box::new(err)))),
    }
}

/// What the stream of blocks gives for what its channel end gave.
pub open spec fn stream_result<B>(
    received: Result<Async<Option<Result<B, RequestError>>>, ()>,
) -> Result<Async<Option<B>>, RequestError> {
    match received {
        Ok(Async::Ready(None)) => Ok(Async::Ready(None)),
        Ok(Async::Ready(Some(Ok(block)))) => Ok(Async::Ready(Some(block))),
        Ok(Async::Ready(Some(Err(err)))) => Err(err),
        Ok(Async::NotReady) => Ok(Async::NotReady),
        Err(()) => Err(rpc(Cause::ChannelRead)),
    }
}

impl<T> RequestFuture<T> {
    /// Makes of what the channel end gave what the future gives.
    pub fn poll(received: Result<Async<Result<T, RequestError>>, Canceled>) -> (result: Result<
        Async<T>,
        RequestError,
    >)
        ensures
            result == request_result(received),
    {
        match received {
            Ok(Async::Ready(Ok(answer))) => Ok(Async::Ready(answer)),
            Ok(Async::Ready(Err(err))) => Err(err),
            Ok(Async::NotReady) => Ok(Async::NotReady),
            Err(Canceled) => Err(RequestError::new(ErrorKind::Rpc, Cause::Canceled)),
        }
    }
}

impl<D, I, P> TipFuture<Header<D, I, P>> {
    /// Makes of what the channel end gave what the future gives.
    pub fn poll(
        received: Result<Async<Result<Header<D, I, P>, RequestError>>, Canceled>,
    ) -> (result: Result<Async<(I, D)>, RequestError>)
        ensures
            result == tip_result(received),
    {
        match RequestFuture::poll(received) {
            Ok(Async::Ready(header)) => Ok(Async::Ready((header.id, header.date))),
            Ok(Async::NotReady) => Ok(Async::NotReady),
            Err(err) => Err(RequestError::new(ErrorKind::Rpc, Cause::Nested(Box::new(err)))),
        }
    }
}

impl<B, D, I, P> PullBlocksToTip<B, Header<D, I, P>, I> {
    /// Makes the request for the blocks up to a tip.
    pub fn block_request(
        &self,
        chan: Outlet<Result<B, RequestError>>,
        tip: I,
    ) -> (request: Request<B, Header<D, I, P>, I>) where I: Clone
        ensures
            request matches Request::Block(asked_chan, from, to) && asked_chan == chan && cloned(
                self.from,
                from,
            ) && to == tip,
    {
        Request::Block(chan, self.from.clone(), tip)
    }

    /// Makes of what the channel end of the tip gave what the future gives. Once
    /// the tip is there, the blocks up to it are asked for; if the connection is
    /// gone by then, that request comes back.
    pub fn poll(
        &mut self,
        received: Result<Async<Result<Header<D, I, P>, RequestError>>, Canceled>,
    ) -> (result: Result<
        Async<Result<PullBlocksToTipStream<B>, Request<B, Header<D, I, P>, I>>>,
        RequestError,
    >) where I: Clone
        ensures
            match tip_result(received) {
                Ok(Async::Ready((tip, _))) => {
                    &&& result matches Ok(Async::Ready(asked))
                    &&& match asked {
                        Ok(stream) => asked_for_blocks(*old(self), tip, *final(self), stream),
                        Err(request) => {
                            &&& request matches Request::Block(chan, from, to)
                            &&& chan.fresh()
                            &&& cloned(old(self).from, from)
                            &&& to == tip
                            &&& *final(self) == (PullBlocksToTip {
                                request: old(self).request.after(request, false),
                                ..*old(self)
                            })
                        },
                    }
                },
                Ok(Async::NotReady) => result matches Ok(Async::NotReady) && *final(self)
                    == *old(self),
                Err(err) => {
                    &&& result matches Err(wrapped)
                    &&& wrapped == rpc(Cause::Nested(Box::new(err)))
                    &&& *final(self) == *old(self)
                },
            },
    {
        match TipFuture::poll(received) {
            Ok(Async::Ready((tip, _date))) => {
                let (chan, receiver) = channels::unbounded();
                let request = self.block_request(chan, tip);
                match self.request.post(request) {
                    Ok(()) => {
                        let stream = PullBlocksToTipStream { channel: receiver };
                        assert(asked_with(*old(self), request, *final(self), stream));
                        Ok(Async::Ready(Ok(stream)))
                    },
                    Err(request) => Ok(Async::Ready(Err(request))),
                }
            },
            Ok(Async::NotReady) => Ok(Async::NotReady),
            Err(err) => Err(RequestError::new(ErrorKind::Rpc, Cause::Nested(Box::new(err)))),
        }
    }
}

impl<B> PullBlocksToTipStream<B> {
    /// Makes of what the channel end gave what the stream gives.
    pub fn poll(received: Result<Async<Option<Result<B, RequestError>>>, ()>) -> (result: Result<
        Async<Option<B>>,
        RequestError,
    >)
        ensures
            result == stream_result(received),
    {
        match received {
            Ok(Async::Ready(None)) => Ok(Async::Ready(None)),
            Ok(Async::Ready(Some(Ok(block)))) => Ok(Async::Ready(Some(block))),
            Ok(Async::Ready(Some(Err(err)))) => Err(err),
            Ok(Async::NotReady) => Ok(Async::NotReady),
            Err(()) => Err(RequestError::new(ErrorKind::Rpc, Cause::ChannelRead)),
        }
    }
}

/// A handle that can be used in order for communication with the connection.
#[verifier::reject_recursive_types(B)]
#[verifier::reject_recursive_types(H)]
#[verifier::reject_recursive_types(I)]
pub struct ClientHandle<B, H, I> {
    /// Where requests go.
    pub channel: Outlet<Request<B, H, I>>,
}

/// One tip request was posted and nothing else: it went out with the sending half
/// of the channel at whose receiving half the future waits.
pub open spec fn asked_for_tip<B, H, I>(
    before: Outlet<Request<B, H, I>>,
    after: Outlet<Request<B, H, I>>,
    future: RequestFuture<H>,
) -> bool {
    exists|source: oneshot::Sender<Result<H, RequestError>>|
        #![trigger oneshot_halves(source, future.0)]
        oneshot_halves(source, future.0) && after == before.after(Request::Tip(source), true)
}

/// This one request was posted and nothing else: it went out with the sending half,
/// not used yet, of the channel whose receiving half the stream reads.
pub open spec fn asked_with<B, H, I>(
    before: PullBlocksToTip<B, H, I>,
    request: Request<B, H, I>,
    after: PullBlocksToTip<B, H, I>,
    stream: PullBlocksToTipStream<B>,
) -> bool {
    &&& request matches Request::Block(chan, _, _)
    &&& chan.fresh()
    &&& unbounded_halves(chan.end(), stream.channel)
    &&& after == (PullBlocksToTip { request: before.request.after(request, true), ..before })
}

/// One request for the blocks up to a tip was posted and nothing else.
pub open spec fn asked_for_blocks<B, H, I: Clone>(
    before: PullBlocksToTip<B, H, I>,
    tip: I,
    after: PullBlocksToTip<B, H, I>,
    stream: PullBlocksToTipStream<B>,
) -> bool {
    exists|request: Request<B, H, I>|
        {
            &&& #[trigger] asked_with(before, request, after, stream)
            &&& request matches Request::Block(_, from, to)
            &&& cloned(before.from, from)
            &&& to == tip
        }
}

/// Makes the request for the tip and the future of its answer from the two halves
/// of a channel.
pub fn ask_tip<B, H, I>(
    source: oneshot::Sender<Result<H, RequestError>>,
    sink: oneshot::Receiver<Result<H, RequestError>>,
) -> (asked: (Request<B, H, I>, RequestFuture<H>))
    ensures
        asked.0 == Request::<B, H, I>::Tip(source),
        asked.1 == RequestFuture(sink),
{
    (Request::Tip(source), RequestFuture(sink))
}

impl<B, H, I> ClientHandle<B, H, I> {
    /// Asks for the header at the tip of the remote node's chain. If the
    /// connection is gone, the request comes back.
    pub fn tip_header(&mut self) -> (asked: Result<RequestFuture<H>, Request<B, H, I>>)
        ensures
            match asked {
                Ok(future) => asked_for_tip(old(self).channel, final(self).channel, future),
                Err(request) => request is Tip && final(self).channel == old(
                    self,
                ).channel.after(request, false),
            },
    {
        let (source, sink) = oneshot::channel();
        let (request, future) = ask_tip(source, sink);
        assert(oneshot_halves(source, future.0));
        match self.channel.post(request) {
            Ok(()) => Ok(future),
            Err(request) => Err(request),
        }
    }

    /// Asks for the id and date of the tip of the remote node's chain. If the
    /// connection is gone, the request comes back.
    pub fn tip(&mut self) -> (asked: Result<TipFuture<H>, Request<B, H, I>>)
        ensures
            match asked {
                Ok(future) => asked_for_tip(old(self).channel, final(self).channel, future.0),
                Err(request) => request is Tip && final(self).channel == old(
                    self,
                ).channel.after(request, false),
            },
    {
        match self.tip_header() {
            Ok(future) => Ok(TipFuture(future)),
            Err(request) => Err(request),
        }
    }

    /// Asks for the blocks from the first of the given ids to the tip, beginning
    /// with asking for the tip. The request for the blocks is to go out later, over a
    /// further outlet of the same channel. If the connection is gone, the tip request
    /// comes back.
    pub fn pull_blocks_to_tip(&mut self, from: &[I]) -> (asked: Result<
        PullBlocksToTip<B, H, I>,
        Request<B, H, I>,
    >) where I: Clone
        requires
            from@.len() > 0,
        ensures
            match asked {
                Ok(pull) => {
                    &&& exists|posted: Outlet<Request<B, H, I>>|
                        {
                            &&& #[trigger] asked_for_tip(old(self).channel, posted, pull.chan.0)
                            &&& final(self).channel == posted.shared()
                        }
                    &&& cloned(old(self).channel.end(), pull.request.end())
                    &&& cloned(from@[0], pull.from)
                    &&& pull.request.fresh()
                },
                Err(request) => request is Tip && final(self).channel == old(
                    self,
                ).channel.after(request, false),
            },
    {
        match self.tip() {
            Ok(chan) => {
                broadcast use channels::law_after;

                let ghost posted = self.channel;
                let request = self.channel.share();
                let pull = PullBlocksToTip { chan, from: from[0].clone(), request };
                assert(asked_for_tip(old(self).channel, posted, pull.chan.0));
                assert(posted.end() == old(self).channel.end());
                Ok(pull)
            },
            Err(request) => Err(request),
        }
    }
}

} // verus!
