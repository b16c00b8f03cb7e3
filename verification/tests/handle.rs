use chain_network::channels::unbounded;
use chain_network::client::connect::{connect, ConnectStage, ConnectStep};
use chain_network::client::error::{Cause, ConnectCause, ErrorKind, RequestError};
use chain_network::client::handle::{
    ask_tip, Canceled, ClientHandle, Header, PullBlocksToTip, PullBlocksToTipStream,
    RequestFuture, TipFuture,
};
use chain_network::client::requests::{Delivery, Request};
use chain_network::poll::Async;
use futures::sync::{mpsc, oneshot};
use futures::{Future, Stream};

type Head = Header<u32, u64, &'static str>;
type Handle = ClientHandle<&'static str, Head, u64>;
type Requests = mpsc::UnboundedReceiver<Request<&'static str, Head, u64>>;
type Pull = PullBlocksToTip<&'static str, Head, u64>;

fn open() -> (Handle, Requests) {
    match connect::<&'static str, Head, u64, ()>(ConnectStage::Handshake, Ok(())) {
        ConnectStep::Run(handle, requests) => (handle, requests),
        _ => panic!("not connected"),
    }
}

fn head(id: u64) -> Head {
    Header { id, date: 77, content: "header" }
}

fn rpc(cause: Cause) -> RequestError {
    RequestError::new(ErrorKind::Rpc, cause)
}

#[test]
fn connecting_goes_step_by_step() {
    let tcp = connect::<(), (), (), u8>(ConnectStage::Tcp, Ok(()));
    assert!(matches!(tcp, ConnectStep::Handshake));
    let refused = std::io::Error::new(std::io::ErrorKind::ConnectionRefused, "refused");
    assert!(matches!(
        connect::<(), (), (), u8>(ConnectStage::Tcp, Err(ConnectCause::Io(refused))),
        ConnectStep::Fail(RequestError { kind: ErrorKind::Rpc, cause: ConnectCause::Io(err) })
            if err.kind() == std::io::ErrorKind::ConnectionRefused
    ));
    assert!(matches!(
        connect::<(), (), (), u8>(ConnectStage::Handshake, Err(ConnectCause::Handshake(42))),
        ConnectStep::Fail(RequestError {
            kind: ErrorKind::Rpc,
            cause: ConnectCause::Handshake(42)
        })
    ));
}

#[test]
fn request_future_gives_the_answer() {
    assert!(matches!(RequestFuture::poll(Ok(Async::Ready(Ok(5)))), Ok(Async::Ready(5))));
    assert!(matches!(RequestFuture::<u8>::poll(Ok(Async::NotReady)), Ok(Async::NotReady)));
    assert!(matches!(
        RequestFuture::<u8>::poll(Ok(Async::Ready(Err(rpc(Cause::UnexpectedClose))))),
        Err(RequestError { cause: Cause::UnexpectedClose, .. })
    ));
    assert!(matches!(
        RequestFuture::<u8>::poll(Err(Canceled)),
        Err(RequestError { kind: ErrorKind::Rpc, cause: Cause::Canceled })
    ));
}

#[test]
fn tip_future_gives_id_and_date() {
    assert!(matches!(
        TipFuture::poll(Ok(Async::Ready(Ok(head(9))))),
        Ok(Async::Ready((9, 77)))
    ));
    assert!(matches!(
        TipFuture::<Head>::poll(Ok(Async::NotReady)),
        Ok(Async::NotReady)
    ));
    match TipFuture::<Head>::poll(Err(Canceled)) {
        Err(RequestError { kind: ErrorKind::Rpc, cause: Cause::Nested(inner) }) => {
            assert!(matches!(inner.cause, Cause::Canceled));
        }
        _ => panic!("another result"),
    }
}

#[test]
fn block_stream_gives_blocks() {
    type Blocks = PullBlocksToTipStream<&'static str>;
    assert!(matches!(Blocks::poll(Ok(Async::Ready(Some(Ok("b"))))), Ok(Async::Ready(Some("b")))));
    assert!(matches!(Blocks::poll(Ok(Async::Ready(None))), Ok(Async::Ready(None))));
    assert!(matches!(Blocks::poll(Ok(Async::NotReady)), Ok(Async::NotReady)));
    assert!(matches!(
        Blocks::poll(Ok(Async::Ready(Some(Err(rpc(Cause::UnexpectedReply)))))),
        Err(RequestError { cause: Cause::UnexpectedReply, .. })
    ));
    assert!(matches!(
        Blocks::poll(Err(())),
        Err(RequestError { kind: ErrorKind::Rpc, cause: Cause::ChannelRead })
    ));
}

#[test]
fn asking_pairs_request_and_future() {
    let (source, sink) = oneshot::channel();
    let (request, future): (Request<(), u8, ()>, _) = ask_tip(source, sink);
    match request {
        Request::Tip(source) => assert!(source.send(Ok(4)).is_ok()),
        Request::Block(_, _, _) => panic!("another request"),
    }
    assert_eq!(future.0.wait().unwrap().unwrap(), 4);
}

#[test]
fn tip_reaches_whoever_asked() {
    let (mut handle, requests) = open();
    let tip = handle.tip().ok().unwrap();
    let header = handle.tip_header().ok().unwrap();
    let mut requests = requests.wait();
    for id in vec![1, 2] {
        match requests.next().unwrap().unwrap() {
            Request::Tip(source) => assert!(source.send(Ok(head(id))).is_ok()),
            Request::Block(_, _, _) => panic!("another request"),
        }
    }
    assert_eq!((tip.0).0.wait().unwrap().unwrap(), head(1));
    assert_eq!(header.0.wait().unwrap().unwrap(), head(2));
}

#[test]
fn requests_come_back_when_the_connection_is_gone() {
    let (mut handle, requests) = open();
    drop(requests);
    assert!(matches!(handle.tip(), Err(Request::Tip(_))));
    assert!(matches!(handle.tip_header(), Err(Request::Tip(_))));
    assert!(matches!(handle.pull_blocks_to_tip(&[1]), Err(Request::Tip(_))));
}

#[test]
fn pulling_asks_for_the_tip_and_then_for_blocks() {
    let (mut handle, requests) = open();
    let mut pull: Pull = handle.pull_blocks_to_tip(&[3, 2, 1]).ok().unwrap();
    assert_eq!(pull.from, 3);
    let mut requests = requests.wait();
    assert!(matches!(requests.next().unwrap().unwrap(), Request::Tip(_)));
    assert!(matches!(pull.poll(Ok(Async::NotReady)), Ok(Async::NotReady)));
    let stream = match pull.poll(Ok(Async::Ready(Ok(head(50))))) {
        Ok(Async::Ready(Ok(stream))) => stream,
        _ => panic!("no stream"),
    };
    match requests.next().unwrap().unwrap() {
        Request::Block(sender, 3, 50) => {
            let delivery: Delivery<&'static str, Head, u64> =
                Delivery::Block(sender, Ok("block"), None);
            assert!(delivery.perform().0.is_ok());
        }
        _ => panic!("another request"),
    }
    let blocks: Vec<&str> = stream.channel.wait().map(|x| x.unwrap().unwrap()).collect();
    assert_eq!(blocks, vec!["block"]);
}

#[test]
fn pulling_reports_failures() {
    let (mut handle, requests) = open();
    let mut pull: Pull = handle.pull_blocks_to_tip(&[3]).ok().unwrap();
    match pull.poll(Err(Canceled)) {
        Err(RequestError { cause: Cause::Nested(tip), .. }) => match tip.cause {
            Cause::Nested(request) => assert!(matches!(request.cause, Cause::Canceled)),
            _ => panic!("another cause"),
        },
        _ => panic!("another result"),
    }
    drop(requests);
    assert!(matches!(
        pull.poll(Ok(Async::Ready(Ok(head(50))))),
        Ok(Async::Ready(Err(Request::Block(_, 3, 50))))
    ));
}

#[test]
fn block_request_keeps_its_range() {
    let (mut handle, _requests) = open();
    let pull: Pull = handle.pull_blocks_to_tip(&[8]).ok().unwrap();
    let (sender, receiver) = unbounded();
    match pull.block_request(sender, 9) {
        Request::Block(sender, 8, 9) => drop(sender),
        _ => panic!("another request"),
    }
    assert_eq!(receiver.wait().count(), 0);
}

#[test]
fn each_call_queues_one_request() {
    let (mut handle, requests) = open();
    assert!(handle.tip().is_ok());
    assert!(handle.tip_header().is_ok());
    let mut pull: Pull = handle.pull_blocks_to_tip(&[3]).ok().unwrap();
    assert!(matches!(pull.poll(Ok(Async::NotReady)), Ok(Async::NotReady)));
    assert!(pull.poll(Err(Canceled)).is_err());
    drop(handle);
    drop(pull);
    let all: Vec<Request<&'static str, Head, u64>> = requests.wait().map(|x| x.unwrap()).collect();
    assert_eq!(all.len(), 3);
    for request in all {
        assert!(matches!(request, Request::Tip(_)));
    }
}
