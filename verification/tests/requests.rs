use chain_network::channels::unbounded;
use chain_network::client::error::{Cause, ErrorKind, RequestError};
use chain_network::client::message::{convert_response, BlockHeaders, Message};
use chain_network::client::requests::{
    unexpected_response_error, Delivery, Request, RequestTable, Undelivered,
};
use futures::sync::oneshot;
use futures::{Future, Stream};

type Table = RequestTable<&'static str, u32, u64>;
type Query = Message<u64, (), ()>;

fn register(table: &mut Table, id: u32, request: Request<&'static str, u32, u64>) -> Query {
    table.register(id, request)
}

#[test]
fn conversion_applies_to_payload_only() {
    assert_eq!(convert_response(Ok(20u32), |x| x + 1).unwrap(), 21);
    let err = convert_response(Err::<u32, String>("no such block".to_string()), |x| x).unwrap_err();
    assert_eq!(err.kind, ErrorKind::Rpc);
    assert_eq!(err.cause.message(), Some("no such block".to_string()));
}

#[test]
fn words_of_causes() {
    assert_eq!(
        unexpected_response_error().cause.message(),
        Some("unexpected response".to_string())
    );
    assert_eq!(Cause::UnexpectedReply.message(), Some("unexpected reply".to_string()));
    assert_eq!(Cause::UnexpectedClose.message(), Some("unexpected close".to_string()));
    assert_eq!(
        Cause::ChannelRead.message(),
        Some("error reading from unbounded channel".to_string())
    );
    assert_eq!(Cause::Remote("bad magic".to_string()).message(), Some("bad magic".to_string()));
    assert_eq!(Cause::Canceled.message(), None);
    assert_eq!(Cause::Nested(Box::new(unexpected_response_error())).message(), None);
}

#[test]
fn tip_request_asks_for_headers_from_nowhere() {
    let mut table = Table::new();
    let (tx, _rx) = oneshot::channel();
    match register(&mut table, 7, Request::Tip(tx)) {
        Message::GetBlockHeaders(7, query) => {
            assert!(query.from.is_empty());
            assert_eq!(query.to, None);
        }
        _ => panic!("another message"),
    }
    assert!(table.awaits_tip(7));
    assert!(!table.awaits_tip(8));
}

#[test]
fn block_request_asks_for_its_range() {
    let mut table = Table::new();
    let (tx, _rx) = unbounded();
    match register(&mut table, 3, Request::Block(tx, 10, 20)) {
        Message::GetBlocks(3, query) => {
            assert_eq!(query.from, 10);
            assert_eq!(query.to, 20);
        }
        _ => panic!("another message"),
    }
    assert!(!table.awaits_tip(3));
}

#[test]
fn first_header_answers_tip() {
    let mut table = Table::new();
    let (tx, rx) = oneshot::channel();
    register(&mut table, 7, Request::Tip(tx));
    let delivery = table.headers(7, Ok(BlockHeaders(vec![30, 20, 10])), Cause::UnexpectedReply);
    assert!(delivery.unwrap().perform().0.is_ok());
    assert_eq!(rx.wait().unwrap().unwrap(), 30);
    assert!(!table.awaits_tip(7));
}

#[test]
fn no_headers_are_unusable_for_tip_only() {
    let mut table = Table::new();
    let (tip, _tip_rx) = oneshot::channel();
    let (blocks, _blocks_rx) = unbounded();
    register(&mut table, 1, Request::Tip(tip));
    register(&mut table, 2, Request::Block(blocks, 1, 2));
    let none = Ok(BlockHeaders(vec![]));
    assert!(!table.can_use_headers(1, &none));
    assert!(table.can_use_headers(2, &none));
    assert!(table.can_use_headers(3, &none));
    assert!(table.can_use_headers(1, &Ok(BlockHeaders(vec![5]))));
    assert!(table.can_use_headers(1, &Err("busy".to_string())));
}

#[test]
fn headers_for_block_request_are_refused() {
    let mut table = Table::new();
    let (tx, rx) = unbounded();
    register(&mut table, 7, Request::Block(tx, 1, 2));
    let delivery = table.headers(7, Ok(BlockHeaders(vec![])), Cause::UnexpectedReply);
    assert!(delivery.unwrap().perform().0.is_ok());
    let answers: Vec<Result<&str, RequestError>> = rx.wait().map(|x| x.unwrap()).collect();
    assert_eq!(answers.len(), 1);
    assert!(matches!(
        answers[0],
        Err(RequestError { kind: ErrorKind::Rpc, cause: Cause::UnexpectedReply })
    ));
}

#[test]
fn block_request_outlives_its_blocks() {
    let mut table = Table::new();
    let (tx, rx) = unbounded();
    register(&mut table, 7, Request::Block(tx, 1, 3));
    for block in vec!["one", "two", "three"] {
        let owed = table.block(7, Ok(block), false);
        assert!(matches!(owed, Some(Delivery::Block(_, Ok(_), Some((1, 3))))));
        assert!(table.deliver(7, owed).is_ok());
    }
    let delivery = table.closed(7).unwrap();
    assert!(matches!(delivery, Delivery::Close(_)));
    assert!(delivery.perform().0.is_ok());
    let answers: Vec<&str> = rx.wait().map(|x| x.unwrap().unwrap()).collect();
    assert_eq!(answers, vec!["one", "two", "three"]);
    assert!(table.block(7, Ok("four"), false).is_none());
}

#[test]
fn failed_block_request_is_kept_on_demand() {
    let mut table = Table::new();
    let (tx, rx) = unbounded();
    register(&mut table, 7, Request::Block(tx, 1, 3));
    let gone = || Err::<&'static str, String>("gone".to_string());
    let kept = table.block(7, gone(), true);
    assert!(table.deliver(7, kept).is_ok());
    let ended = table.block(7, gone(), false);
    assert!(table.deliver(7, ended).is_ok());
    assert!(table.block(7, gone(), true).is_none());
    let answers: Vec<RequestError> = rx.wait().map(|x| x.unwrap().unwrap_err()).collect();
    assert_eq!(answers.len(), 2);
    assert_eq!(answers[1].cause.message(), Some("gone".to_string()));
}

#[test]
fn block_for_tip_request_is_refused() {
    let mut table = Table::new();
    let (tx, rx) = oneshot::channel();
    register(&mut table, 7, Request::Tip(tx));
    assert!(table.block(7, Ok("block"), true).unwrap().perform().0.is_ok());
    let err: RequestError = rx.wait().unwrap().unwrap_err();
    assert!(matches!(err.cause, Cause::UnexpectedResponse));
    assert!(table.block(7, Ok("block"), true).is_none());
}

#[test]
fn close_refuses_tip_request() {
    let mut table = Table::new();
    let (tx, rx) = oneshot::channel();
    register(&mut table, 7, Request::Tip(tx));
    assert!(table.closed(7).unwrap().perform().0.is_ok());
    let err: RequestError = rx.wait().unwrap().unwrap_err();
    assert!(matches!(err.cause, Cause::UnexpectedClose));
    assert!(table.closed(7).is_none());
}

#[test]
fn undeliverable_answers_come_back() {
    let mut table = Table::new();
    let (tip, tip_rx) = oneshot::channel();
    let (blocks, blocks_rx) = unbounded();
    register(&mut table, 1, Request::Tip(tip));
    register(&mut table, 2, Request::Block(blocks, 1, 2));
    drop(tip_rx);
    drop(blocks_rx);
    let tip = table.headers(1, Ok(BlockHeaders(vec![9])), Cause::UnexpectedReply).unwrap();
    assert!(matches!(tip.perform(), (Err(Undelivered::Tip(Ok(9))), None)));
    let block = table.block(2, Ok("block"), true);
    assert!(matches!(table.deliver(2, block), Err(Undelivered::Block(Ok("block")))));
    assert!(table.closed(2).unwrap().perform().0.is_ok());
}

#[test]
fn later_request_replaces_earlier_one() {
    let mut table = Table::new();
    let (first, first_rx) = oneshot::channel();
    let (second, second_rx) = oneshot::channel();
    register(&mut table, 1, Request::Tip(first));
    register(&mut table, 1, Request::Tip(second));
    assert!(first_rx.wait().is_err());
    let delivery = table.headers(1, Err("busy".to_string()), Cause::UnexpectedReply).unwrap();
    assert!(delivery.perform().0.is_ok());
    let err: RequestError = second_rx.wait().unwrap().unwrap_err();
    assert!(matches!(err.cause, Cause::Remote(text) if text == "busy"));
}
