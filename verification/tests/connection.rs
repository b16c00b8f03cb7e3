use chain_network::channels::unbounded;
use chain_network::client::connection::{
    Action, Connection, ConnectionError, Event, InboundError, OutboundError, Source,
};
use chain_network::client::error::{Cause, RequestError};
use chain_network::client::message::{BlockHeaders, Inbound, Message};
use chain_network::client::requests::{Request, Undelivered};
use chain_network::poll::Async;
use futures::sync::oneshot;
use futures::{Future, Stream};

type Conn = Connection<&'static str, u32, u64>;
type Ev = Event<&'static str, u32, u64, (), &'static str, &'static str>;
type Act = Action<u64, (), (), &'static str, &'static str>;

fn message(inbound: Inbound<&'static str, u32, ()>) -> Ev {
    Event::Inbound(Ok(Async::Ready(Some(inbound))))
}

fn step(connection: &mut Conn, event: Ev) -> Act {
    match connection.step(event) {
        Ok(action) => action,
        Err(_) => panic!("an answer was not delivered"),
    }
}

fn ask(connection: &mut Conn, id: u32, request: Request<&'static str, u32, u64>) {
    let _: Message<u64, (), ()> = connection.process_request(id, request);
}

#[test]
fn idle_round_waits() {
    let mut connection = Conn::new();
    let action: Act = connection.poll();
    assert!(matches!(action, Action::PollInbound));
    assert!(matches!(
        step(&mut connection, Event::Inbound(Ok(Async::NotReady))),
        Action::PollRequests
    ));
    assert!(matches!(
        step(&mut connection, Event::Requests(Async::NotReady)),
        Action::PollOutbound
    ));
    assert!(matches!(
        step(&mut connection, Event::Outbound(Ok(Async::NotReady))),
        Action::Return(Ok(Async::NotReady))
    ));
}

#[test]
fn round_with_a_message_is_followed_by_another() {
    let mut connection = Conn::new();
    let _: Act = connection.poll();
    assert!(matches!(
        step(&mut connection, message(Inbound::NothingExciting)),
        Action::PollRequests
    ));
    assert!(matches!(
        step(&mut connection, Event::Requests(Async::NotReady)),
        Action::PollOutbound
    ));
    assert!(matches!(
        step(&mut connection, Event::Outbound(Ok(Async::Ready(())))),
        Action::PollInbound
    ));
    step(&mut connection, Event::Inbound(Ok(Async::NotReady)));
    step(&mut connection, Event::Requests(Async::NotReady));
    assert!(matches!(
        step(&mut connection, Event::Outbound(Ok(Async::Ready(())))),
        Action::Return(Ok(Async::NotReady))
    ));
}

#[test]
fn request_is_sent_and_answered() {
    let mut connection = Conn::new();
    let (tx, rx) = oneshot::channel();
    let _: Act = connection.poll();
    step(&mut connection, Event::Inbound(Ok(Async::NotReady)));
    assert!(matches!(
        step(&mut connection, Event::Requests(Async::Ready(Some(Request::Tip(tx))))),
        Action::OpenLightConnection
    ));
    match step(&mut connection, Event::Opened(0x401)) {
        Action::Send(Message::GetBlockHeaders(0x401, query)) => {
            assert!(query.from.is_empty());
            assert_eq!(query.to, None);
        }
        _ => panic!("another action"),
    }
    assert!(matches!(step(&mut connection, Event::Sent), Action::PollOutbound));
    assert!(matches!(
        step(&mut connection, Event::Outbound(Ok(Async::Ready(())))),
        Action::PollInbound
    ));
    let headers = Inbound::BlockHeaders(0x401, Ok(BlockHeaders(vec![3, 2, 1])));
    assert!(connection.can_process(&headers));
    assert!(matches!(step(&mut connection, message(headers)), Action::PollRequests));
    assert_eq!(rx.wait().unwrap().unwrap(), 3);
}

#[test]
fn ended_input_closes_the_connection() {
    let mut connection = Conn::new();
    let _: Act = connection.poll();
    assert!(matches!(
        step(&mut connection, Event::Inbound(Ok(Async::Ready(None)))),
        Action::CloseOutbound
    ));
    assert!(matches!(
        step(&mut connection, Event::Closed(Ok(Async::NotReady))),
        Action::Return(Ok(Async::NotReady))
    ));
    let again: Act = connection.poll();
    assert!(matches!(again, Action::CloseOutbound));
    assert!(matches!(
        step(&mut connection, Event::Closed(Ok(Async::Ready(())))),
        Action::Return(Ok(Async::Ready(())))
    ));
}

#[test]
fn ended_queue_closes_the_connection() {
    let mut connection = Conn::new();
    let _: Act = connection.poll();
    step(&mut connection, Event::Inbound(Ok(Async::NotReady)));
    assert!(matches!(
        step(&mut connection, Event::Requests(Async::Ready(None))),
        Action::CloseOutbound
    ));
    assert!(matches!(
        step(&mut connection, Event::Closed(Err(OutboundError("reset")))),
        Action::Return(Err(ConnectionError::Outbound(OutboundError("reset"))))
    ));
}

#[test]
fn errors_are_returned() {
    let mut connection = Conn::new();
    let _: Act = connection.poll();
    assert!(matches!(
        step(&mut connection, Event::Inbound(Err(InboundError("reset")))),
        Action::Return(Err(ConnectionError::Inbound(InboundError("reset"))))
    ));
    let again: Act = connection.poll();
    assert!(matches!(again, Action::PollInbound));
    step(&mut connection, Event::Inbound(Ok(Async::NotReady)));
    step(&mut connection, Event::Requests(Async::NotReady));
    assert!(matches!(
        step(&mut connection, Event::Outbound(Err(OutboundError("full")))),
        Action::Return(Err(ConnectionError::Outbound(OutboundError("full"))))
    ));
}

#[test]
fn errors_have_words_and_a_source() {
    let inbound: ConnectionError<u8, u16> = ConnectionError::from(InboundError(1u8));
    let outbound: ConnectionError<u8, u16> = ConnectionError::from(OutboundError(2u16));
    assert_eq!(inbound.message(), "network input error");
    assert_eq!(outbound.message(), "network output error");
    assert!(matches!(inbound.source(), Some(Source::Inbound(InboundError(1)))));
    assert!(matches!(outbound.source(), Some(Source::Outbound(OutboundError(2)))));
}

#[test]
fn responses_nobody_asked_for_are_ignored() {
    let mut connection = Conn::new();
    let (tx, rx) = oneshot::channel();
    ask(&mut connection, 1, Request::Tip(tx));
    let unasked: Vec<Inbound<&'static str, u32, ()>> = vec![
        Inbound::BlockHeaders(2, Ok(BlockHeaders(vec![]))),
        Inbound::Block(2, Ok("block")),
        Inbound::CloseConnection(2),
        Inbound::TransactionReceived(1, Ok(())),
        Inbound::NothingExciting,
        Inbound::Other,
    ];
    for inbound in unasked {
        assert!(connection.can_process(&inbound));
        assert!(connection.route_inbound(inbound).is_none());
    }
    assert!(connection.process_inbound::<()>(Inbound::BlockHeaders(1, Ok(BlockHeaders(vec![8])))).is_ok());
    assert_eq!(rx.wait().unwrap().unwrap(), 8);
}

#[test]
fn tip_without_a_header_cannot_be_processed() {
    let mut connection = Conn::new();
    let (tx, _rx) = oneshot::channel();
    ask(&mut connection, 1, Request::Tip(tx));
    let inbound: Inbound<&'static str, u32, ()> = Inbound::BlockHeaders(1, Ok(BlockHeaders(vec![])));
    assert!(!connection.can_process(&inbound));
}

#[test]
fn tip_is_answered_once() {
    let mut connection = Conn::new();
    let (tx, rx) = oneshot::channel();
    ask(&mut connection, 1, Request::Tip(tx));
    assert!(connection.process_inbound::<()>(Inbound::BlockHeaders(1, Err("busy".to_string()))).is_ok());
    assert!(connection.route_inbound::<()>(Inbound::BlockHeaders(1, Ok(BlockHeaders(vec![1])))).is_none());
    let err: RequestError = rx.wait().unwrap().unwrap_err();
    assert!(matches!(err.cause, Cause::Remote(text) if text == "busy"));
}

#[test]
fn blocks_arrive_in_order_and_an_error_does_not_end_them() {
    let mut connection = Conn::new();
    let (tx, rx) = unbounded();
    ask(&mut connection, 1, Request::Block(tx, 1, 3));
    assert!(connection.process_inbound::<()>(Inbound::Block(1, Ok("one"))).is_ok());
    assert!(connection.process_inbound::<()>(Inbound::Block(1, Err("lost".to_string()))).is_ok());
    assert!(connection.process_inbound::<()>(Inbound::Block(1, Ok("three"))).is_ok());
    assert!(connection.process_inbound::<()>(Inbound::CloseConnection(1)).is_ok());
    let answers: Vec<Result<&str, RequestError>> = rx.wait().map(|x| x.unwrap()).collect();
    assert_eq!(answers.len(), 3);
    assert!(matches!(answers[0], Ok("one")));
    assert!(matches!(answers[1], Err(_)));
    assert!(matches!(answers[2], Ok("three")));
}

#[test]
fn answers_of_the_wrong_kind_are_refused() {
    let mut connection = Conn::new();
    let (tip, tip_rx) = oneshot::channel();
    let (blocks, blocks_rx) = unbounded();
    ask(&mut connection, 1, Request::Tip(tip));
    ask(&mut connection, 2, Request::Block(blocks, 1, 3));
    assert!(connection.process_inbound::<()>(Inbound::Block(1, Ok("block"))).is_ok());
    assert!(connection.process_inbound::<()>(Inbound::BlockHeaders(2, Ok(BlockHeaders(vec![1])))).is_ok());
    let tip_err: RequestError = tip_rx.wait().unwrap().unwrap_err();
    assert_eq!(tip_err.cause.message(), Some("unexpected response".to_string()));
    let mut answers = blocks_rx.wait();
    let block_err: RequestError = answers.next().unwrap().unwrap().unwrap_err();
    assert_eq!(block_err.cause.message(), Some("unexpected response".to_string()));
    assert!(answers.next().is_none());
}

#[test]
fn answer_for_a_gone_program_fails_the_step() {
    let mut connection = Conn::new();
    let (tx, rx) = oneshot::channel();
    ask(&mut connection, 1, Request::Tip(tx));
    drop(rx);
    let _: Act = connection.poll();
    let outcome: Result<Act, _> = connection.step(message(Inbound::CloseConnection(1)));
    match outcome {
        Err(Undelivered::Tip(Err(err))) => {
            assert_eq!(err.cause.message(), Some("unexpected close".to_string()));
        }
        _ => panic!("another outcome"),
    }
}

#[test]
fn failed_opening_gives_the_request_up() {
    let mut connection = Conn::new();
    let (waiting, waiting_rx) = oneshot::channel();
    ask(&mut connection, 1, Request::Tip(waiting));
    let (tx, rx) = oneshot::channel();
    let _: Act = connection.poll();
    step(&mut connection, Event::Inbound(Ok(Async::NotReady)));
    step(&mut connection, Event::Requests(Async::Ready(Some(Request::Tip(tx)))));
    assert!(matches!(
        step(&mut connection, Event::Failed(OutboundError("full"))),
        Action::Return(Err(ConnectionError::Outbound(OutboundError("full"))))
    ));
    assert!(rx.wait().is_err());
    let headers = Inbound::BlockHeaders(1, Ok(BlockHeaders(vec![8])));
    assert!(connection.process_inbound::<()>(headers).is_ok());
    assert_eq!(waiting_rx.wait().unwrap().unwrap(), 8);
}

#[test]
fn failed_sending_leaves_the_request_waiting() {
    let mut connection = Conn::new();
    let (tx, rx) = oneshot::channel();
    let _: Act = connection.poll();
    step(&mut connection, Event::Inbound(Ok(Async::NotReady)));
    step(&mut connection, Event::Requests(Async::Ready(Some(Request::Tip(tx)))));
    step(&mut connection, Event::Opened(5));
    assert!(matches!(
        step(&mut connection, Event::Failed(OutboundError("full"))),
        Action::Return(Err(ConnectionError::Outbound(OutboundError("full"))))
    ));
    let again: Act = connection.poll();
    assert!(matches!(again, Action::PollInbound));
    step(&mut connection, message(Inbound::BlockHeaders(5, Ok(BlockHeaders(vec![2])))));
    assert_eq!(rx.wait().unwrap().unwrap(), 2);
}

#[test]
fn other_channels_get_nothing() {
    let mut connection = Conn::new();
    let (one, one_rx) = unbounded();
    let (two, two_rx) = unbounded();
    ask(&mut connection, 1, Request::Block(one, 1, 2));
    ask(&mut connection, 2, Request::Block(two, 3, 4));
    let come: Vec<Inbound<&'static str, u32, ()>> = vec![
        Inbound::Block(1, Ok("a")),
        Inbound::Block(3, Ok("nobody's")),
        Inbound::NothingExciting,
        Inbound::Block(2, Ok("b")),
        Inbound::Block(1, Ok("c")),
        Inbound::CloseConnection(2),
        Inbound::BlockHeaders(1, Ok(BlockHeaders(vec![]))),
        Inbound::Block(1, Ok("late")),
        Inbound::CloseConnection(1),
    ];
    for inbound in come {
        assert!(connection.process_inbound(inbound).is_ok());
    }
    let first: Vec<Result<&str, RequestError>> = one_rx.wait().map(|x| x.unwrap()).collect();
    assert_eq!(first.len(), 3);
    assert!(matches!(first[0], Ok("a")));
    assert!(matches!(first[1], Ok("c")));
    assert!(matches!(first[2], Err(RequestError { cause: Cause::UnexpectedResponse, .. })));
    let second: Vec<&str> = two_rx.wait().map(|x| x.unwrap().unwrap()).collect();
    assert_eq!(second, vec!["b"]);
}

#[test]
fn requests_are_asked_in_order() {
    let mut connection = Conn::new();
    let _: Act = connection.poll();
    for id in vec![11, 12, 13] {
        let (tx, _rx) = unbounded();
        step(&mut connection, Event::Inbound(Ok(Async::NotReady)));
        let request = Request::Block(tx, id as u64, 100);
        step(&mut connection, Event::Requests(Async::Ready(Some(request))));
        match step(&mut connection, Event::Opened(id)) {
            Action::Send(Message::GetBlocks(asked, query)) => {
                assert_eq!(asked, id);
                assert_eq!(query.from, id as u64);
                assert_eq!(query.to, 100);
            }
            _ => panic!("another action"),
        }
        step(&mut connection, Event::Sent);
        assert!(matches!(
            step(&mut connection, Event::Outbound(Ok(Async::NotReady))),
            Action::PollInbound
        ));
    }
}

#[test]
fn request_after_a_failed_opening_is_asked() {
    let mut connection = Conn::new();
    let (lost, lost_rx) = unbounded();
    let (kept, _kept_rx) = unbounded();
    let _: Act = connection.poll();
    step(&mut connection, Event::Inbound(Ok(Async::NotReady)));
    step(&mut connection, Event::Requests(Async::Ready(Some(Request::Block(lost, 1, 2)))));
    step(&mut connection, Event::Failed(OutboundError("full")));
    assert_eq!(lost_rx.wait().count(), 0);
    let _: Act = connection.poll();
    step(&mut connection, Event::Inbound(Ok(Async::NotReady)));
    step(&mut connection, Event::Requests(Async::Ready(Some(Request::Block(kept, 3, 4)))));
    match step(&mut connection, Event::Opened(9)) {
        Action::Send(Message::GetBlocks(9, query)) => {
            assert_eq!(query.from, 3);
            assert_eq!(query.to, 4);
        }
        _ => panic!("another action"),
    }
}
