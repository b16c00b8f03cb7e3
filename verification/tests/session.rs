use chain_network::channels::unbounded;
use chain_network::client::error::RequestError;
use chain_network::client::message::{
    BlockHeaders, GetBlockHeaders, GetBlocks, Inbound, Message,
};
use chain_network::client::requests::{Delivery, Request, Undelivered};
use chain_network::client::session::{
    command_queue, forward_inbound, forward_request, inbound_command, Action, Command,
    ConnectionState, Event,
};
use chain_network::poll::Async;
use futures::sync::oneshot;
use futures::{Future, Stream};

type State = ConnectionState<&'static str, u32, u64>;
type Cmd = Command<&'static str, u32, u64, (), &'static str, &'static str>;
type Ev = Event<&'static str, u32, u64, (), &'static str, &'static str>;
type Act = Action<u64, &'static str, &'static str>;

fn step(state: &mut State, event: Ev) -> Act {
    match state.step(event) {
        Ok(action) => action,
        Err(_) => panic!("an answer was not delivered"),
    }
}

fn command(state: &mut State, command: Cmd) -> Act {
    assert!(state.can_handle(&command));
    step(state, Event::Command(Some(command)))
}

fn ready() -> State {
    let mut state = State::new();
    let first: Act = state.first_action();
    assert!(matches!(first, Action::Subscribe(false)));
    assert!(matches!(step(&mut state, Event::Subscribed), Action::NextCommand));
    state
}

fn ask(state: &mut State, id: u32, request: Request<&'static str, u32, u64>) -> Act {
    assert!(matches!(command(state, Command::Request(request)), Action::OpenLightConnection));
    let action = step(state, Event::Opened(id));
    assert!(matches!(step(state, Event::Done), Action::NextCommand));
    action
}

#[test]
fn only_answers_become_commands() {
    type In = Inbound<&'static str, u32, ()>;
    let make = |inbound: In| -> Option<Cmd> { inbound_command(inbound) };
    assert!(make(Inbound::NothingExciting).is_none());
    assert!(make(Inbound::TransactionReceived(1, Ok(()))).is_none());
    assert!(make(Inbound::Other).is_none());
    assert!(matches!(
        make(Inbound::BlockHeaders(1, Ok(BlockHeaders(vec![4])))),
        Some(Command::BlockHeaders(1, Ok(BlockHeaders(headers)))) if headers == vec![4]
    ));
    assert!(matches!(make(Inbound::Block(2, Ok("b"))), Some(Command::Blocks(2, Ok("b")))));
    assert!(matches!(make(Inbound::CloseConnection(3)), Some(Command::CloseConnection(3))));
}

#[test]
fn commands_are_queued_in_order() {
    let (mut network, mut program, commands) =
        command_queue::<&'static str, u32, u64, (), &'static str, &'static str>();
    let (tx, _rx) = oneshot::channel();
    assert!(forward_inbound(&mut network, Inbound::CloseConnection(3)).is_ok());
    assert!(forward_inbound(&mut network, Inbound::NothingExciting).is_ok());
    assert!(forward_request(&mut program, Request::Tip(tx)).is_ok());
    drop(network);
    drop(program);
    let all: Vec<Cmd> = commands.wait().map(|x| x.unwrap()).collect();
    assert_eq!(all.len(), 2);
    assert!(matches!(all[0], Command::CloseConnection(3)));
    assert!(matches!(all[1], Command::Request(Request::Tip(_))));
}

#[test]
fn commands_come_back_when_nobody_listens() {
    let (mut queue, commands) = unbounded::<Cmd>();
    drop(commands);
    assert!(matches!(
        forward_inbound(&mut queue, Inbound::Block(9, Ok("b"))),
        Err(Command::Blocks(9, Ok("b")))
    ));
    assert!(forward_inbound(&mut queue, Inbound::Other).is_ok());
    let (tx, _rx) = oneshot::channel();
    assert!(matches!(
        forward_request(&mut queue, Request::Tip(tx)),
        Err(Command::Request(Request::Tip(_)))
    ));
}

#[test]
fn messages_are_sent_on() {
    let mut state = ready();
    assert!(matches!(
        command(&mut state, Command::Message(Message::AckNodeId(5, "node"))),
        Action::AckNodeId("node")
    ));
    assert!(matches!(step(&mut state, Event::Done), Action::NextCommand));
    assert!(matches!(
        command(&mut state, Command::Message(Message::Other("hello"))),
        Action::Send(Message::Other("hello"))
    ));
    step(&mut state, Event::Done);
    assert!(matches!(command(&mut state, Command::Transaction(5, Ok(()))), Action::NextCommand));
}

#[test]
fn tip_request_round_trip() {
    let mut state = ready();
    let (tx, rx) = oneshot::channel();
    match ask(&mut state, 4, Request::Tip(tx)) {
        Action::Send(Message::GetBlockHeaders(4, GetBlockHeaders { from, to: None })) => {
            assert!(from.is_empty());
        }
        _ => panic!("another action"),
    }
    assert!(matches!(
        command(&mut state, Command::BlockHeaders(4, Ok(BlockHeaders(vec![12, 11])))),
        Action::NextCommand
    ));
    assert_eq!(rx.wait().unwrap().unwrap(), 12);
    let (owed, action): (_, Act) =
        state.handle_command::<(), _, _>(Command::BlockHeaders(4, Ok(BlockHeaders(vec![]))));
    assert!(owed.is_none());
    assert!(matches!(action, Action::NextCommand));
}

#[test]
fn block_request_round_trip() {
    let mut state = ready();
    let (tx, rx) = unbounded();
    assert!(matches!(
        ask(&mut state, 4, Request::Block(tx, 100, 200)),
        Action::Send(Message::GetBlocks(4, GetBlocks { from: 100, to: 200 }))
    ));
    for block in vec!["a", "b"] {
        assert!(matches!(
            command(&mut state, Command::Blocks(4, Ok(block))),
            Action::CloseLightConnection(4)
        ));
        step(&mut state, Event::Done);
    }
    assert!(matches!(command(&mut state, Command::CloseConnection(4)), Action::NextCommand));
    let answers: Vec<&str> = rx.wait().map(|x| x.unwrap().unwrap()).collect();
    assert_eq!(answers, vec!["a", "b"]);
}

#[test]
fn remote_error_ends_block_request() {
    let mut state = ready();
    let (tx, rx) = unbounded();
    ask(&mut state, 4, Request::Block(tx, 100, 200));
    assert!(matches!(
        command(&mut state, Command::Blocks(4, Err("lost".to_string()))),
        Action::CloseLightConnection(4)
    ));
    step(&mut state, Event::Done);
    let (owed, action): (_, Act) = state.handle_command::<(), _, _>(Command::Blocks(4, Ok("late")));
    assert!(owed.is_none());
    assert!(matches!(action, Action::CloseLightConnection(4)));
    let answers: Vec<RequestError> = rx.wait().map(|x| x.unwrap().unwrap_err()).collect();
    assert_eq!(answers.len(), 1);
    assert_eq!(answers[0].cause.message(), Some("lost".to_string()));
}

#[test]
fn wrong_answers_are_refused() {
    let mut state = ready();
    let (tip, tip_rx) = oneshot::channel();
    let (blocks, blocks_rx) = unbounded();
    ask(&mut state, 1, Request::Tip(tip));
    ask(&mut state, 2, Request::Block(blocks, 1, 2));
    assert!(matches!(
        command(&mut state, Command::Blocks(1, Ok("block"))),
        Action::CloseLightConnection(1)
    ));
    step(&mut state, Event::Done);
    assert!(matches!(
        command(&mut state, Command::BlockHeaders(2, Ok(BlockHeaders(vec![])))),
        Action::NextCommand
    ));
    let tip_err: RequestError = tip_rx.wait().unwrap().unwrap_err();
    assert_eq!(tip_err.cause.message(), Some("unexpected response".to_string()));
    let block_err: RequestError = blocks_rx.wait().next().unwrap().unwrap().unwrap_err();
    assert_eq!(block_err.cause.message(), Some("unexpected reply".to_string()));
}

#[test]
fn closed_light_connection_refuses_tip_request() {
    let mut state = ready();
    let (tx, rx) = oneshot::channel();
    ask(&mut state, 1, Request::Tip(tx));
    assert!(matches!(command(&mut state, Command::CloseConnection(1)), Action::NextCommand));
    let err: RequestError = rx.wait().unwrap().unwrap_err();
    assert_eq!(err.cause.message(), Some("unexpected close".to_string()));
}

#[test]
fn requests_do_not_touch_each_other() {
    let mut state = ready();
    let (first, first_rx) = oneshot::channel();
    let (second, second_rx) = oneshot::channel();
    ask(&mut state, 1, Request::Tip(first));
    ask(&mut state, 2, Request::Tip(second));
    command(&mut state, Command::CloseConnection(1));
    command(&mut state, Command::BlockHeaders(2, Ok(BlockHeaders(vec![6]))));
    assert!(first_rx.wait().unwrap().is_err());
    assert_eq!(second_rx.wait().unwrap().unwrap(), 6);
}

#[test]
fn undeliverable_block_finishes_the_connection() {
    let mut state = ready();
    let (tx, rx) = unbounded();
    ask(&mut state, 4, Request::Block(tx, 100, 200));
    drop(rx);
    assert!(matches!(command(&mut state, Command::Blocks(4, Ok("a"))), Action::Finish));
}

#[test]
fn undeliverable_tip_comes_back() {
    let mut state = ready();
    let (tx, rx) = oneshot::channel();
    ask(&mut state, 4, Request::Tip(tx));
    drop(rx);
    let event: Ev = Event::Command(Some(Command::BlockHeaders(4, Ok(BlockHeaders(vec![5])))));
    let outcome: Result<Act, _> = state.step(event);
    assert!(matches!(outcome, Err(Undelivered::Tip(Ok(5)))));
}

#[test]
fn settling_a_delivery() {
    let mut state = ready();
    let well: Result<Act, _> = state.settle(Action::NextCommand, Ok(()));
    assert!(matches!(well, Ok(Action::NextCommand)));
    let block: Result<Act, _> =
        state.settle(Action::CloseLightConnection(1), Err(Undelivered::Block(Ok("a"))));
    assert!(matches!(block, Ok(Action::Finish)));
    let tip: Result<Act, _> = state.settle(Action::NextCommand, Err(Undelivered::Tip(Ok(1))));
    assert!(matches!(tip, Err(Undelivered::Tip(Ok(1)))));
}

#[test]
fn failure_and_end_finish_the_connection() {
    let mut failed = State::new();
    assert!(matches!(step(&mut failed, Event::Failed), Action::Finish));
    let mut ended = ready();
    assert!(matches!(step(&mut ended, Event::Command(None)), Action::Finish));
}

#[test]
fn opened_request_is_remembered() {
    let mut state = ready();
    let (tx, _rx) = oneshot::channel();
    let message: Message<u64, (), ()> = state.opened(4, Request::Tip(tx));
    assert!(matches!(message, Message::GetBlockHeaders(4, _)));
    let (owed, _): (_, Act) = state.handle_command::<(), _, _>(Command::CloseConnection(4));
    assert!(matches!(owed, Some((4, Delivery::Tip(_, Err(_))))));
}

#[test]
fn ended_inputs_finish_the_connection_well() {
    let mut state = ready();
    assert!(matches!(state.poll(), Ok(Async::NotReady)));
    assert!(matches!(step(&mut state, Event::InboundEnded), Action::Finish));
    assert!(matches!(state.poll(), Ok(Async::Ready(()))));
    let mut busy = ready();
    command(&mut busy, Command::Message(Message::Other("hello")));
    assert!(matches!(step(&mut busy, Event::RequestsEnded), Action::Finish));
    assert!(matches!(busy.poll(), Ok(Async::Ready(()))));
    let mut failed = State::new();
    assert!(matches!(step(&mut failed, Event::Failed), Action::Finish));
    assert!(matches!(failed.poll(), Ok(Async::Ready(()))));
}

#[test]
fn other_channels_of_a_session_get_nothing() {
    let mut state = ready();
    let (one, one_rx) = unbounded();
    let (two, two_rx) = unbounded();
    ask(&mut state, 1, Request::Block(one, 1, 2));
    ask(&mut state, 2, Request::Block(two, 3, 4));
    for (id, block) in vec![(1, "a"), (3, "nobody's"), (2, "b"), (1, "c")] {
        command(&mut state, Command::Blocks(id, Ok(block)));
        step(&mut state, Event::Done);
    }
    command(&mut state, Command::CloseConnection(2));
    command(&mut state, Command::CloseConnection(1));
    let first: Vec<&str> = one_rx.wait().map(|x| x.unwrap().unwrap()).collect();
    assert_eq!(first, vec!["a", "c"]);
    let second: Vec<&str> = two_rx.wait().map(|x| x.unwrap().unwrap()).collect();
    assert_eq!(second, vec!["b"]);
}

#[test]
fn requests_of_a_session_are_asked_in_order() {
    let mut state = ready();
    for id in vec![11, 12, 13] {
        let (tx, _rx) = unbounded();
        match ask(&mut state, id, Request::Block(tx, id as u64, 100)) {
            Action::Send(Message::GetBlocks(asked, query)) => {
                assert_eq!(asked, id);
                assert_eq!(query.from, id as u64);
            }
            _ => panic!("another action"),
        }
    }
}
