//! Why a request to a remote node failed.
use vstd::prelude::*;

verus! {

/// The part of the client in which a request failed.
#[derive(Debug, Clone, Copy, PartialEq, Eq, Structural)]
pub enum ErrorKind {
    /// The exchange with the remote node.
    Rpc,
}

/// What went wrong.
#[derive(Debug)]
pub enum Cause {
    /// A response came that does not fit the pending request.
    UnexpectedResponse,
    /// Headers came as the reply to a request for blocks.
    UnexpectedReply,
    /// The remote node closed the light connection before it answered.
    UnexpectedClose,
    /// The channel that carries blocks could not be read.
    ChannelRead,
    /// The remote node answered with an error, in these words.
    Remote(String),
    /// The connection went away without an answer.
    Canceled,
    /// An earlier step of the same operation failed.
    Nested(Box<RequestError>),
}

/// What went wrong in setting up a connection.
#[derive(Debug)]
pub enum ConnectCause<E> {
    /// The socket could not be connected.
    Io(std::io::Error),
    /// The protocol handshake failed.
    Handshake(E),
}

/// The error that a request to a remote node, or setting up a connection to it, ends
/// in.
#[derive(Debug)]
pub struct RequestError<C = Cause> {
    /// Where it failed.
    pub kind: ErrorKind,
    /// What went wrong there.
    pub cause: C,
}

impl Cause {
    /// The words for this cause, where it is words and not another error.
    pub open spec fn words(self) -> Option<Seq<char>> {
        match self {
            Cause::UnexpectedResponse => Some("unexpected response"@),
            Cause::UnexpectedReply => Some("unexpected reply"@),
            Cause::UnexpectedClose => Some("unexpected close"@),
            Cause::ChannelRead => Some("error reading from unbounded channel"@),
            Cause::Remote(text) => Some(text@),
            Cause::Canceled | Cause::Nested(_) => None,
        }
    }

    /// Returns the words for this cause, where it is words and not another error.
    pub fn message(&self) -> (text: Option<String>)
        ensures
            text is Some <==> self.words() is Some,
            text matches Some(text) ==> Some(text@) == self.words(),
    {
        match self {
            Cause::UnexpectedResponse => Some("unexpected response".to_owned()),
            Cause::UnexpectedReply => Some("unexpected reply".to_owned()),
            Cause::UnexpectedClose => Some("unexpected close".to_owned()),
            Cause::ChannelRead => Some("error reading from unbounded channel".to_owned()),
            Cause::Remote(text) => Some(text.clone()),
            Cause::Canceled | Cause::Nested(_) => None,
        }
    }
}

/// The error of a failed exchange with the remote node.
pub open spec fn rpc<C>(cause: C) -> RequestError<C> {
    RequestError { kind: ErrorKind::Rpc, cause }
}

impl<C> RequestError<C> {
    /// Makes an error from the place where it arose and its cause.
    pub fn new(kind: ErrorKind, cause: C) -> (error: Self)
        ensures
            error == (RequestError { kind, cause }),
    {
        RequestError { kind, cause }
    }
}

/// An error keeps the place and the cause that it was made with.
pub proof fn law_errors_keep_their_cause<C>(kind: ErrorKind, cause: C, error: RequestError<C>)
    requires
        call_ensures(RequestError::<C>::new, (kind, cause), error),
    ensures
        error.kind == kind,
        error.cause == cause,
{
}

/// The words of a cause: what the remote node said is said again letter for letter,
/// what the client finds wrong itself has words of its own, and another error
/// underneath speaks for itself.
pub proof fn law_causes_have_their_words(cause: &Cause, text: Option<String>)
    requires
        call_ensures(Cause::message, (cause,), text),
    ensures
        match *cause {
            Cause::Remote(said) => text is Some && text->Some_0@ == said@,
            Cause::UnexpectedResponse => text is Some && text->Some_0@ == "unexpected response"@,
            Cause::UnexpectedReply => text is Some && text->Some_0@ == "unexpected reply"@,
            Cause::UnexpectedClose => text is Some && text->Some_0@ == "unexpected close"@,
            Cause::ChannelRead => text is Some && text->Some_0@
                == "error reading from unbounded channel"@,
            Cause::Canceled | Cause::Nested(_) => text is None,
        },
{
}

} // verus!
