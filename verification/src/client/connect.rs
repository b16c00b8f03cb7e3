//! Setting up a connection to a remote node.
use crate::channels::{self, unbounded_halves};
use crate::client::error::{rpc, ConnectCause, ErrorKind, RequestError};
use crate::client::handle::ClientHandle;
use crate::client::requests::Request;
use futures::sync::mpsc::UnboundedReceiver;
use vstd::prelude::*;

verus! {

/// What is under way while a connection is set up.
#[derive(Debug, Clone, Copy, PartialEq, Eq, Structural)]
pub enum ConnectStage {
    /// The socket is being connected.
    Tcp,
    /// The protocol handshake is under way.
    Handshake,
}

/// What comes next while a connection is set up.
#[verifier::reject_recursive_types(B)]
#[verifier::reject_recursive_types(H)]
#[verifier::reject_recursive_types(I)]
pub enum ConnectStep<B, H, I, E> {
    /// Do the protocol handshake.
    Handshake,
    /// Run the connection on the requests that come here; the program gets the
    /// handle.
    Run(ClientHandle<B, H, I>, UnboundedReceiver<Request<B, H, I>>),
    /// Give up with this error.
    Fail(RequestError<ConnectCause<E>>),
}

/// Connects to a remote node: says what comes next after what was under way has
/// come out one way or the other. The handshake follows the connected socket, the
/// connection runs after the handshake, and whatever fails ends in an error that keeps
/// what went wrong as it is.
pub fn connect<B, H, I, E>(
    stage: ConnectStage,
    outcome: Result<(), ConnectCause<E>>,
) -> (step: ConnectStep<B, H, I, E>)
    ensures
        match (stage, outcome) {
            (_, Err(cause)) => step == ConnectStep::<B, H, I, E>::Fail(rpc(cause)),
            (ConnectStage::Tcp, Ok(())) => step is Handshake,
            (ConnectStage::Handshake, Ok(())) => step matches ConnectStep::Run(handle, requests)
                && handle.channel.fresh() && unbounded_halves(handle.channel.end(), requests),
        },
{
    match outcome {
        Err(cause) => ConnectStep::Fail(RequestError::new(ErrorKind::Rpc, cause)),
        Ok(()) => match stage {
            ConnectStage::Tcp => ConnectStep::Handshake,
            ConnectStage::Handshake => {
                let (stream, source) = channels::unbounded();
                ConnectStep::Run(ClientHandle { channel: stream }, source)
            },
        },
    }
}

/// Setting up goes on exactly as long as nothing fails: a failure is reported with
/// what went wrong, whatever was under way; a connected socket leads to the
/// handshake; and after the handshake the connection runs on the requests of the
/// handle that the program gets, on which nothing has been asked yet.
pub proof fn law_setting_up_goes_on_until_it_fails<B, H, I, E>(
    stage: ConnectStage,
    outcome: Result<(), ConnectCause<E>>,
    step: ConnectStep<B, H, I, E>,
)
    requires
        call_ensures(connect::<B, H, I, E>, (stage, outcome), step),
    ensures
        step is Fail <==> outcome is Err,
        outcome matches Err(cause) ==> step->Fail_0.cause == cause && step->Fail_0.kind is Rpc,
        step is Handshake <==> outcome is Ok && stage is Tcp,
        step is Run <==> outcome is Ok && stage is Handshake,
        step matches ConnectStep::Run(handle, requests) ==> {
            &&& call_ensures(
                futures::sync::mpsc::unbounded::<Request<B, H, I>>,
                (),
                (handle.channel.end(), requests),
            )
            &&& handle.channel.sent().len() == 0
            &&& handle.channel.refused().len() == 0
            &&& handle.channel.shares() == 0
        },
{
}

} // verus!
