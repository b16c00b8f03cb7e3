//! What travels between the client and the remote node.
//!
//! Blocks, headers, ids and the like are whatever types the node uses: nothing
//! here looks inside them.
use crate::client::error::{rpc, Cause, ErrorKind, RequestError};
use vstd::prelude::*;

verus! {

/// Identifies one of the light connections that share a network connection.
pub type LightWeightConnectionId = u32;

/// The remote node's answer to a query.
pub type Response<P, E> = Result<P, E>;

/// The headers that answer a header query.
#[derive(Debug, PartialEq, Eq)]
pub struct BlockHeaders<H>(pub Vec<H>);

/// A query for headers.
#[derive(Debug, PartialEq, Eq)]
pub struct GetBlockHeaders<I> {
    /// Where the client's own chain stands; empty asks for the tip.
    pub from: Vec<I>,
    /// The last header wanted; `None` asks for the tip.
    pub to: Option<I>,
}

/// A query for the blocks of a range.
#[derive(Debug, PartialEq, Eq)]
pub struct GetBlocks<I> {
    pub from: I,
    pub to: I,
}

/// What can come from the remote node.
pub enum Inbound<B, H, T> {
    /// Bookkeeping of the protocol that is of no interest here.
    NothingExciting,
    /// The answer to a header query.
    BlockHeaders(LightWeightConnectionId, Response<BlockHeaders<H>, String>),
    /// One answer to a block query.
    Block(LightWeightConnectionId, Response<B, String>),
    /// The answer to a transaction that was sent.
    TransactionReceived(LightWeightConnectionId, Response<T, String>),
    /// The remote node closed a light connection.
    CloseConnection(LightWeightConnectionId),
    /// Anything else.
    Other,
}

/// What can be sent to the remote node.
pub enum Message<I, N, M> {
    /// Acknowledges the remote node's id.
    AckNodeId(LightWeightConnectionId, N),
    /// Asks for headers.
    GetBlockHeaders(LightWeightConnectionId, GetBlockHeaders<I>),
    /// Asks for blocks.
    GetBlocks(LightWeightConnectionId, GetBlocks<I>),
    /// Anything else, passed on as it is.
    Other(M),
}

/// Turns an answer into a result: an answer with a payload goes through the
/// conversion, an answer with an error becomes the error of the request.
pub fn convert_response<P, Q, F: FnOnce(P) -> Q>(
    response: Response<P, String>,
    conversion: F,
) -> (result: Result<Q, RequestError>)
    requires
        response matches Ok(payload) ==> conversion.requires((payload,)),
    ensures
        match response {
            Ok(payload) => result is Ok && conversion.ensures(
                (payload,),
                result->Ok_0,
            ),
            Err(text) => result == Err::<Q, RequestError>(rpc(Cause::Remote(text))),
        },
{
    match response {
        Ok(payload) => Ok(conversion(payload)),
        Err(text) => Err(RequestError::new(ErrorKind::Rpc, Cause::Remote(text))),
    }
}

/// An answer with a payload gives what the conversion makes of that payload; an
/// answer with an error fails with the words that came, whatever the conversion is.
pub proof fn law_answers_are_converted<P, Q, F: FnOnce(P) -> Q>(
    response: Response<P, String>,
    conversion: F,
    result: Result<Q, RequestError>,
)
    requires
        call_ensures(convert_response::<P, Q, F>, (response, conversion), result),
    ensures
        result is Ok <==> response is Ok,
        response matches Ok(payload) ==> conversion.ensures((payload,), result->Ok_0),
        response matches Err(text) ==> result->Err_0.kind is Rpc && result->Err_0.cause
            == Cause::Remote(text),
{
}

} // verus!
