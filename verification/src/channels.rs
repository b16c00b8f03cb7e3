//! The in-memory channels over which requests travel to a connection and replies
//! travel back.
//!
//! A channel end is opaque here: a contract can say which end is used and what
//! went into it, but not what the other task does with its half. An end that
//! carries one value is used up by sending. An end that carries any number of
//! values is an [`Outlet`], which keeps a record of all that was put to it, so
//! that a contract that names the outlet also says that nothing else was sent.
use crate::poll::Async;
use futures::sync::mpsc::{UnboundedReceiver, UnboundedSender};
use futures::sync::oneshot;
use futures::Sink;
use vstd::prelude::*;

verus! {

/// The sending half of a channel that carries one value.
#[verifier::external_type_specification]
#[verifier::external_body]
#[verifier::reject_recursive_types(T)]
pub struct ExOneshotSender<T>(futures::sync::oneshot::Sender<T>);

/// The receiving half of a channel that carries one value.
#[verifier::external_type_specification]
#[verifier::external_body]
#[verifier::reject_recursive_types(T)]
pub struct ExOneshotReceiver<T>(futures::sync::oneshot::Receiver<T>);

/// The sending half of a channel that carries any number of values.
#[verifier::external_type_specification]
#[verifier::external_body]
#[verifier::reject_recursive_types(T)]
pub struct ExUnboundedSender<T>(futures::sync::mpsc::UnboundedSender<T>);

/// The receiving half of a channel that carries any number of values.
#[verifier::external_type_specification]
#[verifier::external_body]
#[verifier::reject_recursive_types(T)]
pub struct ExUnboundedReceiver<T>(futures::sync::mpsc::UnboundedReceiver<T>);

/// `futures::sync::oneshot::channel` makes the two halves of a fresh channel.
/// Nothing is claimed of the halves: that what is sent into the first comes out
/// of the second is left unsaid, because the halves are opaque and generic.
pub assume_specification<T>[ futures::sync::oneshot::channel::<T> ]() -> (ends: (
    oneshot::Sender<T>,
    oneshot::Receiver<T>,
));

/// `futures::sync::mpsc::unbounded` makes the two halves of a fresh channel.
/// Nothing is claimed of the halves, for the reason given above.
pub assume_specification<T>[ futures::sync::mpsc::unbounded::<T> ]() -> (ends: (
    UnboundedSender<T>,
    UnboundedReceiver<T>,
));

/// The two halves came from one call of `futures::sync::oneshot::channel`.
pub open spec fn oneshot_halves<T>(
    sender: oneshot::Sender<T>,
    receiver: oneshot::Receiver<T>,
) -> bool {
    call_ensures(futures::sync::oneshot::channel::<T>, (), (sender, receiver))
}

/// The two halves came from one call of `futures::sync::mpsc::unbounded`.
pub open spec fn unbounded_halves<T>(
    sender: UnboundedSender<T>,
    receiver: UnboundedReceiver<T>,
) -> bool {
    call_ensures(futures::sync::mpsc::unbounded::<T>, (), (sender, receiver))
}

/// `Clone::clone` of an `UnboundedSender` makes a further handle to the same
/// channel. Nothing is claimed of the handle but that it came from this call, so
/// contracts relate the two with `cloned`. The call gives up only when the
/// number of handles no longer fits in the channel's counter.
pub assume_specification<T>[ <UnboundedSender<T> as Clone>::clone ](
    sender: &UnboundedSender<T>,
) -> (copy: UnboundedSender<T>);

/// `futures::sync::oneshot::Sender::send` completes the channel with a value, or
/// hands that very value back when the receiving half is gone. Whether the other
/// half is gone depends on another task, so neither outcome is promised. The end
/// is used up either way.
pub assume_specification<T>[ oneshot::Sender::<T>::send ](
    sender: oneshot::Sender<T>,
    t: T,
) -> (sent: Result<(), T>)
    ensures
        sent matches Err(back) ==> back == t,
;

/// This end was used up by `oneshot::Sender::send` with this value, which was
/// taken.
pub open spec fn answered<T>(sender: oneshot::Sender<T>, value: T) -> bool {
    exists|sent: Result<(), T>|
        sent is Ok && #[trigger] call_ensures(oneshot::Sender::<T>::send, (sender, value), sent)
}

/// This end was used up by `oneshot::Sender::send` with this value, which was
/// refused.
pub open spec fn unanswered<T>(sender: oneshot::Sender<T>, value: T) -> bool {
    exists|sent: Result<(), T>|
        sent is Err && #[trigger] call_ensures(oneshot::Sender::<T>::send, (sender, value), sent)
}

/// The sending half of a channel that carries any number of values, with a record
/// of all that was put to it.
///
/// There is no way to the half but through this type, and two outlets are the same
/// only where their records are: a contract by which an outlet is as it was says
/// that nothing was sent, refused or shared in between.
#[verifier::reject_recursive_types(T)]
pub struct Outlet<T> {
    sender: UnboundedSender<T>,
    sent: Ghost<Seq<T>>,
    refused: Ghost<Seq<T>>,
    shares: Ghost<nat>,
}

impl<T> Outlet<T> {
    /// The sending half.
    pub closed spec fn end(self) -> UnboundedSender<T> {
        self.sender
    }

    /// All values that were taken, in the order in which they were sent.
    pub closed spec fn sent(self) -> Seq<T> {
        self.sent@
    }

    /// All values that were refused because the receiving half was gone.
    pub closed spec fn refused(self) -> Seq<T> {
        self.refused@
    }

    /// How many further outlets were made of this one.
    pub closed spec fn shares(self) -> nat {
        self.shares@
    }

    /// Nothing was done with the outlet yet.
    pub open spec fn fresh(self) -> bool {
        &&& self.sent() == Seq::<T>::empty()
        &&& self.refused() == Seq::<T>::empty()
        &&& self.shares() == 0
    }

    /// The outlet after one more value, which was taken or refused.
    pub closed spec fn after(self, value: T, taken: bool) -> Self {
        if taken {
            Outlet { sent: Ghost(self.sent@.push(value)), ..self }
        } else {
            Outlet { refused: Ghost(self.refused@.push(value)), ..self }
        }
    }

    /// The outlet after one more outlet was made of it.
    pub closed spec fn shared(self) -> Self {
        Outlet { shares: Ghost(self.shares@ + 1), ..self }
    }

    /// `futures::sync::mpsc::UnboundedSender::unbounded_send` enqueues a value, or
    /// hands that very value back (through `SendError::into_inner`) when the
    /// receiving half is gone. Whether the other half is gone depends on another
    /// task, so neither outcome is promised. The record grows by this one value and
    /// nothing else about the outlet changes. The call gives up only when the
    /// number of waiting values no longer fits in the channel's counter.
    #[verifier::external_body]
    pub(crate) fn post(&mut self, value: T) -> (posted: Result<(), T>)
        ensures
            *final(self) == old(self).after(value, posted is Ok),
            posted matches Err(back) ==> back == value,
    {
        self.sender.unbounded_send(value).map_err(|refused| refused.into_inner())
    }

    /// Makes a further outlet of the same channel, with a record of its own.
    pub fn share(&mut self) -> (further: Self)
        ensures
            *final(self) == old(self).shared(),
            further.fresh(),
            cloned(old(self).end(), further.end()),
    {
        let sender = self.sender.clone();
        self.shares = Ghost(self.shares@ + 1);
        Outlet {
            sender,
            sent: Ghost(Seq::empty()),
            refused: Ghost(Seq::empty()),
            shares: Ghost(0),
        }
    }
}

/// What one more value changes about an outlet: only the record, and that by the
/// value at its end.
pub broadcast proof fn law_after<T>(outlet: Outlet<T>, value: T, taken: bool)
    ensures
        (#[trigger] outlet.after(value, taken)).end() == outlet.end(),
        outlet.after(value, taken).shares() == outlet.shares(),
        outlet.after(value, taken).sent() == if taken {
            outlet.sent().push(value)
        } else {
            outlet.sent()
        },
        outlet.after(value, taken).refused() == if taken {
            outlet.refused()
        } else {
            outlet.refused().push(value)
        },
{
}

/// What a further outlet changes about an outlet: only the count of those.
pub broadcast proof fn law_shared<T>(outlet: Outlet<T>)
    ensures
        (#[trigger] outlet.shared()).end() == outlet.end(),
        outlet.shared().sent() == outlet.sent(),
        outlet.shared().refused() == outlet.refused(),
        outlet.shared().shares() == outlet.shares() + 1,
{
}

/// Makes a channel that carries any number of values.
pub fn unbounded<T>() -> (ends: (Outlet<T>, UnboundedReceiver<T>))
    ensures
        ends.0.fresh(),
        unbounded_halves(ends.0.end(), ends.1),
{
    let (sender, receiver) = futures::sync::mpsc::unbounded();
    let outlet = Outlet {
        sender,
        sent: Ghost(Seq::empty()),
        refused: Ghost(Seq::empty()),
        shares: Ghost(0),
    };
    (outlet, receiver)
}

/// `Sink::close` of an `UnboundedSender` is always ready at once. The outlet is
/// dropped with the call; the receiver sees the end of the stream once the last
/// outlet of the channel is gone.
#[verifier::external_body]
fn close_sender<T>(outlet: Outlet<T>) -> (closed: Result<Async<()>, T>)
    ensures
        closed is Ok,
        closed->Ok_0 is Ready,
{
    let mut sender = outlet.sender;
    match sender.close() {
        Ok(futures::Async::Ready(())) => Ok(Async::Ready(())),
        Ok(futures::Async::NotReady) => Ok(Async::NotReady),
        Err(refused) => Err(refused.into_inner()),
    }
}

/// This outlet, with this record, was used up by `Sink::close`.
pub closed spec fn closed_down<T>(outlet: Outlet<T>) -> bool {
    exists|closed: Result<Async<()>, T>| call_ensures(close_sender::<T>, (outlet,), closed)
}

/// Closes and drops an outlet.
pub(crate) fn close<T>(outlet: Outlet<T>)
    ensures
        closed_down(outlet),
{
    let _closed = close_sender(outlet);
}

/// Drops a value as it is.
fn let_go<T>(_value: T) {
}

/// This value was dropped as it is. Of something that holds a channel end this
/// says that nothing more was sent over it.
pub closed spec fn dropped<T>(value: T) -> bool {
    exists|gone: ()| call_ensures(let_go::<T>, (value,), gone)
}

/// Drops a value as it is.
pub(crate) fn discard<T>(value: T)
    ensures
        dropped(value),
{
    let_go(value);
}

/// An end that is said to be used up by a value was handed that very value, and the
/// outcome is the one that is said.
pub proof fn law_an_end_is_used_up_once<T>(sender: oneshot::Sender<T>, value: T)
    ensures
        answered(sender, value) ==> exists|sent: Result<(), T>|
            sent is Ok && #[trigger] call_ensures(
                oneshot::Sender::<T>::send,
                (sender, value),
                sent,
            ),
        unanswered(sender, value) ==> exists|sent: Result<(), T>|
            sent is Err && #[trigger] call_ensures(
                oneshot::Sender::<T>::send,
                (sender, value),
                sent,
            ),
{
}

/// Two halves that are said to belong together came from one call.
pub proof fn law_halves_come_from_one_call<T>(
    one: (oneshot::Sender<T>, oneshot::Receiver<T>),
    many: (UnboundedSender<T>, UnboundedReceiver<T>),
)
    ensures
        oneshot_halves(one.0, one.1) ==> call_ensures(
            futures::sync::oneshot::channel::<T>,
            (),
            one,
        ),
        unbounded_halves(many.0, many.1) ==> call_ensures(
            futures::sync::mpsc::unbounded::<T>,
            (),
            many,
        ),
{
}

/// What is said to be closed or dropped was, with the record that it had by then.
proof fn law_nothing_follows_the_end<T>(outlet: Outlet<T>)
    ensures
        closed_down(outlet) ==> exists|closed: Result<Async<()>, T>|
            call_ensures(close_sender::<T>, (outlet,), closed),
        dropped(outlet) ==> exists|gone: ()| call_ensures(let_go::<Outlet<T>>, (outlet,), gone),
{
}

/// A new channel has seen nothing, and its two halves belong together.
pub proof fn law_new_channels_are_empty<T>(ends: (Outlet<T>, UnboundedReceiver<T>))
    requires
        call_ensures(unbounded::<T>, (), ends),
    ensures
        ends.0.sent().len() == 0,
        ends.0.refused().len() == 0,
        ends.0.shares() == 0,
        call_ensures(futures::sync::mpsc::unbounded::<T>, (), (ends.0.end(), ends.1)),
{
}

/// Making a further outlet sends nothing, and the new one has sent nothing.
pub proof fn law_sharing_sends_nothing<T>(outlet: &mut Outlet<T>, further: Outlet<T>)
    requires
        call_ensures(Outlet::<T>::share, (outlet,), further),
    ensures
        final(outlet).end() == old(outlet).end(),
        final(outlet).sent() == old(outlet).sent(),
        final(outlet).refused() == old(outlet).refused(),
        final(outlet).shares() == old(outlet).shares() + 1,
        further.sent().len() == 0,
        further.refused().len() == 0,
        further.shares() == 0,
        cloned(old(outlet).end(), further.end()),
{
    broadcast use law_shared;

}

} // verus!
