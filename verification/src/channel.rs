//! The one-shot channel between the driver's task and its supervisor.
//!
//! The channel is `futures::channel::oneshot`. Its types stay opaque to the
//! proofs, which rest on the claims that the items of this module make.
//!
//! A receiver is a future. Its view, `receiver@`, is the value that it resolves to
//! when it is polled until it is ready. Nobody can know that value beforehand, nor
//! when it comes: the task that holds the sender decides.
use std::future::Future;
use std::pin::Pin;
use std::task::{Context, Poll};

use futures::channel::oneshot;
use vstd::future::FutureAdditionalSpecFns;
use vstd::prelude::*;

verus! {

/// `futures::channel::oneshot::Receiver`, opaque.
#[verifier::external_type_specification]
#[verifier::external_body]
#[verifier::reject_recursive_types(T)]
pub struct ExReceiver<T>(oneshot::Receiver<T>);

/// `futures::channel::oneshot::Sender`, opaque.
#[verifier::external_type_specification]
#[verifier::external_body]
#[verifier::reject_recursive_types(T)]
pub struct ExSender<T>(oneshot::Sender<T>);

/// `futures::channel::oneshot::Canceled`, opaque: what a receiver resolves to
/// instead of a value when its sender went away without sending one.
#[verifier::external_type_specification]
#[verifier::external_body]
pub struct ExCanceled(oneshot::Canceled);

/// `std::task::Context`, opaque: whom to wake when a pending future can go on.
#[verifier::external_type_specification]
#[verifier::external_body]
pub struct ExContext<'a>(std::task::Context<'a>);

/// `sender` and `receiver` can be the two ends that one call of
/// `futures::channel::oneshot::channel` returns. Nothing but such a call lets this be
/// learned of two ends, so whoever knows it has them from one call.
pub open spec fn connected<T>(sender: oneshot::Sender<T>, receiver: oneshot::Receiver<T>) -> bool {
    call_ensures(oneshot::channel::<T>, (), (sender, receiver))
}

/// `futures::channel::oneshot::channel` makes a sender and the receiver that
/// belongs to it. Nothing is claimed of either: what the receiver will resolve to
/// is up to whoever holds the sender.
pub assume_specification<T>[ oneshot::channel::<T> ]() -> (ends: (
    oneshot::Sender<T>,
    oneshot::Receiver<T>,
))
;

/// `futures::channel::oneshot::Sender::send` either takes the value over or, when
/// the receiver is gone, hands that same value back. Once the value was taken over,
/// the receiver that belongs to this sender resolves to it. Which of the two happens
/// depends on the task that holds the receiver and is left open.
pub assume_specification<T>[ oneshot::Sender::<T>::send ](
    sender: oneshot::Sender<T>,
    t: T,
) -> (sent: Result<(), T>)
    ensures
        sent matches Err(back) ==> back == t,
        sent is Ok ==> forall|receiver: oneshot::Receiver<T>| #[trigger]
            call_ensures(oneshot::channel::<T>, (), (sender, receiver)) ==> receiver@ is Ok
                && receiver@->Ok_0 == t,
;

/// Where a future stands after one poll.
#[derive(Debug)]
pub enum Progress<T> {
    /// The future is done, with this output.
    Ready(T),
    /// The future is not done yet.
    Pending,
}

/// Polls `futures::channel::oneshot::Receiver` once.
///
/// If the receiver is ready, it hands out the value that it resolves to. If it is
/// pending, the poll took nothing from it: it still resolves to what it would have
/// resolved to before. Whether it is ready depends on when the sender sends or goes
/// away and is left open, as is a receiver that is polled again after it was ready.
#[verifier::external_body]
pub(crate) fn poll_receiver<T>(receiver: &mut oneshot::Receiver<T>, cx: &mut Context<'_>) -> (progress:
    Progress<Result<T, oneshot::Canceled>>)
    ensures
        progress matches Progress::Ready(received) ==> received == (*old(receiver))@,
        progress is Pending ==> (*final(receiver))@ == (*old(receiver))@,
{
    match Pin::new(receiver).poll(cx) {
        Poll::Ready(received) => Progress::Ready(received),
        Poll::Pending => Progress::Pending,
    }
}

/// `progress` can be what `receiver` answers when it is polled for `context`. Nothing
/// but such a poll lets this be learned, so whoever knows it has polled.
pub closed spec fn polled<T>(
    receiver: oneshot::Receiver<T>,
    context: Context<'_>,
    progress: Progress<Result<T, oneshot::Canceled>>,
) -> bool {
    exists|polled: &mut oneshot::Receiver<T>, cx: &mut Context<'_>|
        {
            &&& *polled == receiver
            &&& *cx == context
            &&& #[trigger] call_ensures(poll_receiver::<T>, (polled, cx), progress)
        }
}

/// [`polled`] comes from a poll of that receiver, for that context, with that answer.
pub(crate) proof fn polled_is_a_poll<T>(
    receiver: oneshot::Receiver<T>,
    context: Context<'_>,
    progress: Progress<Result<T, oneshot::Canceled>>,
)
    requires
        polled(receiver, context, progress),
    ensures
        exists|polled: &mut oneshot::Receiver<T>, cx: &mut Context<'_>|
            {
                &&& *polled == receiver
                &&& *cx == context
                &&& #[trigger] call_ensures(poll_receiver::<T>, (polled, cx), progress)
            },
{
}

/// Polls `receiver` for `cx`.
pub(crate) fn poll<T>(receiver: &mut oneshot::Receiver<T>, cx: &mut Context<'_>) -> (progress: Progress<
    Result<T, oneshot::Canceled>,
>)
    ensures
        polled(*old(receiver), *old(cx), progress),
        progress matches Progress::Ready(received) ==> received == (*old(receiver))@,
        progress is Pending ==> (*final(receiver))@ == (*old(receiver))@,
{
    poll_receiver(receiver, cx)
}

} // verus!
