use vstd::prelude::*;

verus! {

#[verifier::external_type_specification]
#[verifier::external_body]
#[verifier::reject_recursive_types(T)]
pub struct ExUnboundedSender<T>(tokio::sync::mpsc::UnboundedSender<T>);

#[verifier::external_type_specification]
#[verifier::external_body]
#[verifier::reject_recursive_types(T)]
pub struct ExUnboundedReceiver<T>(tokio::sync::mpsc::UnboundedReceiver<T>);

#[verifier::external_type_specification]
#[verifier::external_body]
#[verifier::reject_recursive_types(T)]
pub struct ExOneshotSender<T>(tokio::sync::oneshot::Sender<T>);

#[verifier::external_type_specification]
#[verifier::external_body]
#[verifier::reject_recursive_types(T)]
pub struct ExOneshotReceiver<T>(tokio::sync::oneshot::Receiver<T>);

#[verifier::external_type_specification]
#[verifier::external_body]
pub struct ExOneshotRecvError(tokio::sync::oneshot::error::RecvError);

/// What one non-blocking poll of the mailbox queue produced.
pub enum TryNext<T> {
    /// A queued item, handed over in arrival order.
    Item(T),
    /// Nothing queued right now, but producers still exist.
    Empty,
    /// No producers are left and the queue is drained.
    Closed,
}

/// Relies on tokio::sync::mpsc::unbounded_channel: returns a connected
/// producer/consumer pair for a fresh, empty queue.
#[verifier::external_body]
pub(crate) fn new_unbounded<T>() -> (
    tokio::sync::mpsc::UnboundedSender<T>,
    tokio::sync::mpsc::UnboundedReceiver<T>,
) {
    tokio::sync::mpsc::unbounded_channel()
}

/// Relies on tokio::sync::oneshot::channel: returns a connected single-use
/// slot/waiter pair.
#[verifier::external_body]
pub(crate) fn new_oneshot<T>() -> (
    tokio::sync::oneshot::Sender<T>,
    tokio::sync::oneshot::Receiver<T>,
) {
    tokio::sync::oneshot::channel()
}

/// Relies on tokio::sync::mpsc::UnboundedSender::send: enqueues the value,
/// or hands it back unchanged when the consumer half has been dropped.
#[verifier::external_body]
pub(crate) fn unbounded_send<T>(
    sender: &tokio::sync::mpsc::UnboundedSender<T>,
    value: T,
) -> (r: Result<(), T>)
    ensures
        r matches Err(v) ==> v == value,
{
    match sender.send(value) {
        Ok(()) => Ok(()),
        Err(e) => Err(e.0),
    }
}

/// Relies on tokio::sync::mpsc::UnboundedReceiver::try_recv: yields a queued
/// item without waiting, or says why none was yielded. Which item arrives is
/// up to the producers, so nothing more is promised.
#[verifier::external_body]
pub(crate) fn try_next<T>(
    receiver: &mut tokio::sync::mpsc::UnboundedReceiver<T>,
) -> (r: TryNext<T>) {
    match receiver.try_recv() {
        Ok(v) => TryNext::Item(v),
        Err(tokio::sync::mpsc::error::TryRecvError::Empty) => TryNext::Empty,
        Err(tokio::sync::mpsc::error::TryRecvError::Disconnected) => TryNext::Closed,
    }
}

/// Relies on tokio::sync::oneshot::Sender::send: delivers the value to the
/// paired waiter, or silently drops it when the waiter has abandoned
/// interest. Whether the waiter is still there is up to the producer, so
/// nothing more is promised.
#[verifier::external_body]
pub(crate) fn oneshot_deliver<T>(
    slot: tokio::sync::oneshot::Sender<T>,
    value: T,
) -> (delivered: bool) {
    slot.send(value).is_ok()
}

} // verus!
