//! The inbox of an actor: a bounded channel with many senders and one
//! receiver, provided by `heph_inbox`.

use crate::actor::context::{Poll, RecvError};
use std::future::Future;
use crate::error::{SendError, SendErrorReason};
use vstd::prelude::*;

verus! {

/// The receiving side of an inbox.
#[verifier::external_type_specification]
#[verifier::external_body]
#[verifier::reject_recursive_types(M)]
pub struct ExReceiver<M>(heph_inbox::Receiver<M>);

/// The sending side of an inbox.
#[verifier::external_type_specification]
#[verifier::external_body]
#[verifier::reject_recursive_types(M)]
pub struct ExSender<M>(heph_inbox::Sender<M>);

/// A handle that wakes a task.
#[verifier::external_type_specification]
#[verifier::external_body]
pub struct ExTaskWaker(std::task::Waker);

/// The smallest capacity an inbox can have.
pub const MIN_CAPACITY: usize = 1;

/// The largest capacity an inbox can have.
pub const MAX_CAPACITY: usize = 29;

/// Calls `heph_inbox::new`, which makes a channel of the given capacity
/// and panics on a capacity outside the range it accepts.
#[verifier::external_body]
pub(crate) fn channel<M>(capacity: usize) -> (r: (heph_inbox::Sender<M>, heph_inbox::Receiver<M>))
    requires
        MIN_CAPACITY <= capacity <= MAX_CAPACITY,
{
    heph_inbox::new(capacity)
}

/// Calls `heph_inbox::Sender::try_send`. The channel is shared with other
/// threads, so whether there is room is not known beforehand; when the
/// message is refused it comes back unchanged, with the reason.
#[verifier::external_body]
pub(crate) fn try_send<M>(sender: &heph_inbox::Sender<M>, message: M) -> (r: Result<
    (),
    SendError<M>,
>)
    ensures
        r matches Err(e) ==> e.message == message && (e.reason == SendErrorReason::Full || e.reason
            == SendErrorReason::ActorShutdown),
{
    match sender.try_send(message) {
        Ok(()) => Ok(()),
        Err(heph_inbox::SendError::Full(message)) => Err(
            SendError { message, reason: SendErrorReason::Full },
        ),
        Err(heph_inbox::SendError::Disconnected(message)) => Err(
            SendError { message, reason: SendErrorReason::ActorShutdown },
        ),
    }
}

/// Calls `heph_inbox::Receiver::try_recv`, and tells its two errors apart.
/// What it returns depends on what other threads have sent, so nothing is
/// promised of it.
#[verifier::external_body]
pub(crate) fn try_recv<M>(receiver: &mut heph_inbox::Receiver<M>) -> (r: Result<M, RecvError>) {
    match receiver.try_recv() {
        Ok(message) => Ok(message),
        Err(heph_inbox::RecvError::Empty) => Err(RecvError::Empty),
        Err(heph_inbox::RecvError::Disconnected) => Err(RecvError::Disconnected),
    }
}

/// Polls the future of `heph_inbox::Receiver::recv` once, with `waker` for
/// the waker of the task. What it returns depends on what other threads
/// have sent, so nothing is promised of it.
#[verifier::external_body]
pub(crate) fn poll_recv<M>(receiver: &mut heph_inbox::Receiver<M>, waker: &std::task::Waker) -> (r:
    Poll<Option<M>>) {
    let mut ctx = std::task::Context::from_waker(waker);
    match std::pin::Pin::new(&mut receiver.recv()).poll(&mut ctx) {
        std::task::Poll::Ready(received) => Poll::Ready(received),
        std::task::Poll::Pending => Poll::Pending,
    }
}

/// Calls `heph_inbox::Receiver::new_sender`, which makes one more sender
/// for the receiver's channel.
#[verifier::external_body]
pub(crate) fn new_sender<M>(receiver: &heph_inbox::Receiver<M>) -> (r: heph_inbox::Sender<M>) {
    receiver.new_sender()
}

/// Calls `heph_inbox::Receiver::register_waker`, which sets the waker
/// that a send into the empty channel wakes and tells whether it changed.
#[verifier::external_body]
pub(crate) fn register_waker<M>(
    receiver: &mut heph_inbox::Receiver<M>,
    waker: &std::task::Waker,
) -> (r: bool) {
    receiver.register_waker(waker)
}

/// Calls `Clone::clone` of `heph_inbox::Sender`, which makes one more
/// sender for the same channel.
#[verifier::external_body]
pub(crate) fn clone_sender<M>(sender: &heph_inbox::Sender<M>) -> (r: heph_inbox::Sender<M>) {
    sender.clone()
}

/// Calls `heph_inbox::Sender::is_connected`, which tells whether the
/// receiving side was still alive when asked.
#[verifier::external_body]
pub(crate) fn is_connected<M>(sender: &heph_inbox::Sender<M>) -> (r: bool) {
    sender.is_connected()
}

} // verus!
