//! Wakers: handles that tell a worker, from any thread, that a process has
//! something to do. The notifications travel over a channel of
//! `crossbeam_channel`.

use crate::pid::ProcessId;
use vstd::prelude::*;

verus! {

/// The sending side of a channel.
#[verifier::external_type_specification]
#[verifier::external_body]
#[verifier::reject_recursive_types(T)]
pub struct ExChannelSender<T>(crossbeam_channel::Sender<T>);

/// The receiving side of a channel.
#[verifier::external_type_specification]
#[verifier::external_body]
#[verifier::reject_recursive_types(T)]
pub struct ExChannelReceiver<T>(crossbeam_channel::Receiver<T>);

/// Calls `crossbeam_channel::unbounded`, which makes a channel without a
/// limit on what it holds.
#[verifier::external_body]
pub(crate) fn notification_channel() -> (r: (
    crossbeam_channel::Sender<usize>,
    crossbeam_channel::Receiver<usize>,
)) {
    crossbeam_channel::unbounded()
}

/// Calls `crossbeam_channel::Sender::try_send`, which never waits, and
/// tells whether the value was taken.
#[verifier::external_body]
pub(crate) fn notify(sender: &crossbeam_channel::Sender<usize>, value: usize) -> (r: bool) {
    match sender.try_send(value) {
        Ok(()) => true,
        Err(_) => false,
    }
}

/// Calls `crossbeam_channel::Receiver::try_recv`, which never waits. Other
/// threads send into the channel, so what is there is not known
/// beforehand.
#[verifier::external_body]
pub(crate) fn next_notification(receiver: &crossbeam_channel::Receiver<usize>) -> (r: Option<
    usize,
>) {
    match receiver.try_recv() {
        Ok(value) => Some(value),
        Err(_) => None,
    }
}

/// Calls `crossbeam_channel::Receiver::len`, which gives the number of
/// values that were in the channel when asked.
#[verifier::external_body]
pub(crate) fn pending_notifications(receiver: &crossbeam_channel::Receiver<usize>) -> (r: usize) {
    receiver.len()
}

/// Calls `Clone::clone` of `crossbeam_channel::Sender`, which makes one
/// more sender for the same channel.
#[verifier::external_body]
pub(crate) fn clone_notifier(sender: &crossbeam_channel::Sender<usize>) -> (r:
    crossbeam_channel::Sender<usize>) {
    sender.clone()
}

/// A handle that wakes one process: it holds the identifier of the
/// process and the way to its worker, never the process itself.
pub struct Waker {
    pid: ProcessId,
    notifications: crossbeam_channel::Sender<usize>,
}

/// A waker for `pid` that notifies through `notifications`.
pub fn new_waker(pid: ProcessId, notifications: crossbeam_channel::Sender<usize>) -> (r: Waker)
    ensures
        r.spec_pid() == pid,
{
    Waker { pid, notifications }
}

impl Waker {
    /// The process that this waker wakes.
    pub closed spec fn spec_pid(&self) -> ProcessId {
        self.pid
    }

    /// The process that this waker wakes.
    pub fn pid(&self) -> (r: ProcessId)
        ensures
            r == self.spec_pid(),
    {
        self.pid
    }

    /// Tells the worker that the process has something to do. It never
    /// waits; it tells whether the worker could still be told.
    pub fn wake(&self) -> (r: bool) {
        notify(&self.notifications, self.pid.0)
    }
}

impl Clone for Waker {
    fn clone(&self) -> (r: Self)
        ensures
            r.spec_pid() == self.spec_pid(),
    {
        Waker { pid: self.pid, notifications: clone_notifier(&self.notifications) }
    }
}

} // verus!
