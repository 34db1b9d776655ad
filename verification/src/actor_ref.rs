//! References to actors: the sending side of their inboxes.

use crate::error::{SendError, SendErrorReason};
use crate::inbox;
use vstd::prelude::*;

verus! {

/// A reference to an actor, through which messages are sent to it. It may
/// outlive the actor; sending then fails.
#[verifier::reject_recursive_types(M)]
pub struct ActorRef<M> {
    sender: heph_inbox::Sender<M>,
}

/// The capacity of the inbox that is made when `asked` is asked for: the
/// nearest one that an inbox can have.
pub open spec fn inbox_capacity(asked: usize) -> usize {
    if asked < inbox::MIN_CAPACITY {
        inbox::MIN_CAPACITY
    } else if asked > inbox::MAX_CAPACITY {
        inbox::MAX_CAPACITY
    } else {
        asked
    }
}

/// The capacity of the inbox that is made when `asked` is asked for.
pub fn clamp_capacity(asked: usize) -> (r: usize)
    ensures
        r == inbox_capacity(asked),
        inbox::MIN_CAPACITY <= r <= inbox::MAX_CAPACITY,
{
    if asked < inbox::MIN_CAPACITY {
        inbox::MIN_CAPACITY
    } else if asked > inbox::MAX_CAPACITY {
        inbox::MAX_CAPACITY
    } else {
        asked
    }
}

/// Makes an inbox that holds `capacity` messages, or as near to it as an
/// inbox can, and gives the reference that sends into it and its
/// receiving side.
pub fn new_inbox<M>(capacity: usize) -> (r: (ActorRef<M>, heph_inbox::Receiver<M>)) {
    let (sender, receiver) = inbox::channel(clamp_capacity(capacity));
    (ActorRef::local(sender), receiver)
}

impl<M> ActorRef<M> {
    /// The sending side of the inbox that this reference sends into.
    pub closed spec fn spec_sender(&self) -> heph_inbox::Sender<M> {
        self.sender
    }

    /// A reference that sends through `sender`.
    pub fn local(sender: heph_inbox::Sender<M>) -> (r: Self)
        ensures
            r.spec_sender() == sender,
    {
        ActorRef { sender }
    }

    /// Sends `message` without waiting. A message that cannot be delivered
    /// is handed back unchanged: with `Full` when the inbox has no room,
    /// with `ActorShutdown` when the actor is gone.
    pub fn try_send(&self, message: M) -> (r: Result<(), SendError<M>>)
        ensures
            r matches Err(e) ==> e.message == message && (e.reason == SendErrorReason::Full
                || e.reason == SendErrorReason::ActorShutdown),
    {
        inbox::try_send(&self.sender, message)
    }

    /// The sending side of the inbox itself, for a send that waits for
    /// room.
    pub fn sender(&self) -> (r: &heph_inbox::Sender<M>)
        ensures
            *r == self.spec_sender(),
    {
        &self.sender
    }

    /// Whether the actor was still there when asked.
    pub fn is_connected(&self) -> (r: bool) {
        inbox::is_connected(&self.sender)
    }
}

impl<M> Clone for ActorRef<M> {
    fn clone(&self) -> (r: Self) {
        ActorRef { sender: inbox::clone_sender(&self.sender) }
    }
}

} // verus!
