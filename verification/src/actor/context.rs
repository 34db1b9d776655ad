//! The context in which an actor runs.

use crate::actor_ref::ActorRef;
use crate::inbox;
use vstd::prelude::*;

verus! {

/// Error returned in case receiving a value from an actor's inbox fails.
#[derive(Copy, Clone, Debug, PartialEq, Eq, Structural)]
pub enum RecvError {
    /// Inbox is empty.
    Empty,
    /// All actor references are disconnected and the inbox is empty.
    Disconnected,
}

/// Returned when an actor's inbox has no messages and no references to the
/// actor exists.
#[derive(Copy, Clone, Debug, PartialEq, Eq, Structural)]
pub struct NoMessages;

/// Whether something awaited is there.
#[derive(Copy, Clone, Debug, PartialEq, Eq)]
pub enum Poll<T> {
    /// It is there.
    Ready(T),
    /// It is not there yet: suspend and try again after a wake.
    Pending,
}

/// What receiving the next message comes to, given one attempt on the
/// inbox.
pub open spec fn received<M>(attempt: Result<M, RecvError>) -> Poll<Result<M, NoMessages>> {
    match attempt {
        Ok(message) => Poll::Ready(Ok(message)),
        Err(RecvError::Empty) => Poll::Pending,
        Err(RecvError::Disconnected) => Poll::Ready(Err(NoMessages)),
    }
}

impl NoMessages {
    /// The text of the error.
    pub fn to_string(&self) -> (r: String)
        ensures
            r@ == "no messages in inbox"@,
    {
        String::from_str("no messages in inbox")
    }
}

/// The receiving of a single message: what one attempt on the inbox gave,
/// turned into the answer for the actor that waits.
#[derive(Debug)]
#[must_use]
pub struct ReceiveMessage<M> {
    pub attempt: Result<M, RecvError>,
}

impl<M> ReceiveMessage<M> {
    /// The message if one was there, the end if no reference is left and
    /// the inbox is empty, and otherwise the wish to wait.
    pub fn poll(self) -> (r: Poll<Result<M, NoMessages>>)
        ensures
            r == received(self.attempt),
    {
        match self.attempt {
            Ok(message) => Poll::Ready(Ok(message)),
            Err(RecvError::Empty) => Poll::Pending,
            Err(RecvError::Disconnected) => Poll::Ready(Err(NoMessages)),
        }
    }
}

/// The context in which an actor is executed: its inbox, its access to
/// the runtime, and the waker that a message into the empty inbox calls.
#[verifier::reject_recursive_types(M)]
pub struct Context<M, RT> {
    pub inbox: heph_inbox::Receiver<M>,
    pub rt: RT,
    pub waker: Option<std::task::Waker>,
}

impl<M, RT> Context<M, RT> {
    /// A context of the given inbox and runtime access, without a waker.
    pub fn new(inbox: heph_inbox::Receiver<M>, rt: RT) -> (r: Self)
        ensures
            r.inbox == inbox,
            r.rt == rt,
            r.waker.is_none(),
    {
        Context { inbox, rt, waker: None }
    }

    /// Sets the waker that is called when a message comes into the inbox
    /// after the actor found it empty.
    pub fn set_waker(&mut self, waker: std::task::Waker)
        ensures
            final(self).inbox == old(self).inbox,
            final(self).rt == old(self).rt,
            final(self).waker == Some(waker),
    {
        self.waker = Some(waker);
    }

    /// Attempt to receive the next message, without waiting.
    pub fn try_receive_next(&mut self) -> (r: Result<M, RecvError>)
        ensures
            final(self).rt == old(self).rt,
            final(self).waker == old(self).waker,
    {
        inbox::try_recv(&mut self.inbox)
    }

    /// Receive the next message: an attempt on the inbox, to be polled.
    /// With a waker in the context the inbox is asked as a task that waits
    /// would ask it, so that the next message into the empty inbox calls
    /// the waker; without one it is only tried.
    pub fn receive_next(&mut self) -> (r: ReceiveMessage<M>)
        ensures
            final(self).rt == old(self).rt,
            final(self).waker == old(self).waker,
    {
        let attempt = match &self.waker {
            Some(waker) => Self::attempt_of(inbox::poll_recv(&mut self.inbox, waker)),
            None => inbox::try_recv(&mut self.inbox),
        };
        ReceiveMessage { attempt }
    }

    /// The attempt on the inbox that the answer `polled` of the waiting
    /// receive is: a message, an inbox empty for now while it waits, or an
    /// inbox that no reference can fill any more.
    pub fn attempt_of(polled: Poll<Option<M>>) -> (r: Result<M, RecvError>)
        ensures
            r == match polled {
                Poll::Ready(Some(message)) => Ok::<M, RecvError>(message),
                Poll::Ready(None) => Err::<M, RecvError>(RecvError::Disconnected),
                Poll::Pending => Err::<M, RecvError>(RecvError::Empty),
            },
    {
        match polled {
            Poll::Ready(Some(message)) => Ok(message),
            Poll::Ready(None) => Err(RecvError::Disconnected),
            Poll::Pending => Err(RecvError::Empty),
        }
    }

    /// Exchanges the runtime access of the context with `rt`: the context
    /// gets what `rt` held, and `rt` what the context had.
    pub fn swap_runtime(&mut self, rt: &mut RT)
        ensures
            final(self).rt == *old(rt),
            *final(rt) == old(self).rt,
            final(self).inbox == old(self).inbox,
            final(self).waker == old(self).waker,
    {
        core::mem::swap(&mut self.rt, rt);
    }

    /// Returns a reference to this actor.
    pub fn actor_ref(&self) -> (r: ActorRef<M>) {
        ActorRef::local(inbox::new_sender(&self.inbox))
    }

    /// Get access to the runtime this actor is running in.
    pub fn runtime(&mut self) -> (r: &mut RT)
        ensures
            *r == old(self).rt,
            final(self).rt == *final(r),
            final(self).inbox == old(self).inbox,
            final(self).waker == old(self).waker,
    {
        &mut self.rt
    }

    /// Read access to the runtime this actor is running in.
    pub fn runtime_ref(&self) -> (r: &RT)
        ensures
            *r == self.rt,
    {
        &self.rt
    }

    /// Sets the waker of the inbox to `waker`; tells whether it changed.
    pub fn register_inbox_waker(&mut self, waker: &std::task::Waker) -> (r: bool)
        ensures
            final(self).rt == old(self).rt,
            final(self).waker == old(self).waker,
    {
        inbox::register_waker(&mut self.inbox, waker)
    }
}

} // verus!
