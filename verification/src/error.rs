//! Errors of the runtime and of sending.

use vstd::prelude::*;

verus! {

/// The reason why sending a message failed.
#[derive(Copy, Clone, Debug, PartialEq, Eq, Structural)]
#[non_exhaustive]
pub enum SendErrorReason {
    /// The inbox of the actor has no room for the message now.
    Full,
    /// The actor, to which the message was meant to be sent, is shutdown.
    ActorShutdown,
    /// The system is shutting down.
    SystemShutdown,
}

/// Error when sending messages goes wrong. It hands the message back.
#[derive(Copy, Clone, Debug, PartialEq, Eq)]
pub struct SendError<M> {
    /// The message that failed to send.
    pub message: M,
    /// The reason why the sending failed.
    pub reason: SendErrorReason,
}

/// An error of input or output, as the operating system reports it.
#[verifier::external_type_specification]
#[verifier::external_body]
pub struct ExIoError(std::io::Error);

/// Calls `ToString::to_string` of `std::io::Error`, which gives the text
/// that the error displays.
#[verifier::external_body]
pub(crate) fn io_error_text(error: &std::io::Error) -> (r: String) {
    error.to_string()
}

/// Calls `std::io::Error::new`, which makes an error of the kind `Other`
/// that displays `text`.
#[verifier::external_body]
pub(crate) fn io_error_other(text: &str) -> (r: std::io::Error) {
    std::io::Error::new(std::io::ErrorKind::Other, text)
}

/// The text for a system that is shutting down.
pub open spec fn system_shutdown_text() -> Seq<char> {
    "actor system shutdown"@
}

/// The text of a reason why sending failed.
pub open spec fn send_reason_text(reason: SendErrorReason) -> Seq<char> {
    match reason {
        SendErrorReason::Full => "inbox full"@,
        SendErrorReason::ActorShutdown => "actor shutdown"@,
        SendErrorReason::SystemShutdown => system_shutdown_text(),
    }
}

impl SendErrorReason {
    /// The text of the reason.
    pub fn to_string(&self) -> (r: String)
        ensures
            r@ == send_reason_text(*self),
    {
        match self {
            SendErrorReason::Full => String::from_str("inbox full"),
            SendErrorReason::ActorShutdown => String::from_str("actor shutdown"),
            SendErrorReason::SystemShutdown => String::from_str("actor system shutdown"),
        }
    }
}

impl<M> SendError<M> {
    /// Description for the error.
    pub fn description(&self) -> (r: &'static str)
        ensures
            r@ == "unable to send message"@,
    {
        "unable to send message"
    }

    /// The text of the error: the description and the reason. The message
    /// is not part of it.
    pub fn to_string(&self) -> (r: String)
        ensures
            r@ == "unable to send message: "@ + send_reason_text(self.reason),
    {
        let mut text = String::from_str("unable to send message: ");
        let reason = self.reason.to_string();
        text.append(reason.as_str());
        text
    }
}

/// The reason why adding an actor failed.
#[derive(Copy, Clone, Debug, PartialEq, Eq, Structural)]
#[non_exhaustive]
pub enum AddActorErrorReason {
    /// The system is shutting down.
    SystemShutdown,
}

impl AddActorErrorReason {
    /// The text of the reason.
    pub fn to_string(&self) -> (r: String)
        ensures
            r@ == system_shutdown_text(),
    {
        String::from_str("actor system shutdown")
    }
}

/// Error when adding actors to the system. It hands the actor back.
#[derive(Debug)]
pub struct AddActorError<A> {
    /// The actor that failed to be added to the system.
    pub actor: A,
    /// The reason why the adding failed.
    pub reason: AddActorErrorReason,
}

impl<A> AddActorError<A> {
    /// Create a new `AddActorError`.
    pub fn new(actor: A, reason: AddActorErrorReason) -> (r: AddActorError<A>)
        ensures
            r.actor == actor,
            r.reason == reason,
    {
        AddActorError { actor, reason }
    }

    /// Description for the error.
    pub fn description(&self) -> (r: &'static str)
        ensures
            r@ == "unable to add actor"@,
    {
        "unable to add actor"
    }

    /// The error of input or output that stands for this error: one that
    /// displays the reason.
    pub fn into_io_error(self) -> (r: std::io::Error) {
        let reason = self.reason.to_string();
        io_error_other(reason.as_str())
    }

    /// The text of the error: the description and the reason. The actor is
    /// not part of it.
    pub fn to_string(&self) -> (r: String)
        ensures
            r@ == "unable to add actor: "@ + system_shutdown_text(),
    {
        let mut text = String::from_str("unable to add actor: ");
        let reason = self.reason.to_string();
        text.append(reason.as_str());
        text
    }
}

/// The reason why adding an initiator failed.
#[derive(Debug)]
#[non_exhaustive]
pub enum AddInitiatorErrorReason {
    /// The initialisation of the initiator failed.
    InitFailed(std::io::Error),
}

impl AddInitiatorErrorReason {
    /// The text of the reason: that of the error inside.
    pub fn to_string(&self) -> (r: String) {
        match self {
            AddInitiatorErrorReason::InitFailed(error) => io_error_text(error),
        }
    }
}

/// Error when adding initiators to the system. It hands the initiator
/// back.
#[derive(Debug)]
pub struct AddInitiatorError<I> {
    /// The initiator that failed to be added to the system.
    pub initiator: I,
    /// The reason why the adding failed.
    pub reason: AddInitiatorErrorReason,
}

/// The description `what`, a colon, and the text `why` of the reason.
pub fn describe(what: &str, why: &str) -> (r: String)
    ensures
        r@ == what@ + ": "@ + why@,
{
    let mut text = String::from_str(what);
    text.append(": ");
    text.append(why);
    text
}

impl<I> AddInitiatorError<I> {
    /// Description for the error.
    pub fn description(&self) -> (r: &'static str)
        ensures
            r@ == "unable to add initiator"@,
    {
        "unable to add initiator"
    }

    /// The text of the error: the description and the reason. The
    /// initiator is not part of it.
    pub fn to_string(&self) -> (r: String)
        ensures
            r@.len() >= "unable to add initiator: "@.len(),
            r@.subrange(0, "unable to add initiator: "@.len() as int) == "unable to add initiator: "@,
    {
        let reason = self.reason.to_string();
        let text = describe("unable to add initiator", reason.as_str());
        proof {
            reveal_strlit("unable to add initiator");
            reveal_strlit(": ");
            reveal_strlit("unable to add initiator: ");
            assert(text@.subrange(0, 25) =~= "unable to add initiator: "@);
        }
        text
    }

    /// The error that caused this one.
    pub fn cause(&self) -> (r: Option<&std::io::Error>)
        ensures
            r matches Some(e) && self.reason == AddInitiatorErrorReason::InitFailed(*e),
    {
        match &self.reason {
            AddInitiatorErrorReason::InitFailed(error) => Some(error),
        }
    }

    /// The error of input or output behind this error.
    pub fn into_io_error(self) -> (r: std::io::Error)
        ensures
            self.reason == AddInitiatorErrorReason::InitFailed(r),
    {
        match self.reason {
            AddInitiatorErrorReason::InitFailed(error) => error,
        }
    }
}

/// Error returned by running a worker.
#[derive(Debug)]
#[non_exhaustive]
pub enum RuntimeError {
    /// Error polling system poller.
    Poll(std::io::Error),
}

impl RuntimeError {
    /// Description for the error.
    pub fn description(&self) -> (r: &'static str)
        ensures
            r@ == "error running actor system"@,
    {
        "error running actor system"
    }

    /// The text of the error: the description and the error behind it.
    pub fn to_string(&self) -> (r: String)
        ensures
            r@.len() >= "error running actor system: "@.len(),
            r@.subrange(0, "error running actor system: "@.len() as int)
                == "error running actor system: "@,
    {
        let cause = match self {
            RuntimeError::Poll(error) => io_error_text(error),
        };
        let text = describe("error running actor system", cause.as_str());
        proof {
            reveal_strlit("error running actor system");
            reveal_strlit(": ");
            reveal_strlit("error running actor system: ");
            assert(text@.subrange(0, 28) =~= "error running actor system: "@);
        }
        text
    }

    /// The error that caused this one.
    pub fn cause(&self) -> (r: Option<&std::io::Error>)
        ensures
            r matches Some(e) && *self == RuntimeError::Poll(*e),
    {
        match self {
            RuntimeError::Poll(error) => Some(error),
        }
    }

    /// What a poll of the readiness poller comes to for the worker: its
    /// error is fatal.
    pub fn from_poll(polled: Result<(), std::io::Error>) -> (r: Result<(), RuntimeError>)
        ensures
            polled.is_ok() <==> r.is_ok(),
            polled matches Err(e) ==> r == Err::<(), RuntimeError>(RuntimeError::Poll(e)),
    {
        match polled {
            Ok(()) => Ok(()),
            Err(error) => Err(RuntimeError::Poll(error)),
        }
    }
}

} // verus!
