//! Actors and the factories that make them.

pub mod context;

use crate::actor::context::Context;
use crate::process::StepOutcome;
use crate::system_ref::ActorSystemRef;
use vstd::prelude::*;

verus! {

/// The error of what cannot fail: it has no value.
pub type Never = core::convert::Infallible;

/// An actor: a computation with an inbox that runs one slice at a time and
/// suspends when it can make no progress.
pub trait Actor {
    /// The type of the messages the actor receives.
    type Message;

    /// The error with which the actor can fail.
    type Error;

    /// Runs one slice, until the actor suspends, returns or fails.
    fn step(&mut self, ctx: &mut Context<Self::Message, ActorSystemRef>) -> (r: StepOutcome<
        Self::Error,
    >);

    /// Called before the actor is started.
    fn pre_start(&mut self) {
    }

    /// Called after the actor is stopped.
    fn post_stop(&mut self) {
    }

    /// Called before the actor is restarted: by default what is done after
    /// stopping.
    fn pre_restart(&mut self) {
        self.post_stop();
    }

    /// Called after the actor is restarted: by default what is done before
    /// starting.
    fn post_restart(&mut self) {
        self.pre_start();
    }
}

/// The factory of an actor: it makes the actor when it is spawned and again
/// each time it is restarted.
pub trait NewActor {
    /// The type of the messages the actor receives.
    type Message;

    /// The argument from which an actor is made.
    type Argument;

    /// The error with which making an actor can fail.
    type Error;

    /// The type of the actor.
    type Actor: Actor<Message = Self::Message>;

    /// Makes an actor from `arg`.
    fn new(&mut self, arg: Self::Argument) -> (r: Result<Self::Actor, Self::Error>);

    /// Puts a new actor in the place of `old_actor`: by default one made
    /// from `arg`, and none if making it fails.
    fn reuse(&mut self, old_actor: &mut Self::Actor, arg: Self::Argument) -> (r: Result<
        (),
        Self::Error,
    >) {
        match self.new(arg) {
            Ok(actor) => {
                *old_actor = actor;
                Ok(())
            },
            Err(err) => Err(err),
        }
    }
}

/// A synchronous actor: it runs to its end on a thread of its own.
pub trait SyncActor {
    /// The type of the messages the actor receives.
    type Message;

    /// The argument with which the actor is started.
    type Argument;

    /// The error with which the actor can fail.
    type Error;

    /// Runs the actor to its end.
    fn run(&mut self, arg: Self::Argument) -> (r: Result<(), Self::Error>);
}

} // verus!
