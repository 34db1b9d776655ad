//! Initiators: the sources of outside events from which new actors spring,
//! and the process that runs one.

use crate::actor::Never;
use crate::process::{Process, Recovery, StepOutcome};
use crate::system_ref::ActorSystemRef;
use vstd::prelude::*;

verus! {

/// A source of outside events, polled by its worker.
pub trait Initiator {
    /// The error with which polling can fail.
    type Error;

    /// Handles the events that are there. An error ends the initiator.
    fn poll(&mut self, system_ref: &mut ActorSystemRef) -> (r: Result<(), Self::Error>);
}

/// A process that represents an `Initiator`: it polls the initiator and is
/// complete only once polling returns an error.
pub struct InitiatorProcess<I> {
    /// The initiator.
    initiator: I,
}

impl<I: Initiator> InitiatorProcess<I> {
    /// The initiator inside.
    pub closed spec fn spec_initiator(&self) -> I {
        self.initiator
    }

    /// Create a new `InitiatorProcess`. The `initiator` must be
    /// initialised.
    pub fn new(initiator: I) -> (r: InitiatorProcess<I>)
        ensures
            r.spec_initiator() == initiator,
    {
        InitiatorProcess { initiator }
    }

    /// What is left to do after polling gave `polled`.
    pub fn poll_result(polled: Result<(), I::Error>) -> (r: StepOutcome<Never>)
        ensures
            polled.is_ok() ==> r == StepOutcome::<Never>::Pending,
            polled.is_err() ==> r == StepOutcome::<Never>::Complete,
    {
        match polled {
            Ok(()) => StepOutcome::Pending,
            Err(_) => StepOutcome::Complete,
        }
    }

    /// What is left to do with the process after polling gave `polled`:
    /// to wait for more if it went well, nothing if it failed.
    pub fn run_result(polled: Result<(), I::Error>) -> (r: crate::process::ProcessResult)
        ensures
            polled.is_ok() ==> r == crate::process::ProcessResult::Pending,
            polled.is_err() ==> r == crate::process::ProcessResult::Complete,
    {
        match polled {
            Ok(()) => crate::process::ProcessResult::Pending,
            Err(_) => crate::process::ProcessResult::Complete,
        }
    }

    /// Polls the initiator once.
    pub fn run(&mut self, system_ref: &mut ActorSystemRef) -> (r: crate::process::ProcessResult) {
        Self::run_result(self.initiator.poll(system_ref))
    }
}

impl<I: Initiator> Process for InitiatorProcess<I> {
    type Error = Never;

    /// Polls the initiator once. It waits for more if polling went well
    /// and is complete if polling failed; it never fails itself.
    fn step(&mut self, system_ref: &mut ActorSystemRef) -> (r: StepOutcome<Never>)
        ensures
            r is Pending || r is Complete,
    {
        Self::poll_result(self.initiator.poll(system_ref))
    }

    /// There is no failure to handle: the initiator is left as it is and
    /// counts as stopped.
    fn on_failure(&mut self, error: Never) -> (r: Recovery)
        ensures
            r == Recovery::Stopped,
            *final(self) == *old(self),
    {
        Recovery::Stopped
    }
}

} // verus!
