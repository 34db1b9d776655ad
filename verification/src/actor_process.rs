//! The process of an actor: the actor itself, the factory that makes it
//! anew, its supervisor and its inbox.

use crate::actor::context::Context;
use crate::actor::{Actor, NewActor};
use crate::process::{Process, ProcessResult, Recovery, StepOutcome};
use crate::supervisor::{
    action_in, advance, all_answer, answers_left, decision_event, is_final, lemma_one_more_answer,
    next_action, phase_after, SupervisionAction, SupervisionEvent, SupervisionPhase, Supervisor,
};
use crate::system_ref::ActorSystemRef;
use vstd::prelude::*;

verus! {

/// What an actor process holds of its computation.
pub enum ActorState<A, Arg> {
    /// The actor, which the next step drives.
    Running(A),
    /// The argument from which the next step makes the actor anew.
    Restarting(Arg),
    /// Nothing: the process is over and is not stepped again.
    Done,
}

/// A process that runs an actor.
#[verifier::reject_recursive_types(S)]
#[verifier::reject_recursive_types(NA)]
pub struct ActorProcess<S, NA: NewActor> {
    pub supervisor: S,
    pub new_actor: NA,
    pub state: ActorState<NA::Actor, NA::Argument>,
    pub ctx: Context<NA::Message, ActorSystemRef>,
}

/// What a process holds after its actor ran a slice that ended with
/// `outcome`, and what the step of the process comes to: the outcome of
/// the slice. An actor that suspended is kept for the next step; one that
/// returned or failed is gone.
pub fn after_slice<A, Arg, E>(actor: A, outcome: StepOutcome<E>) -> (r: (
    ActorState<A, Arg>,
    StepOutcome<E>,
))
    ensures
        r.1 == outcome,
        outcome is Pending ==> r.0 == ActorState::<A, Arg>::Running(actor),
        !(outcome is Pending) ==> r.0 is Done,
{
    match outcome {
        StepOutcome::Pending => (ActorState::Running(actor), StepOutcome::Pending),
        StepOutcome::Complete => (ActorState::Done, StepOutcome::Complete),
        StepOutcome::Failed(error) => (ActorState::Done, StepOutcome::Failed(error)),
    }
}

/// What a process holds after its factory answered `made`, the event that
/// this is in the handling of the failure, and the error if there is one.
pub fn after_rebuild<A, Arg, E>(made: Result<A, E>) -> (r: (
    ActorState<A, Arg>,
    SupervisionEvent,
    Option<E>,
))
    ensures
        made matches Ok(a) ==> r.0 == ActorState::<A, Arg>::Running(a) && r.1
            == SupervisionEvent::Rebuilt && r.2.is_none(),
        made matches Err(e) ==> r.0 is Done && r.1 == SupervisionEvent::RebuildFailed && r.2
            == Some(e),
{
    match made {
        Ok(actor) => (ActorState::Running(actor), SupervisionEvent::Rebuilt, None),
        Err(error) => (ActorState::Done, SupervisionEvent::RebuildFailed, Some(error)),
    }
}

/// The recovery that the handling of a failure comes to when it ends in
/// `phase`: the process runs again if its actor was made anew, and is
/// stopped else.
pub open spec fn recovery_in(phase: SupervisionPhase) -> Recovery {
    if phase == SupervisionPhase::Restarted {
        Recovery::Restarted
    } else {
        Recovery::Stopped
    }
}

/// What the step of a process comes to that made its actor anew, or tried
/// to: it waits for its next step if it has an actor again, and is
/// complete else.
pub fn after_restart<E>(recovery: Recovery) -> (r: StepOutcome<E>)
    ensures
        recovery == Recovery::Restarted ==> r is Pending,
        recovery == Recovery::Stopped ==> r is Complete,
{
    match recovery {
        Recovery::Restarted => StepOutcome::Pending,
        Recovery::Stopped => StepOutcome::Complete,
    }
}

/// Whether the events `events` are a whole handling of a failure from the
/// phase `start` on that came to `recovery`: each event answers what was
/// asked when it came, nothing is asked after the last, and the recovery
/// is that of the phase they end in.
pub open spec fn handled(
    start: SupervisionPhase,
    events: Seq<SupervisionEvent>,
    recovery: Recovery,
) -> bool {
    &&& all_answer(start, events)
    &&& is_final(phase_after(start, events))
    &&& recovery == recovery_in(phase_after(start, events))
}

/// Whatever the supervisor and the factory answer, the handling of the
/// failure of an actor asks them at most four times and makes the actor at
/// most twice; the supervisor is told of a second failure to make it
/// exactly when it decided twice to restart and the factory failed both
/// times, and the process runs again exactly when the last answer was an
/// actor made.
pub proof fn lemma_handling_is_bounded(events: Seq<SupervisionEvent>, recovery: Recovery)
    requires
        handled(SupervisionPhase::Failed, events, recovery),
    ensures
        1 <= events.len() <= 4,
        crate::supervisor::rebuild_attempts(events) <= 2,
        phase_after(SupervisionPhase::Failed, events) == SupervisionPhase::GivenUp <==> events
            =~= seq![
            SupervisionEvent::Restart,
            SupervisionEvent::RebuildFailed,
            SupervisionEvent::Restart,
            SupervisionEvent::RebuildFailed,
        ],
        recovery == Recovery::Restarted <==> events.last() == SupervisionEvent::Rebuilt,
{
    crate::supervisor::lemma_supervision_ends(events);
    crate::supervisor::lemma_at_most_two_rebuilds(events);
    crate::supervisor::lemma_given_up(events);
    reveal_with_fuel(all_answer, 6);
    reveal_with_fuel(phase_after, 6);
    if events.len() >= 1 {
        let e1 = events.drop_first();
        if e1.len() >= 1 {
            let e2 = e1.drop_first();
            if e2.len() >= 1 {
                let e3 = e2.drop_first();
                assert(e3.len() >= 0);
                if e3.len() >= 1 {
                    assert(events.last() == e3[0]);
                } else {
                    assert(events.last() == e2[0]);
                }
            } else {
                assert(events.last() == e1[0]);
            }
        }
    }
}

impl<S: Supervisor<NA>, NA: NewActor> ActorProcess<S, NA> {
    /// A process that drives `actor`, receives through `ctx`, makes the
    /// actor anew with `new_actor` and is supervised by `supervisor`.
    pub fn new(
        supervisor: S,
        new_actor: NA,
        actor: NA::Actor,
        ctx: Context<NA::Message, ActorSystemRef>,
    ) -> (r: Self)
        ensures
            r.supervisor == supervisor,
            r.new_actor == new_actor,
            r.state == ActorState::<NA::Actor, NA::Argument>::Running(actor),
            r.ctx == ctx,
    {
        ActorProcess { supervisor, new_actor, state: ActorState::Running(actor), ctx }
    }

    /// A process whose first step makes the actor from `arg`.
    pub fn restarting(
        supervisor: S,
        new_actor: NA,
        arg: NA::Argument,
        ctx: Context<NA::Message, ActorSystemRef>,
    ) -> (r: Self)
        ensures
            r.supervisor == supervisor,
            r.new_actor == new_actor,
            r.state == ActorState::<NA::Actor, NA::Argument>::Restarting(arg),
            r.ctx == ctx,
    {
        ActorProcess { supervisor, new_actor, state: ActorState::Restarting(arg), ctx }
    }

    /// Handles a failure from the phase `start` on, which is that of a
    /// failed actor, with its error, or that of a restart decided, with
    /// its argument. In each phase it does what `next_action` says: it
    /// hands the error of the actor to `Supervisor::decide`, the argument
    /// of the last decision to `NewActor::new`, and the error of the
    /// factory to `Supervisor::decide_on_restart_error` or, the second
    /// time, to `Supervisor::second_restart_error`. Each answer moves the
    /// phase on as `advance` says. The inbox stays the one it was.
    fn supervise(
        &mut self,
        start: SupervisionPhase,
        error: Option<<NA::Actor as Actor>::Error>,
        arg: Option<NA::Argument>,
    ) -> (r: (Recovery, Vec<SupervisionEvent>))
        requires
            start == SupervisionPhase::Failed && error.is_some() || start
                == SupervisionPhase::Rebuilding && arg.is_some(),
        ensures
            final(self).ctx == old(self).ctx,
            handled(start, r.1@, r.0),
            r.0 == Recovery::Restarted <==> final(self).state is Running,
            r.0 == Recovery::Stopped <==> final(self).state is Done,
    {
        let mut phase = start;
        let mut events: Vec<SupervisionEvent> = Vec::new();
        let mut failure = error;
        let mut argument = arg;
        let mut refusal: Option<NA::Error> = None;
        loop
            invariant
                self.ctx == old(self).ctx,
                all_answer(start, events@),
                phase == phase_after(start, events@),
                phase == SupervisionPhase::Failed ==> failure.is_some(),
                action_in(phase) == SupervisionAction::Rebuild ==> argument.is_some(),
                phase == SupervisionPhase::RestartFailed || phase == SupervisionPhase::GivenUp
                    ==> refusal.is_some(),
                phase == SupervisionPhase::Restarted ==> self.state is Running,
            decreases answers_left(phase),
        {
            let event = match next_action(phase) {
                SupervisionAction::Decide => {
                    let error = match failure {
                        Some(error) => error,
                        None => {
                            return (Recovery::Stopped, events);
                        },
                    };
                    failure = None;
                    let decision = decision_event(self.supervisor.decide(error));
                    argument = decision.1;
                    decision.0
                },
                SupervisionAction::Rebuild => {
                    let arg = match argument {
                        Some(arg) => arg,
                        None => {
                            return (Recovery::Stopped, events);
                        },
                    };
                    argument = None;
                    let rebuilt = after_rebuild(self.new_actor.new(arg));
                    self.state = rebuilt.0;
                    refusal = rebuilt.2;
                    rebuilt.1
                },
                SupervisionAction::DecideOnRestartError => {
                    let error = match refusal {
                        Some(error) => error,
                        None => {
                            return (Recovery::Stopped, events);
                        },
                    };
                    refusal = None;
                    let decision = decision_event(self.supervisor.decide_on_restart_error(error));
                    argument = decision.1;
                    decision.0
                },
                SupervisionAction::ReportAndDrop => {
                    match refusal {
                        Some(error) => {
                            self.supervisor.second_restart_error(error);
                        },
                        None => {},
                    }
                    self.state = ActorState::Done;
                    return (Recovery::Stopped, events);
                },
                SupervisionAction::MarkReady => {
                    return (Recovery::Restarted, events);
                },
                SupervisionAction::Drop => {
                    self.state = ActorState::Done;
                    return (Recovery::Stopped, events);
                },
            };
            proof {
                lemma_one_more_answer(start, events@, event);
            }
            events.push(event);
            phase = advance(phase, event);
        }
    }

    /// Restarts the actor with `arg`, as the supervisor decided, and gives
    /// what came of it with the events on the way. The factory is asked to
    /// make the actor from `arg`. Should it fail, the supervisor is asked
    /// once more, and told if it fails a second time: the actor is made at
    /// most twice. The inbox stays the one it was, with what it holds, and
    /// the process is left with the new actor, or over.
    pub fn restart(&mut self, arg: NA::Argument) -> (r: (Recovery, Vec<SupervisionEvent>))
        ensures
            final(self).ctx == old(self).ctx,
            handled(SupervisionPhase::Rebuilding, r.1@, r.0),
            r.0 == Recovery::Restarted <==> final(self).state is Running,
            r.0 == Recovery::Stopped <==> final(self).state is Done,
    {
        self.supervise(SupervisionPhase::Rebuilding, None, Some(arg))
    }

    /// Handles the failure of the actor with `error`, and gives what came
    /// of it with the events on the way: the decisions of the supervisor
    /// and the answers of the factory, in the order in which they came.
    pub fn handle_failure(&mut self, error: <NA::Actor as Actor>::Error) -> (r: (
        Recovery,
        Vec<SupervisionEvent>,
    ))
        ensures
            final(self).ctx == old(self).ctx,
            handled(SupervisionPhase::Failed, r.1@, r.0),
            r.0 == Recovery::Restarted <==> final(self).state is Running,
            r.0 == Recovery::Stopped <==> final(self).state is Done,
    {
        self.supervise(SupervisionPhase::Failed, Some(error), None)
    }

    /// Runs the process once and handles a failure at once: complete if
    /// the actor returned or was stopped, pending if it suspended or was
    /// restarted.
    pub fn run(&mut self, system_ref: &mut ActorSystemRef) -> (r: ProcessResult)
        ensures
            r == ProcessResult::Pending <==> final(self).state is Running,
            r == ProcessResult::Complete <==> final(self).state is Done,
    {
        match self.step(system_ref) {
            StepOutcome::Pending => ProcessResult::Pending,
            StepOutcome::Complete => ProcessResult::Complete,
            StepOutcome::Failed(error) => self.on_failure(error).result(),
        }
    }
}

impl<S: Supervisor<NA>, NA: NewActor> Process for ActorProcess<S, NA> {
    type Error = <NA::Actor as Actor>::Error;

    /// Drives the actor one slice. The actor is handed the context of the
    /// process with the worker's reference in it, and the reference goes
    /// back to the worker after the slice; what the process holds then,
    /// and what the step comes to, is what `after_slice` says. A process
    /// that is restarting makes its actor first and suspends; a process
    /// that is over is complete.
    fn step(&mut self, system_ref: &mut ActorSystemRef) -> (r: StepOutcome<Self::Error>)
        ensures
            r is Pending <==> final(self).state is Running,
            !(r is Pending) <==> final(self).state is Done,
            old(self).state is Done ==> r is Complete,
            old(self).state is Restarting ==> !(r is Failed),
            !(old(self).state is Running) ==> final(self).ctx == old(self).ctx && *final(system_ref)
                == *old(system_ref),
    {
        let mut state = ActorState::Done;
        core::mem::swap(&mut self.state, &mut state);
        match state {
            ActorState::Running(mut actor) => {
                self.ctx.swap_runtime(system_ref);
                let outcome = actor.step(&mut self.ctx);
                self.ctx.swap_runtime(system_ref);
                let left = after_slice(actor, outcome);
                self.state = left.0;
                left.1
            },
            ActorState::Restarting(arg) => after_restart(self.restart(arg).0),
            ActorState::Done => StepOutcome::Complete,
        }
    }

    /// Asks the supervisor what becomes of the actor that failed with
    /// `error`, and restarts it if so decided: see `handle_failure`.
    fn on_failure(&mut self, error: Self::Error) -> (r: Recovery)
        ensures
            final(self).ctx == old(self).ctx,
            r == Recovery::Restarted <==> final(self).state is Running,
            r == Recovery::Stopped <==> final(self).state is Done,
    {
        self.handle_failure(error).0
    }
}

} // verus!
