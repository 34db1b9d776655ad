//! Supervision: what becomes of an actor that failed.
//!
//! A supervisor decides whether the actor is stopped or restarted with a
//! new argument. When making the new actor fails the supervisor is asked
//! once more; when it fails a second time the actor is stopped.

use crate::actor::{Actor, Never, NewActor, SyncActor};
use crate::text::{decimal, decimal_digits};
use crate::time::{Clock, Span, Timestamp};
use vstd::pervasive::cloned;
use vstd::prelude::*;

verus! {

/// The strategy to use when handling an error from an actor.
#[derive(Copy, Clone, Debug, Eq, PartialEq)]
#[non_exhaustive]
pub enum SupervisorStrategy<Arg> {
    /// Restart the actor with the provided argument `Arg`.
    Restart(Arg),
    /// Stop the actor.
    Stop,
}

/// The supervisor of an actor.
pub trait Supervisor<NA: NewActor> {
    /// Decide what happens to the actor that returned `error`.
    fn decide(&mut self, error: <NA::Actor as Actor>::Error) -> (r: SupervisorStrategy<
        NA::Argument,
    >);

    /// Decide what happens when an actor is restarted and making the new
    /// actor returns `error`.
    fn decide_on_restart_error(&mut self, error: NA::Error) -> (r: SupervisorStrategy<
        NA::Argument,
    >);

    /// Called when making the new actor fails a second time. The actor is
    /// stopped after it.
    fn second_restart_error(&mut self, error: NA::Error);
}

/// Supervisor for synchronous actors.
pub trait SyncSupervisor<A: SyncActor> {
    /// Decide what happens to the actor that returned `error`.
    fn decide(&mut self, error: A::Error) -> (r: SupervisorStrategy<A::Argument>);
}

/// A supervisor for actors that never return an error. It can't be called;
/// were it called it would stop the actor.
#[derive(Copy, Clone, Debug)]
pub struct NoSupervisor;

impl<NA> Supervisor<NA> for NoSupervisor where
    NA: NewActor<Error = Never>,
    NA::Actor: Actor<Error = Never>,
 {
    fn decide(&mut self, error: Never) -> (r: SupervisorStrategy<NA::Argument>) {
        self.stop()
    }

    fn decide_on_restart_error(&mut self, error: Never) -> (r: SupervisorStrategy<NA::Argument>) {
        self.stop()
    }

    fn second_restart_error(&mut self, error: Never) {
    }
}

impl<A> SyncSupervisor<A> for NoSupervisor where A: SyncActor<Error = Never> {
    fn decide(&mut self, error: Never) -> (r: SupervisorStrategy<A::Argument>) {
        self.stop()
    }
}

impl NoSupervisor {
    /// The one decision of this supervisor: to stop the actor.
    pub fn stop<Arg>(&self) -> (r: SupervisorStrategy<Arg>)
        ensures
            r is Stop,
    {
        SupervisorStrategy::Stop
    }
}

/// Where the handling of one failure stands.
#[derive(Copy, Clone, Debug, PartialEq, Eq, Structural)]
pub enum SupervisionPhase {
    /// The actor failed: the supervisor is asked to decide.
    Failed,
    /// A restart was decided: a new actor is being made.
    Rebuilding,
    /// Making the new actor failed: the supervisor is asked once more.
    RestartFailed,
    /// A restart was decided again: a new actor is being made a second
    /// time.
    RebuildingAgain,
    /// A new actor was made: the process is ready to run.
    Restarted,
    /// The actor is stopped: the process is dropped.
    Stopped,
    /// Making the new actor failed twice: the supervisor is told, and the
    /// process is dropped.
    GivenUp,
}

/// What happened while a failure was handled.
#[derive(Copy, Clone, Debug, PartialEq, Eq, Structural)]
pub enum SupervisionEvent {
    /// The supervisor decided to stop the actor.
    Stop,
    /// The supervisor decided to restart the actor.
    Restart,
    /// A new actor was made.
    Rebuilt,
    /// Making a new actor failed.
    RebuildFailed,
}

/// Whether the handling of a failure is over in `phase`.
pub open spec fn is_final(phase: SupervisionPhase) -> bool {
    phase == SupervisionPhase::Restarted || phase == SupervisionPhase::Stopped || phase
        == SupervisionPhase::GivenUp
}

/// Whether `event` answers what is asked in `phase`: a decision where the
/// supervisor is asked, the outcome of making an actor where one is made.
pub open spec fn answers(phase: SupervisionPhase, event: SupervisionEvent) -> bool {
    match phase {
        SupervisionPhase::Failed | SupervisionPhase::RestartFailed => event
            == SupervisionEvent::Stop || event == SupervisionEvent::Restart,
        SupervisionPhase::Rebuilding | SupervisionPhase::RebuildingAgain => event
            == SupervisionEvent::Rebuilt || event == SupervisionEvent::RebuildFailed,
        _ => false,
    }
}

/// The phase that follows `phase` on `event`. An event that does not
/// answer what is asked changes nothing.
pub open spec fn next_phase(phase: SupervisionPhase, event: SupervisionEvent) -> SupervisionPhase {
    match (phase, event) {
        (SupervisionPhase::Failed, SupervisionEvent::Stop) => SupervisionPhase::Stopped,
        (SupervisionPhase::Failed, SupervisionEvent::Restart) => SupervisionPhase::Rebuilding,
        (SupervisionPhase::Rebuilding, SupervisionEvent::Rebuilt) => SupervisionPhase::Restarted,
        (
            SupervisionPhase::Rebuilding,
            SupervisionEvent::RebuildFailed,
        ) => SupervisionPhase::RestartFailed,
        (SupervisionPhase::RestartFailed, SupervisionEvent::Stop) => SupervisionPhase::Stopped,
        (
            SupervisionPhase::RestartFailed,
            SupervisionEvent::Restart,
        ) => SupervisionPhase::RebuildingAgain,
        (
            SupervisionPhase::RebuildingAgain,
            SupervisionEvent::Rebuilt,
        ) => SupervisionPhase::Restarted,
        (
            SupervisionPhase::RebuildingAgain,
            SupervisionEvent::RebuildFailed,
        ) => SupervisionPhase::GivenUp,
        _ => phase,
    }
}

/// The phase reached from `phase` by the events of `events` in turn.
pub open spec fn phase_after(phase: SupervisionPhase, events: Seq<SupervisionEvent>)
    -> SupervisionPhase
    decreases events.len(),
{
    if events.len() == 0 {
        phase
    } else {
        phase_after(next_phase(phase, events[0]), events.drop_first())
    }
}

/// Every event of `events` answers what is asked when it comes, starting
/// in `phase`.
pub open spec fn all_answer(phase: SupervisionPhase, events: Seq<SupervisionEvent>) -> bool
    decreases events.len(),
{
    events.len() == 0 || (answers(phase, events[0]) && all_answer(
        next_phase(phase, events[0]),
        events.drop_first(),
    ))
}

/// The number of times an actor is made in the course of `events`.
pub open spec fn rebuild_attempts(events: Seq<SupervisionEvent>) -> nat
    decreases events.len(),
{
    if events.len() == 0 {
        0
    } else {
        rebuild_attempts(events.drop_first()) + if events[0] == SupervisionEvent::Rebuilt
            || events[0] == SupervisionEvent::RebuildFailed {
            1nat
        } else {
            0nat
        }
    }
}

/// The phase that follows `phase` on `event`.
pub fn advance(phase: SupervisionPhase, event: SupervisionEvent) -> (r: SupervisionPhase)
    ensures
        r == next_phase(phase, event),
{
    match (phase, event) {
        (SupervisionPhase::Failed, SupervisionEvent::Stop) => SupervisionPhase::Stopped,
        (SupervisionPhase::Failed, SupervisionEvent::Restart) => SupervisionPhase::Rebuilding,
        (SupervisionPhase::Rebuilding, SupervisionEvent::Rebuilt) => SupervisionPhase::Restarted,
        (
            SupervisionPhase::Rebuilding,
            SupervisionEvent::RebuildFailed,
        ) => SupervisionPhase::RestartFailed,
        (SupervisionPhase::RestartFailed, SupervisionEvent::Stop) => SupervisionPhase::Stopped,
        (
            SupervisionPhase::RestartFailed,
            SupervisionEvent::Restart,
        ) => SupervisionPhase::RebuildingAgain,
        (
            SupervisionPhase::RebuildingAgain,
            SupervisionEvent::Rebuilt,
        ) => SupervisionPhase::Restarted,
        (
            SupervisionPhase::RebuildingAgain,
            SupervisionEvent::RebuildFailed,
        ) => SupervisionPhase::GivenUp,
        _ => phase,
    }
}

/// The event that a decision of the supervisor is, and the argument it
/// carries.
pub fn decision_event<Arg>(strategy: SupervisorStrategy<Arg>) -> (r: (SupervisionEvent, Option<Arg>))
    ensures
        strategy matches SupervisorStrategy::Restart(arg) ==> r == (
            SupervisionEvent::Restart,
            Some(arg),
        ),
        strategy is Stop ==> r == (SupervisionEvent::Stop, None::<Arg>),
{
    match strategy {
        SupervisorStrategy::Restart(arg) => (SupervisionEvent::Restart, Some(arg)),
        SupervisorStrategy::Stop => (SupervisionEvent::Stop, None),
    }
}

/// What is done next while a failure is handled.
#[derive(Copy, Clone, Debug, PartialEq, Eq, Structural)]
pub enum SupervisionAction {
    /// Ask the supervisor to decide on the failure of the actor.
    Decide,
    /// Make the actor anew from the argument of the decision.
    Rebuild,
    /// Ask the supervisor to decide on the failure to make the actor.
    DecideOnRestartError,
    /// Tell the supervisor of the second failure to make the actor, and
    /// drop the process.
    ReportAndDrop,
    /// Nothing more: the process runs again.
    MarkReady,
    /// Nothing more: the process is dropped.
    Drop,
}

/// What is done in `phase`.
pub open spec fn action_in(phase: SupervisionPhase) -> SupervisionAction {
    match phase {
        SupervisionPhase::Failed => SupervisionAction::Decide,
        SupervisionPhase::Rebuilding => SupervisionAction::Rebuild,
        SupervisionPhase::RestartFailed => SupervisionAction::DecideOnRestartError,
        SupervisionPhase::RebuildingAgain => SupervisionAction::Rebuild,
        SupervisionPhase::Restarted => SupervisionAction::MarkReady,
        SupervisionPhase::Stopped => SupervisionAction::Drop,
        SupervisionPhase::GivenUp => SupervisionAction::ReportAndDrop,
    }
}

/// The number of answers that can still be asked for from `phase` on.
pub open spec fn answers_left(phase: SupervisionPhase) -> nat {
    match phase {
        SupervisionPhase::Failed => 4,
        SupervisionPhase::Rebuilding => 3,
        SupervisionPhase::RestartFailed => 2,
        SupervisionPhase::RebuildingAgain => 1,
        _ => 0,
    }
}

/// What is done in `phase`.
pub fn next_action(phase: SupervisionPhase) -> (r: SupervisionAction)
    ensures
        r == action_in(phase),
{
    match phase {
        SupervisionPhase::Failed => SupervisionAction::Decide,
        SupervisionPhase::Rebuilding => SupervisionAction::Rebuild,
        SupervisionPhase::RestartFailed => SupervisionAction::DecideOnRestartError,
        SupervisionPhase::RebuildingAgain => SupervisionAction::Rebuild,
        SupervisionPhase::Restarted => SupervisionAction::MarkReady,
        SupervisionPhase::Stopped => SupervisionAction::Drop,
        SupervisionPhase::GivenUp => SupervisionAction::ReportAndDrop,
    }
}

/// One answer more: if the events of `events` answer in turn from `start`
/// on, and `event` answers what is asked after them, then so do all of
/// them together, and the phase after them is the one that follows on
/// `event`, from which fewer answers can be asked for.
pub proof fn lemma_one_more_answer(
    start: SupervisionPhase,
    events: Seq<SupervisionEvent>,
    event: SupervisionEvent,
)
    requires
        all_answer(start, events),
        answers(phase_after(start, events), event),
    ensures
        all_answer(start, events.push(event)),
        phase_after(start, events.push(event)) == next_phase(phase_after(start, events), event),
        answers_left(next_phase(phase_after(start, events), event)) < answers_left(
            phase_after(start, events),
        ),
    decreases events.len(),
{
    if events.len() == 0 {
        assert(events.push(event).drop_first() =~= events);
        reveal_with_fuel(all_answer, 2);
        reveal_with_fuel(phase_after, 2);
    } else {
        assert(events.push(event).drop_first() =~= events.drop_first().push(event));
        assert(events.push(event)[0] == events[0]);
        lemma_one_more_answer(next_phase(start, events[0]), events.drop_first(), event);
    }
}

/// The handling of a failure asks for at most four answers: no phase is
/// left after them that still asks for one.
pub proof fn lemma_supervision_ends(events: Seq<SupervisionEvent>)
    requires
        all_answer(SupervisionPhase::Failed, events),
    ensures
        events.len() <= 4,
        events.len() == 4 ==> is_final(phase_after(SupervisionPhase::Failed, events)),
{
    reveal_with_fuel(all_answer, 6);
    reveal_with_fuel(phase_after, 6);
    if events.len() > 4 {
        let e1 = events.drop_first();
        let e2 = e1.drop_first();
        let e3 = e2.drop_first();
        let e4 = e3.drop_first();
        assert(e4.len() > 0);
    }
}

/// An actor is made at most twice while one failure is handled.
pub proof fn lemma_at_most_two_rebuilds(events: Seq<SupervisionEvent>)
    requires
        all_answer(SupervisionPhase::Failed, events),
    ensures
        rebuild_attempts(events) <= 2,
{
    lemma_supervision_ends(events);
    reveal_with_fuel(all_answer, 6);
    reveal_with_fuel(rebuild_attempts, 6);
}

/// The supervisor is told of a second failure to restart exactly when it
/// decided twice to restart and making the actor failed both times.
pub proof fn lemma_given_up(events: Seq<SupervisionEvent>)
    requires
        all_answer(SupervisionPhase::Failed, events),
    ensures
        phase_after(SupervisionPhase::Failed, events) == SupervisionPhase::GivenUp <==> events
            =~= seq![
            SupervisionEvent::Restart,
            SupervisionEvent::RebuildFailed,
            SupervisionEvent::Restart,
            SupervisionEvent::RebuildFailed,
        ],
{
    lemma_supervision_ends(events);
    reveal_with_fuel(all_answer, 6);
    reveal_with_fuel(phase_after, 6);
}

/// The number of restarts that a restart supervisor allows unless told
/// otherwise.
pub const MAX_RESTARTS: usize = 5;

/// The time, in nanoseconds, after which a restart supervisor forgets
/// earlier failures unless told otherwise: five seconds.
pub const MAX_DURATION_NANOS: u64 = 5_000_000_000;

/// A supervisor that restarts the actor with the same argument, but not
/// more often than a given number of times in quick succession.
pub struct RestartSupervisor<Arg> {
    /// The number of restarts left.
    pub restarts_left: usize,
    /// The number of restarts allowed in quick succession.
    pub max_restarts: usize,
    /// The time between two failures after which the count starts anew.
    pub max_duration: Span,
    /// Time of the last failure.
    pub last_restart: Option<Timestamp>,
    /// Argument used to restart the actor.
    pub args: Arg,
    /// The clock that failures are timed with.
    pub clock: Clock,
}

impl<Arg: Clone> RestartSupervisor<Arg> {
    /// The number of restarts that are left at `now`: all of them again if
    /// more than the set time has passed since the last failure.
    pub open spec fn restarts_available(&self, now: Timestamp) -> usize {
        match self.last_restart {
            Some(last) if now@ > last@ && now@ - last@ > self.max_duration@ => self.max_restarts,
            _ => self.restarts_left,
        }
    }

    /// A supervisor that restarts with `args`, up to five times within five
    /// seconds of each other.
    pub fn new(args: Arg) -> (r: Self)
        ensures
            r.restarts_left == MAX_RESTARTS,
            r.max_restarts == MAX_RESTARTS,
            r.max_duration@ == MAX_DURATION_NANOS,
            r.last_restart.is_none(),
            r.args == args,
    {
        Self::with_limits(args, MAX_RESTARTS, Span::from_nanos(MAX_DURATION_NANOS), Clock::start())
    }

    /// A supervisor that restarts with `args`, up to `max_restarts` times
    /// within `max_duration` of each other, and reads the time from
    /// `clock`.
    pub fn with_limits(args: Arg, max_restarts: usize, max_duration: Span, clock: Clock) -> (r:
        Self)
        ensures
            r.restarts_left == max_restarts,
            r.max_restarts == max_restarts,
            r.max_duration == max_duration,
            r.last_restart.is_none(),
            r.args == args,
            r.clock == clock,
    {
        RestartSupervisor {
            restarts_left: max_restarts,
            max_restarts,
            max_duration,
            last_restart: None,
            args,
            clock,
        }
    }

    /// Whether the supervisor `before` has become `after` and decided
    /// `decision` on a failure at `now`. The failure is remembered. If
    /// a restart is left at `now` it is used up and the decision is to
    /// restart with a copy of the argument; if none is left the decision
    /// is to stop.
    pub open spec fn decided(
        before: Self,
        after: Self,
        decision: SupervisorStrategy<Arg>,
        now: Timestamp,
    ) -> bool {
        &&& after.last_restart == Some(now)
        &&& after.max_restarts == before.max_restarts
        &&& after.max_duration == before.max_duration
        &&& after.args == before.args
        &&& after.clock == before.clock
        &&& before.restarts_available(now) >= 1 ==> {
            &&& decision matches SupervisorStrategy::Restart(arg)
            &&& cloned(before.args, arg)
            &&& after.restarts_left == before.restarts_available(now) - 1
        }
        &&& before.restarts_available(now) == 0 ==> decision is Stop && after.restarts_left == 0
    }

    /// Decides on a failure that happened at `now`. If more than the set
    /// time has passed since the last failure, all restarts are left
    /// again. If a restart is left it is used up, and the actor is
    /// restarted with a copy of the argument; if none is left the actor is
    /// stopped.
    pub fn decide_at(&mut self, now: Timestamp) -> (r: SupervisorStrategy<Arg>)
        ensures
            Self::decided(*old(self), *final(self), r, now),
            final(self).last_restart == Some(now),
            final(self).max_restarts == old(self).max_restarts,
            final(self).max_duration == old(self).max_duration,
            final(self).args == old(self).args,
            final(self).clock == old(self).clock,
            old(self).restarts_available(now) >= 1 ==> {
                &&& r matches SupervisorStrategy::Restart(arg)
                &&& cloned(old(self).args, arg)
                &&& final(self).restarts_left == old(self).restarts_available(now) - 1
            },
            old(self).restarts_available(now) == 0 ==> r is Stop && final(self).restarts_left == 0,
    {
        match self.last_restart {
            Some(last) => {
                if now.saturating_since(last).as_nanos() > self.max_duration.as_nanos() {
                    self.restarts_left = self.max_restarts;
                }
            },
            None => {},
        }
        self.last_restart = Some(now);
        if self.restarts_left >= 1 {
            self.restarts_left = self.restarts_left - 1;
            SupervisorStrategy::Restart(self.args.clone())
        } else {
            SupervisorStrategy::Stop
        }
    }
}

impl<Arg: Clone> RestartSupervisor<Arg> {
    /// Decides on a failure that happens now: as `decide_at` does, at the
    /// moment that the clock shows. That moment is then the time of the
    /// last failure.
    pub fn decide_now(&mut self) -> (r: SupervisorStrategy<Arg>)
        ensures
            final(self).last_restart matches Some(now) && Self::decided(
                *old(self),
                *final(self),
                r,
                now,
            ),
    {
        let now = self.clock.now();
        self.decide_at(now)
    }
}

impl<NA> Supervisor<NA> for RestartSupervisor<NA::Argument> where
    NA: NewActor,
    NA::Argument: Clone,
 {
    /// Decides on the failure of the actor as `decide_now` does.
    fn decide(&mut self, error: <NA::Actor as Actor>::Error) -> (r: SupervisorStrategy<
        NA::Argument,
    >) {
        self.decide_now()
    }

    /// Decides on the failure to make the actor anew as `decide_now` does.
    fn decide_on_restart_error(&mut self, error: NA::Error) -> (r: SupervisorStrategy<
        NA::Argument,
    >) {
        self.decide_now()
    }

    fn second_restart_error(&mut self, error: NA::Error) {
    }
}

impl<A> SyncSupervisor<A> for RestartSupervisor<A::Argument> where
    A: SyncActor,
    A::Argument: Clone,
 {
    /// Decides on the failure of the actor as `decide_now` does.
    fn decide(&mut self, error: A::Error) -> (r: SupervisorStrategy<A::Argument>) {
        self.decide_now()
    }
}

/// The words on the restarts that are left: how many of how many, or that
/// none is.
pub open spec fn restarts_text(left: Option<usize>, max: usize) -> Seq<char> {
    match left {
        Some(left) => "("@ + decimal_digits(left as nat) + "/"@ + decimal_digits(max as nat)
            + " restarts left)"@,
        None => "(no restarts left)"@,
    }
}

/// The words on the restarts that are left.
pub fn restarts_words(left: Option<usize>, max: usize) -> (r: String)
    ensures
        r@ == restarts_text(left, max),
{
    match left {
        Some(left) => {
            let mut text = String::from_str("(");
            let digits = decimal(left as u64);
            text.append(digits.as_str());
            text.append("/");
            let digits = decimal(max as u64);
            text.append(digits.as_str());
            text.append(" restarts left)");
            text
        },
        None => String::from_str("(no restarts left)"),
    }
}

/// The line to log when the actor `name` failed with `error`: that it is
/// restarted, with the `left` of `max` restarts that are left after it, or
/// that it is stopped when none is left.
pub fn decide_line(name: &str, left: Option<usize>, max: usize, error: &str) -> (r: String)
    ensures
        r@ == name@ + (if left.is_some() {
            " failed, restarting it "@
        } else {
            " failed, stopping it "@
        }) + restarts_text(left, max) + ": "@ + error@,
{
    let mut line = String::from_str(name);
    if left.is_some() {
        line.append(" failed, restarting it ");
    } else {
        line.append(" failed, stopping it ");
    }
    let words = restarts_words(left, max);
    line.append(words.as_str());
    line.append(": ");
    line.append(error);
    line
}

/// The line to log when making the actor `name` anew failed with `error`:
/// that it is tried again, with the `left` of `max` restarts that are left
/// after it, or that the actor is stopped when none is left.
pub fn restart_error_line(name: &str, left: Option<usize>, max: usize, error: &str) -> (r: String)
    ensures
        r@ == name@ + (if left.is_some() {
            " actor failed to restart, trying again "@
        } else {
            " actor failed to restart, stopping it "@
        }) + restarts_text(left, max) + ": "@ + error@,
{
    let mut line = String::from_str(name);
    if left.is_some() {
        line.append(" actor failed to restart, trying again ");
    } else {
        line.append(" actor failed to restart, stopping it ");
    }
    let words = restarts_words(left, max);
    line.append(words.as_str());
    line.append(": ");
    line.append(error);
    line
}

/// The line to log when making the actor `name` anew failed a second time
/// with `error`.
pub fn second_restart_error_line(name: &str, error: &str) -> (r: String)
    ensures
        r@ == name@ + " actor failed to restart a second time, stopping it: "@ + error@,
{
    let mut line = String::from_str(name);
    line.append(" actor failed to restart a second time, stopping it: ");
    line.append(error);
    line
}

impl<Arg: Clone> RestartSupervisor<Arg> {
    /// The restarts to show in the line on `decision`: those left after a
    /// decision to restart, none after a decision to stop.
    pub fn restarts_shown(&self, decision: &SupervisorStrategy<Arg>) -> (r: Option<usize>)
        ensures
            decision is Restart ==> r == Some(self.restarts_left),
            decision is Stop ==> r.is_none(),
    {
        match decision {
            SupervisorStrategy::Restart(_) => Some(self.restarts_left),
            SupervisorStrategy::Stop => None,
        }
    }
}

} // verus!
