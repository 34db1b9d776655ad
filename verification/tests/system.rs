use std::cell::{Cell, RefCell};
use std::rc::Rc;
use std::sync::Arc;
use std::task::Wake;
use std::time::{Duration, Instant};

use heph::actor::context::{Context, Poll, RecvError};
use heph::actor::{Actor, Never, NewActor};
use heph::actor_process::ActorProcess;
use heph::actor_ref::{new_inbox, ActorRef};
use heph::error::SendErrorReason;
use heph::initiator::{Initiator, InitiatorProcess};
use heph::options::{ActorOptions, InitiatorOptions};
use heph::pid::ProcessId;
use heph::priority::Priority;
use heph::process::{
    Process, ProcessRecord, ProcessResult, ProcessState, Recovery, StepOutcome,
};
use heph::supervisor::SupervisionEvent;
use heph::supervisor::{NoSupervisor, RestartSupervisor, Supervisor, SupervisorStrategy};
use heph::system::{poll_timeout_for, ActorSystem, LoopAction};
use heph::system_ref::ActorSystemRef;
use heph::time::{Span, Timestamp};
use heph::timer::{DeadlinePassed, Timer};

struct InboxWaker(heph::waker::Waker);

impl Wake for InboxWaker {
    fn wake(self: Arc<Self>) {
        let _ = self.0.wake();
    }
}

fn spin(time: Duration) {
    let start = Instant::now();
    while start.elapsed() < time {}
}

// An actor that waits for one message and then returns.

struct OkActor;

impl Actor for OkActor {
    type Message = ();
    type Error = Never;

    fn step(&mut self, ctx: &mut Context<(), ActorSystemRef>) -> StepOutcome<Never> {
        match ctx.receive_next().poll() {
            Poll::Ready(_) => StepOutcome::Complete,
            Poll::Pending => StepOutcome::Pending,
        }
    }
}

struct NewOkActor;

impl NewActor for NewOkActor {
    type Message = ();
    type Argument = ();
    type Error = Never;
    type Actor = OkActor;

    fn new(&mut self, _: ()) -> Result<OkActor, Never> {
        Ok(OkActor)
    }
}

#[test]
fn actor_process() {
    let (actor_ref, inbox) = new_inbox::<()>(8);
    let ctx = Context::new(inbox, ActorSystemRef::test_ref());
    let process = ActorProcess::new(NoSupervisor, NewOkActor, OkActor, ctx);
    let mut process = ProcessRecord::new(ProcessId(0), Priority::NORMAL, Span::zero(), process);

    assert_eq!(process.id(), ProcessId(0));
    assert_eq!(process.priority(), Priority::NORMAL);
    assert_eq!(process.runtime(), Span::from_millis(0));

    // Actor should return `Pending` in the first call, since no message is
    // available.
    let mut system_ref = ActorSystemRef::test_ref();
    assert_eq!(process.run(&mut system_ref), ProcessResult::Pending);

    // Runtime must be increased after each call to run.
    let runtime_after_1_run = process.runtime();
    assert!(runtime_after_1_run > Span::from_millis(0));

    // Send the message and the actor should return Ok.
    actor_ref.try_send(()).unwrap();
    assert_eq!(process.run(&mut system_ref), ProcessResult::Complete);
    assert!(process.runtime() > runtime_after_1_run);
}

// An actor that fails at once if told to, and else waits for one message.

struct ErrorActor {
    fail: bool,
}

impl Actor for ErrorActor {
    type Message = ();
    type Error = ();

    fn step(&mut self, ctx: &mut Context<(), ActorSystemRef>) -> StepOutcome<()> {
        if !self.fail {
            match ctx.receive_next().poll() {
                Poll::Ready(_) => StepOutcome::Complete,
                Poll::Pending => StepOutcome::Pending,
            }
        } else {
            StepOutcome::Failed(())
        }
    }
}

struct NewErrorActor;

impl NewActor for NewErrorActor {
    type Message = ();
    type Argument = bool;
    type Error = Never;
    type Actor = ErrorActor;

    fn new(&mut self, fail: bool) -> Result<ErrorActor, Never> {
        Ok(ErrorActor { fail })
    }
}

struct StopSupervisor;

impl Supervisor<NewErrorActor> for StopSupervisor {
    fn decide(&mut self, _: ()) -> SupervisorStrategy<bool> {
        SupervisorStrategy::Stop
    }

    fn decide_on_restart_error(&mut self, _: Never) -> SupervisorStrategy<bool> {
        SupervisorStrategy::Stop
    }

    fn second_restart_error(&mut self, _: Never) {}
}

#[test]
fn erroneous_actor_process() {
    let (_actor_ref, inbox) = new_inbox::<()>(8);
    let ctx = Context::new(inbox, ActorSystemRef::test_ref());
    let process = ActorProcess::new(StopSupervisor, NewErrorActor, ErrorActor { fail: true }, ctx);
    let mut process = ProcessRecord::new(ProcessId(0), Priority::NORMAL, Span::zero(), process);

    assert_eq!(process.id(), ProcessId(0));
    assert_eq!(process.priority(), Priority::NORMAL);
    assert_eq!(process.runtime(), Span::from_millis(0));

    // Actor should return Err.
    let mut system_ref = ActorSystemRef::test_ref();
    assert_eq!(process.run(&mut system_ref), ProcessResult::Complete);
    assert!(process.runtime() > Span::from_millis(0));
}

struct FlagSupervisor {
    called: Rc<Cell<bool>>,
}

impl Supervisor<NewErrorActor> for FlagSupervisor {
    fn decide(&mut self, _: ()) -> SupervisorStrategy<bool> {
        self.called.set(true);
        SupervisorStrategy::Restart(false)
    }

    fn decide_on_restart_error(&mut self, _: Never) -> SupervisorStrategy<bool> {
        SupervisorStrategy::Stop
    }

    fn second_restart_error(&mut self, _: Never) {}
}

#[test]
fn restarting_erroneous_actor_process() {
    let (actor_ref, inbox) = new_inbox::<()>(8);
    let ctx = Context::new(inbox, ActorSystemRef::test_ref());
    let supervisor_check = Rc::new(Cell::new(false));
    let supervisor = FlagSupervisor { called: Rc::clone(&supervisor_check) };
    let process = ActorProcess::new(supervisor, NewErrorActor, ErrorActor { fail: true }, ctx);
    let mut process = ProcessRecord::new(ProcessId(0), Priority::NORMAL, Span::zero(), process);

    assert_eq!(process.id(), ProcessId(0));
    assert_eq!(process.priority(), Priority::NORMAL);
    assert_eq!(process.runtime(), Span::from_millis(0));

    // In the first call to run the actor should return an error. Then it
    // should be restarted. The restarted actor waits for a message.
    let mut system_ref = ActorSystemRef::test_ref();
    assert_eq!(process.run(&mut system_ref), ProcessResult::Pending);
    // Runtime must be increased after each call to run.
    let runtime_after_1_run = process.runtime();
    assert!(runtime_after_1_run > Span::from_millis(0));
    // Supervisor must be called and the actor restarted.
    assert!(supervisor_check.get());

    // Now we send a message to the restarted actor, which should return
    // `Ok`.
    actor_ref.try_send(()).unwrap();
    assert_eq!(process.run(&mut system_ref), ProcessResult::Complete);
    assert!(process.runtime() > runtime_after_1_run);
}

struct SleepyActor {
    sleep_time: Duration,
}

impl Actor for SleepyActor {
    type Message = ();
    type Error = Never;

    fn step(&mut self, _: &mut Context<(), ActorSystemRef>) -> StepOutcome<Never> {
        spin(self.sleep_time);
        StepOutcome::Complete
    }
}

struct NewSleepyActor;

impl NewActor for NewSleepyActor {
    type Message = ();
    type Argument = Duration;
    type Error = Never;
    type Actor = SleepyActor;

    fn new(&mut self, sleep_time: Duration) -> Result<SleepyActor, Never> {
        Ok(SleepyActor { sleep_time })
    }
}

#[test]
fn actor_process_runtime_increase() {
    const SLEEP_TIME: Duration = Duration::from_millis(10);

    let (_actor_ref, inbox) = new_inbox::<()>(8);
    let ctx = Context::new(inbox, ActorSystemRef::test_ref());
    let actor = SleepyActor { sleep_time: SLEEP_TIME };
    let process = ActorProcess::new(NoSupervisor, NewSleepyActor, actor, ctx);
    let mut process = ProcessRecord::new(ProcessId(0), Priority::NORMAL, Span::zero(), process);

    assert_eq!(process.id(), ProcessId(0));
    assert_eq!(process.priority(), Priority::NORMAL);
    assert_eq!(process.runtime(), Span::from_millis(0));

    // Runtime must increase after running.
    let mut system_ref = ActorSystemRef::test_ref();
    assert_eq!(process.run(&mut system_ref), ProcessResult::Complete);
    assert!(process.runtime() >= Span::from_millis(10));
}

struct SimpleInitiator {
    called: Rc<Cell<usize>>,
}

impl Initiator for SimpleInitiator {
    type Error = std::io::Error;

    fn poll(&mut self, _: &mut ActorSystemRef) -> std::io::Result<()> {
        let called = self.called.get();
        self.called.set(called + 1);
        match called {
            0 => Ok(()),
            1 => Err(std::io::ErrorKind::Other.into()),
            _ => unreachable!(),
        }
    }
}

#[test]
fn initiator_process() {
    let called = Rc::new(Cell::new(0));
    let initiator = SimpleInitiator { called: Rc::clone(&called) };
    let process = InitiatorProcess::new(initiator);
    let mut process = ProcessRecord::new(ProcessId(0), Priority::LOW, Span::zero(), process);

    assert_eq!(process.id(), ProcessId(0));
    assert_eq!(process.priority(), Priority::LOW);
    assert_eq!(process.runtime(), Span::from_millis(0));

    // Ok run.
    let mut system_ref = ActorSystemRef::test_ref();
    assert_eq!(process.run(&mut system_ref), ProcessResult::Pending);
    assert_eq!(called.get(), 1);
    // Runtime must be increased.
    let runtime_after_1_run = process.runtime();
    assert!(runtime_after_1_run > Span::from_millis(0));

    // Error run.
    assert_eq!(process.run(&mut system_ref), ProcessResult::Complete);
    assert_eq!(called.get(), 2);
    assert!(process.runtime() > runtime_after_1_run);
}

struct SleepyInitiator(Duration);

impl Initiator for SleepyInitiator {
    type Error = std::io::Error;

    fn poll(&mut self, _: &mut ActorSystemRef) -> std::io::Result<()> {
        spin(self.0);
        Ok(())
    }
}

#[test]
fn initiator_poll_results() {
    let went_well: std::io::Result<()> = Ok(());
    let failed: std::io::Result<()> = Err(std::io::ErrorKind::Other.into());
    assert_eq!(InitiatorProcess::<SimpleInitiator>::run_result(went_well), ProcessResult::Pending);
    assert_eq!(InitiatorProcess::<SimpleInitiator>::run_result(failed), ProcessResult::Complete);
    let failed: std::io::Result<()> = Err(std::io::ErrorKind::Other.into());
    assert_eq!(
        InitiatorProcess::<SimpleInitiator>::poll_result(failed),
        StepOutcome::Complete
    );
    assert_eq!(InitiatorProcess::<SimpleInitiator>::poll_result(Ok(())), StepOutcome::Pending);
}

#[test]
fn initiator_process_runtime_increase() {
    const SLEEP_TIME: Duration = Duration::from_millis(10);

    let initiator = SleepyInitiator(SLEEP_TIME);
    let process = InitiatorProcess::new(initiator);
    let mut process = ProcessRecord::new(ProcessId(0), Priority::LOW, Span::zero(), process);

    assert_eq!(process.id(), ProcessId(0));
    assert_eq!(process.priority(), Priority::LOW);
    assert_eq!(process.runtime(), Span::from_millis(0));

    let mut system_ref = ActorSystemRef::test_ref();
    assert_eq!(process.run(&mut system_ref), ProcessResult::Pending);
    assert!(process.runtime() >= Span::from_millis(10));
}

// Echo: the actor replies each message to the reference it carries.

struct EchoMessage {
    text: String,
    reply_to: ActorRef<String>,
}

struct EchoActor;

impl Actor for EchoActor {
    type Message = EchoMessage;
    type Error = ();

    fn step(&mut self, ctx: &mut Context<EchoMessage, ActorSystemRef>) -> StepOutcome<()> {
        loop {
            match ctx.receive_next().poll() {
                Poll::Ready(Ok(message)) => {
                    if message.reply_to.try_send(message.text).is_err() {
                        return StepOutcome::Failed(());
                    }
                }
                Poll::Ready(Err(_)) => return StepOutcome::Complete,
                Poll::Pending => return StepOutcome::Pending,
            }
        }
    }
}

struct NewEchoActor;

impl NewActor for NewEchoActor {
    type Message = EchoMessage;
    type Argument = ();
    type Error = Never;
    type Actor = EchoActor;

    fn new(&mut self, _: ()) -> Result<EchoActor, Never> {
        Ok(EchoActor)
    }
}

struct CountingSupervisor {
    decisions: Rc<Cell<usize>>,
}

impl Supervisor<NewEchoActor> for CountingSupervisor {
    fn decide(&mut self, _: ()) -> SupervisorStrategy<()> {
        self.decisions.set(self.decisions.get() + 1);
        SupervisorStrategy::Restart(())
    }

    fn decide_on_restart_error(&mut self, _: Never) -> SupervisorStrategy<()> {
        SupervisorStrategy::Stop
    }

    fn second_restart_error(&mut self, _: Never) {}
}

#[test]
fn echo() {
    let decisions = Rc::new(Cell::new(0));
    let supervisor = CountingSupervisor { decisions: Rc::clone(&decisions) };
    let mut system = ActorSystem::new();
    let expected = system.next_pid();
    let waker = std::task::Waker::from(Arc::new(InboxWaker(system.waker(expected))));
    let (pid, actor_ref) = system
        .add_actor(supervisor, NewEchoActor, (), ActorOptions::default(), Some(waker))
        .unwrap();
    assert_eq!(pid, ProcessId(1));
    assert_eq!(pid, expected);
    assert_eq!(system.state(pid), Some(ProcessState::Ready));
    assert!(actor_ref.is_connected());

    // Ready on spawn: it runs once and finds nothing.
    let now = system.now();
    assert_eq!(system.run_turn(&Vec::new(), now), LoopAction::Stepped(pid));
    assert_eq!(system.state(pid), Some(ProcessState::Inactive));
    assert_eq!(system.run_turn(&Vec::new(), now), LoopAction::Idle);

    let (reply_to, mut replies) = new_inbox::<String>(8);
    let message = EchoMessage { text: "hi".to_owned(), reply_to };
    // The message wakes the actor, which found its inbox empty before.
    assert!(actor_ref.try_send(message).is_ok());
    assert_eq!(system.prepare_poll(now), Some(Span(0)));
    assert_eq!(system.state(pid), Some(ProcessState::Ready));

    assert_eq!(system.run_turn(&Vec::new(), now), LoopAction::Stepped(pid));
    // Delivered exactly once.
    assert_eq!(replies.try_recv(), Ok("hi".to_owned()));
    assert!(replies.try_recv().is_err());
    // No restarts, and the actor waits again.
    assert_eq!(decisions.get(), 0);
    assert_eq!(system.state(pid), Some(ProcessState::Inactive));
    assert_eq!(system.run_turn(&Vec::new(), now), LoopAction::Idle);
}

// An actor that records what it gets under its tag, and fails if told to.

struct TagActor {
    tag: &'static str,
    fail: bool,
    seen: Rc<RefCell<Vec<String>>>,
}

impl Actor for TagActor {
    type Message = &'static str;
    type Error = &'static str;

    fn step(
        &mut self,
        ctx: &mut Context<&'static str, ActorSystemRef>,
    ) -> StepOutcome<&'static str> {
        loop {
            match ctx.try_receive_next() {
                Ok(message) => {
                    if self.fail {
                        return StepOutcome::Failed("E");
                    }
                    self.seen.borrow_mut().push(format!("{}:{}", self.tag, message));
                }
                Err(RecvError::Empty) => return StepOutcome::Pending,
                Err(RecvError::Disconnected) => return StepOutcome::Complete,
            }
        }
    }
}

struct NewTagActor {
    seen: Rc<RefCell<Vec<String>>>,
    made: Rc<Cell<usize>>,
    fail_after: usize,
}

impl NewActor for NewTagActor {
    type Message = &'static str;
    type Argument = (&'static str, bool);
    type Error = &'static str;
    type Actor = TagActor;

    fn new(&mut self, arg: (&'static str, bool)) -> Result<TagActor, &'static str> {
        let made = self.made.get();
        self.made.set(made + 1);
        if made >= self.fail_after {
            Err("cannot make")
        } else {
            Ok(TagActor { tag: arg.0, fail: arg.1, seen: Rc::clone(&self.seen) })
        }
    }
}

struct LogSupervisor {
    log: Rc<RefCell<Vec<String>>>,
}

impl Supervisor<NewTagActor> for LogSupervisor {
    fn decide(&mut self, error: &'static str) -> SupervisorStrategy<(&'static str, bool)> {
        self.log.borrow_mut().push(format!("decide({})", error));
        SupervisorStrategy::Restart(("second", false))
    }

    fn decide_on_restart_error(
        &mut self,
        error: &'static str,
    ) -> SupervisorStrategy<(&'static str, bool)> {
        self.log.borrow_mut().push(format!("decide_on_restart_error({})", error));
        SupervisorStrategy::Restart(("third", false))
    }

    fn second_restart_error(&mut self, error: &'static str) {
        self.log.borrow_mut().push(format!("second_restart_error({})", error));
    }
}

#[test]
fn supervisor_restart_with_arg() {
    let seen = Rc::new(RefCell::new(Vec::new()));
    let log = Rc::new(RefCell::new(Vec::new()));
    let made = Rc::new(Cell::new(0));
    let new_actor =
        NewTagActor { seen: Rc::clone(&seen), made: Rc::clone(&made), fail_after: usize::MAX };
    let mut system = ActorSystem::new();
    let (pid, actor_ref) = system
        .add_actor(
            LogSupervisor { log: Rc::clone(&log) },
            new_actor,
            ("first", true),
            ActorOptions::default(),
            None,
        )
        .unwrap();
    let now = system.now();

    // Two messages are in the inbox when the actor fails on the first.
    actor_ref.try_send("one").unwrap();
    actor_ref.try_send("two").unwrap();
    assert_eq!(system.run_turn(&Vec::new(), now), LoopAction::Stepped(pid));
    assert_eq!(*log.borrow(), vec!["decide(E)".to_owned()]);
    assert_eq!(made.get(), 2);
    // Restarted: it is ready without a wake.
    assert_eq!(system.state(pid), Some(ProcessState::Ready));

    // One further step on the rebuilt actor: it finds the message that the
    // failed one left in the same inbox. The one that was taken is lost.
    assert_eq!(system.run_turn(&Vec::new(), now), LoopAction::Stepped(pid));
    assert_eq!(*seen.borrow(), vec!["second:two".to_owned()]);
    assert_eq!(system.state(pid), Some(ProcessState::Inactive));

    actor_ref.try_send("three").unwrap();
    assert_eq!(system.run_turn(&vec![pid], now), LoopAction::Stepped(pid));
    assert_eq!(*seen.borrow(), vec!["second:two".to_owned(), "second:three".to_owned()]);
    assert_eq!(log.borrow().len(), 1);
}

#[test]
fn restart_escalation() {
    let seen = Rc::new(RefCell::new(Vec::new()));
    let log = Rc::new(RefCell::new(Vec::new()));
    let made = Rc::new(Cell::new(0));
    // The factory makes the first actor and fails from then on.
    let new_actor = NewTagActor { seen: Rc::clone(&seen), made: Rc::clone(&made), fail_after: 1 };
    let mut system = ActorSystem::new();
    let (pid, actor_ref) = system
        .add_actor(
            LogSupervisor { log: Rc::clone(&log) },
            new_actor,
            ("first", true),
            ActorOptions::default(),
            None,
        )
        .unwrap();
    let now = system.now();

    actor_ref.try_send("one").unwrap();
    assert_eq!(system.run_turn(&Vec::new(), now), LoopAction::Stepped(pid));
    assert_eq!(
        *log.borrow(),
        vec![
            "decide(E)".to_owned(),
            "decide_on_restart_error(cannot make)".to_owned(),
            "second_restart_error(cannot make)".to_owned(),
        ]
    );
    // One actor was made, and making one was tried twice more.
    assert_eq!(made.get(), 3);
    // The process is dropped, and with it the inbox.
    assert_eq!(system.state(pid), None);
    assert!(system.is_empty());
    assert!(seen.borrow().is_empty());
    let refused = actor_ref.try_send("two").unwrap_err();
    assert_eq!(refused.message, "two");
    assert_eq!(refused.reason, SendErrorReason::ActorShutdown);
    assert!(!actor_ref.is_connected());
    assert_eq!(system.run_turn(&vec![pid], now), LoopAction::Terminate);
}

struct NewFailingActor;

impl NewActor for NewFailingActor {
    type Message = ();
    type Argument = bool;
    type Error = Never;
    type Actor = ErrorActor;

    fn new(&mut self, fail: bool) -> Result<ErrorActor, Never> {
        Ok(ErrorActor { fail })
    }
}

#[test]
fn restart_supervisor_gives_up_after_its_restarts() {
    let supervisor = RestartSupervisor::with_limits(
        true,
        2,
        Span::from_millis(60_000),
        heph::time::Clock::start(),
    );
    let mut system = ActorSystem::new();
    let (pid, actor_ref) = system
        .add_actor(supervisor, NewFailingActor, true, ActorOptions::default(), None)
        .unwrap();
    let now = system.now();

    // The actor fails each time it runs. Twice it is restarted and is ready
    // at once; the third time it is stopped.
    assert_eq!(system.run_turn(&Vec::new(), now), LoopAction::Stepped(pid));
    assert_eq!(system.state(pid), Some(ProcessState::Ready));
    assert_eq!(system.run_turn(&Vec::new(), now), LoopAction::Stepped(pid));
    assert_eq!(system.state(pid), Some(ProcessState::Ready));
    assert_eq!(system.run_turn(&Vec::new(), now), LoopAction::Stepped(pid));
    assert_eq!(system.state(pid), None);
    assert!(!actor_ref.is_connected());
    assert_eq!(system.run_turn(&Vec::new(), now), LoopAction::Terminate);
}

#[test]
fn add_made_actor_hands_the_error_on() {
    let seen = Rc::new(RefCell::new(Vec::new()));
    let log = Rc::new(RefCell::new(Vec::new()));
    let made = Rc::new(Cell::new(0));
    let new_actor =
        NewTagActor { seen: Rc::clone(&seen), made: Rc::clone(&made), fail_after: usize::MAX };
    let mut system = ActorSystem::new();
    let refused = system.add_made_actor(
        LogSupervisor { log: Rc::clone(&log) },
        new_actor,
        Err("no actor"),
        ActorOptions::default(),
        None,
        new_inbox(1),
    );
    let (error, (unused_ref, mut unused_inbox)) = refused.err().unwrap();
    assert_eq!(error, "no actor");
    // The inbox comes back as it was given.
    unused_ref.try_send("kept").unwrap();
    assert_eq!(unused_inbox.try_recv(), Ok("kept"));
    assert!(system.is_empty());

    let new_actor =
        NewTagActor { seen: Rc::clone(&seen), made: Rc::clone(&made), fail_after: usize::MAX };
    let actor = TagActor { tag: "given", fail: false, seen: Rc::clone(&seen) };
    let options =
        ActorOptions { priority: Priority::High, ready_on_spawn: false, inbox_capacity: 2 };
    let (pid, actor_ref) = system
        .add_made_actor(LogSupervisor { log }, new_actor, Ok(actor), options, None, new_inbox(2))
        .ok()
        .unwrap();
    assert_eq!(pid, ProcessId(1));
    // The factory was not asked: the actor that was given is the one that runs.
    assert_eq!(made.get(), 0);
    assert_eq!(system.state(pid), Some(ProcessState::Inactive));
    actor_ref.try_send("one").unwrap();
    assert_eq!(system.run_turn(&vec![pid], Timestamp(0)), LoopAction::Stepped(pid));
    assert_eq!(*seen.borrow(), vec!["given:one".to_owned()]);
}

#[test]
fn add_actor_fails_when_the_actor_cannot_be_made() {
    let seen = Rc::new(RefCell::new(Vec::new()));
    let log = Rc::new(RefCell::new(Vec::new()));
    let made = Rc::new(Cell::new(0));
    let new_actor = NewTagActor { seen, made, fail_after: 0 };
    let mut system = ActorSystem::new();
    let added =
        system.add_actor(LogSupervisor { log }, new_actor, ("x", false), ActorOptions::default(), None);
    assert_eq!(added.err(), Some("cannot make"));
    assert!(system.is_empty());
}

// An actor that waits for a message or for a deadline, whichever is first.

struct RaceActor {
    deadline: Timestamp,
    timer: Option<Timer>,
    clock: Rc<Cell<u64>>,
    taken: Rc<RefCell<Vec<&'static str>>>,
}

impl Actor for RaceActor {
    type Message = ();
    type Error = Never;

    fn step(&mut self, ctx: &mut Context<(), ActorSystemRef>) -> StepOutcome<Never> {
        if self.timer.is_none() {
            self.timer = Some(Timer::new(ctx, self.deadline).unwrap());
        }
        if let Poll::Ready(Ok(())) = ctx.receive_next().poll() {
            // The timer has lost: its registration is given up.
            self.timer.take().unwrap().cancel(ctx).unwrap();
            self.taken.borrow_mut().push("message");
            return StepOutcome::Complete;
        }
        let now = Timestamp(self.clock.get());
        match self.timer.as_ref().unwrap().poll(now) {
            Poll::Ready(DeadlinePassed) => {
                self.taken.borrow_mut().push("deadline");
                StepOutcome::Complete
            }
            Poll::Pending => StepOutcome::Pending,
        }
    }
}

struct NewRaceActor {
    clock: Rc<Cell<u64>>,
    taken: Rc<RefCell<Vec<&'static str>>>,
}

impl NewActor for NewRaceActor {
    type Message = ();
    type Argument = Timestamp;
    type Error = Never;
    type Actor = RaceActor;

    fn new(&mut self, deadline: Timestamp) -> Result<RaceActor, Never> {
        Ok(RaceActor {
            deadline,
            timer: None,
            clock: Rc::clone(&self.clock),
            taken: Rc::clone(&self.taken),
        })
    }
}

#[test]
fn timer_race() {
    const MS: u64 = 1_000_000;
    let clock = Rc::new(Cell::new(0));
    let taken = Rc::new(RefCell::new(Vec::new()));
    let new_actor = NewRaceActor { clock: Rc::clone(&clock), taken: Rc::clone(&taken) };
    let mut system = ActorSystem::new();
    let (pid, _actor_ref) = system
        .add_actor(NoSupervisor, new_actor, Timestamp(50 * MS), ActorOptions::default(), None)
        .unwrap();

    assert_eq!(system.run_turn(&Vec::new(), Timestamp(0)), LoopAction::Stepped(pid));
    assert_eq!(system.state(pid), Some(ProcessState::Inactive));
    assert_eq!(system.next_deadline(), Some((Timestamp(50 * MS), pid)));

    // No message is sent. Just before the deadline nothing happens.
    clock.set(49 * MS);
    assert_eq!(system.run_turn(&Vec::new(), Timestamp(49 * MS)), LoopAction::Idle);
    assert!(taken.borrow().is_empty());

    clock.set(50 * MS);
    assert_eq!(system.run_turn(&Vec::new(), Timestamp(50 * MS)), LoopAction::Stepped(pid));
    assert_eq!(*taken.borrow(), vec!["deadline"]);
    // The deadline is out of the registry, and the actor is done.
    assert_eq!(system.next_deadline(), None);
    assert_eq!(system.state(pid), None);
    assert_eq!(system.run_turn(&Vec::new(), Timestamp(60 * MS)), LoopAction::Terminate);
}

#[test]
fn timer_race_won_by_the_message() {
    const MS: u64 = 1_000_000;
    let clock = Rc::new(Cell::new(0));
    let taken = Rc::new(RefCell::new(Vec::new()));
    let new_actor = NewRaceActor { clock: Rc::clone(&clock), taken: Rc::clone(&taken) };
    let mut system = ActorSystem::new();
    let (pid, actor_ref) = system
        .add_actor(NoSupervisor, new_actor, Timestamp(50 * MS), ActorOptions::default(), None)
        .unwrap();
    // Another process waits for the same moment.
    system.add_deadline(ProcessId(9), Timestamp(50 * MS));

    assert_eq!(system.run_turn(&Vec::new(), Timestamp(0)), LoopAction::Stepped(pid));
    assert_eq!(system.next_deadline(), Some((Timestamp(50 * MS), pid)));

    clock.set(20 * MS);
    actor_ref.try_send(()).unwrap();
    assert_eq!(system.run_turn(&vec![pid], Timestamp(20 * MS)), LoopAction::Stepped(pid));
    assert_eq!(*taken.borrow(), vec!["message"]);
    // The deadline of the actor is out of the registry; the other one stays.
    assert_eq!(system.next_deadline(), Some((Timestamp(50 * MS), ProcessId(9))));
    assert!(system.remove_deadline(ProcessId(9), Timestamp(50 * MS)));
    assert!(!system.remove_deadline(ProcessId(9), Timestamp(50 * MS)));
    assert_eq!(system.next_deadline(), None);
}

#[test]
fn backpressure() {
    let (actor_ref, inbox) = new_inbox::<u32>(1);
    let mut ctx = Context::new(inbox, ActorSystemRef::test_ref());

    assert_eq!(actor_ref.try_send(1), Ok(()));
    let refused = actor_ref.try_send(2).unwrap_err();
    assert_eq!(refused.reason, SendErrorReason::Full);
    assert_eq!(refused.message, 2);
    assert_eq!(refused.to_string(), "unable to send message: inbox full");

    assert_eq!(ctx.try_receive_next(), Ok(1));
    assert_eq!(actor_ref.try_send(3), Ok(()));
    assert_eq!(ctx.try_receive_next(), Ok(3));
    assert_eq!(ctx.try_receive_next(), Err(RecvError::Empty));

    // Once all references are gone the actor learns so, after the inbox is
    // drained.
    let other = actor_ref.clone();
    assert_eq!(other.try_send(4), Ok(()));
    drop(actor_ref);
    drop(other);
    assert_eq!(ctx.try_receive_next(), Ok(4));
    assert_eq!(ctx.try_receive_next(), Err(RecvError::Disconnected));
}

#[test]
fn references_of_the_context_reach_the_same_inbox() {
    let (actor_ref, inbox) = new_inbox::<u32>(0);
    let mut ctx = Context::new(inbox, ActorSystemRef::test_ref());
    let own = ctx.actor_ref();
    drop(actor_ref);
    assert_eq!(own.try_send(9), Ok(()));
    // A capacity of zero is taken as the smallest an inbox can have.
    assert_eq!(own.try_send(10).unwrap_err().reason, SendErrorReason::Full);
    assert_eq!(ctx.receive_next().poll(), Poll::Ready(Ok(9)));
    assert_eq!(ctx.receive_next().poll(), Poll::Pending);
    drop(own);
    assert_eq!(
        ctx.receive_next().poll(),
        Poll::Ready(Err(heph::actor::context::NoMessages))
    );
    assert_eq!(ctx.runtime().pid(), ProcessId(0));
    assert!(ctx.runtime_ref().status().is_err());
}

// A process that only counts its steps.

#[derive(Debug)]
struct Counter {
    steps: Rc<Cell<usize>>,
    until: usize,
}

impl Process for Counter {
    type Error = Never;

    fn step(&mut self, system_ref: &mut ActorSystemRef) -> StepOutcome<Never> {
        self.steps.set(self.steps.get() + 1);
        if self.steps.get() >= self.until {
            StepOutcome::Complete
        } else {
            let pid = system_ref.pid();
            system_ref.add_deadline(pid, Timestamp(self.steps.get() as u64 * 10)).unwrap();
            StepOutcome::Pending
        }
    }

    fn on_failure(&mut self, error: Never) -> heph::process::Recovery {
        match error {}
    }
}

#[test]
fn worker_steps_whenever_a_process_is_ready() {
    let steps = Rc::new(Cell::new(0));
    let mut system = ActorSystem::new();
    assert_eq!(system.run_turn(&Vec::new(), Timestamp(0)), LoopAction::Terminate);

    let pid = system.add_task(Counter { steps: Rc::clone(&steps), until: 3 });
    assert!(system.has_ready());
    // Nothing outside can wake the worker, and a process is ready.
    assert_eq!(system.poll_timeout(Timestamp(0)), Some(Span(0)));
    assert_eq!(system.run_turn(&Vec::new(), Timestamp(0)), LoopAction::Stepped(pid));
    assert_eq!(steps.get(), 1);
    assert_eq!(system.next_deadline(), Some((Timestamp(10), pid)));

    assert_eq!(system.run_turn(&Vec::new(), Timestamp(9)), LoopAction::Idle);
    assert_eq!(system.run_turn(&Vec::new(), Timestamp(10)), LoopAction::Stepped(pid));
    assert_eq!(steps.get(), 2);
    assert_eq!(system.run_turn(&vec![pid, pid, ProcessId(77)], Timestamp(11)), LoopAction::Stepped(pid));
    assert_eq!(steps.get(), 3);
    assert!(system.is_empty());
    // The deadline of the process that is gone fires into nothing.
    assert_eq!(system.next_deadline(), Some((Timestamp(20), pid)));
    assert_eq!(system.run_turn(&Vec::new(), Timestamp(20)), LoopAction::Terminate);
    assert_eq!(system.next_deadline(), None);
    assert_eq!(steps.get(), 3);
}

#[test]
fn poll_timeout_selection() {
    let now = Timestamp(100);
    // A process is ready, or nothing outside can wake the worker.
    assert_eq!(poll_timeout_for(true, true, Some(Timestamp(500)), now), Some(Span(0)));
    assert_eq!(poll_timeout_for(true, false, None, now), Some(Span(0)));
    assert_eq!(poll_timeout_for(false, false, Some(Timestamp(500)), now), Some(Span(0)));
    // Else until the next deadline, and not at all if it has passed.
    assert_eq!(poll_timeout_for(false, true, Some(Timestamp(500)), now), Some(Span(400)));
    assert_eq!(poll_timeout_for(false, true, Some(Timestamp(100)), now), Some(Span(0)));
    assert_eq!(poll_timeout_for(false, true, Some(Timestamp(7)), now), Some(Span(0)));
    // And without end if there is no deadline.
    assert_eq!(poll_timeout_for(false, true, None, now), None);
}

#[test]
fn initiators_run_at_low_priority() {
    let steps = Rc::new(Cell::new(0));
    let mut system = ActorSystem::new();
    let failed = system.add_initiator(
        Counter { steps: Rc::clone(&steps), until: 9 },
        InitiatorOptions::default(),
        Err(std::io::ErrorKind::PermissionDenied.into()),
    );
    let error = failed.unwrap_err();
    assert_eq!(error.initiator.until, 9);
    assert_eq!(error.to_string(), "unable to add initiator: permission denied");
    assert_eq!(error.description(), "unable to add initiator");
    assert_eq!(error.cause().unwrap().kind(), std::io::ErrorKind::PermissionDenied);
    assert_eq!(error.into_io_error().kind(), std::io::ErrorKind::PermissionDenied);
    assert!(system.is_empty());
    assert_eq!(system.poll_timeout(Timestamp(0)), Some(Span(0)));

    let pid = system
        .add_initiator(
            Counter { steps: Rc::clone(&steps), until: 9 },
            InitiatorOptions::default(),
            Ok(()),
        )
        .unwrap();
    assert_eq!(pid, ProcessId(1));
    let task = system.add_task(Counter { steps: Rc::new(Cell::new(0)), until: 1 });
    // The task is of normal priority and runs before the initiator.
    assert_eq!(system.run_turn(&Vec::new(), Timestamp(0)), LoopAction::Stepped(task));
    assert_eq!(system.run_turn(&Vec::new(), Timestamp(0)), LoopAction::Stepped(pid));
    // With an initiator the worker waits for events: until the deadline.
    assert_eq!(system.run_turn(&Vec::new(), Timestamp(0)), LoopAction::Idle);
    assert_eq!(system.poll_timeout(Timestamp(4)), Some(Span(6)));
}

#[test]
fn failure_handling_follows_the_phases() {
    let seen = Rc::new(RefCell::new(Vec::new()));
    let log = Rc::new(RefCell::new(Vec::new()));
    let made = Rc::new(Cell::new(0));
    // The factory fails each time.
    let new_actor = NewTagActor { seen: Rc::clone(&seen), made: Rc::clone(&made), fail_after: 0 };
    let (_actor_ref, inbox) = new_inbox::<&'static str>(2);
    let ctx = Context::new(inbox, ActorSystemRef::test_ref());
    let actor = TagActor { tag: "first", fail: true, seen: Rc::clone(&seen) };
    let mut process =
        ActorProcess::new(LogSupervisor { log: Rc::clone(&log) }, new_actor, actor, ctx);

    let (recovery, events) = process.handle_failure("E");
    assert_eq!(recovery, Recovery::Stopped);
    assert_eq!(
        events,
        vec![
            SupervisionEvent::Restart,
            SupervisionEvent::RebuildFailed,
            SupervisionEvent::Restart,
            SupervisionEvent::RebuildFailed,
        ]
    );
    // Each of the five was asked once, in this order, and no actor is made
    // a third time.
    assert_eq!(
        *log.borrow(),
        vec![
            "decide(E)".to_owned(),
            "decide_on_restart_error(cannot make)".to_owned(),
            "second_restart_error(cannot make)".to_owned(),
        ]
    );
    assert_eq!(made.get(), 2);
    let mut system_ref = ActorSystemRef::test_ref();
    assert_eq!(process.run(&mut system_ref), ProcessResult::Complete);
    assert_eq!(made.get(), 2);

    // A factory that makes the actor ends the handling after one answer.
    let new_actor =
        NewTagActor { seen: Rc::clone(&seen), made: Rc::new(Cell::new(0)), fail_after: 9 };
    let (actor_ref, inbox) = new_inbox::<&'static str>(2);
    let ctx = Context::new(inbox, ActorSystemRef::test_ref());
    let actor = TagActor { tag: "first", fail: true, seen: Rc::clone(&seen) };
    let mut process =
        ActorProcess::new(LogSupervisor { log: Rc::clone(&log) }, new_actor, actor, ctx);
    let (recovery, events) = process.handle_failure("F");
    assert_eq!(recovery, Recovery::Restarted);
    assert_eq!(events, vec![SupervisionEvent::Restart, SupervisionEvent::Rebuilt]);
    assert_eq!(log.borrow().last().unwrap(), "decide(F)");
    // The actor was made from the argument of the decision, on the same inbox.
    actor_ref.try_send("m").unwrap();
    assert_eq!(process.run(&mut system_ref), ProcessResult::Pending);
    assert_eq!(*seen.borrow(), vec!["second:m".to_owned()]);

    let (recovery, events) = process.restart(("fourth", false));
    assert_eq!(recovery, Recovery::Restarted);
    assert_eq!(events, vec![SupervisionEvent::Rebuilt]);
}

#[test]
fn spawning_through_a_reference() {
    let steps = Rc::new(Cell::new(0));
    let mut system = ActorSystem::new();
    let refused = system.spawn_task(false, Counter { steps: Rc::clone(&steps), until: 5 });
    let (error, task) = refused.unwrap_err();
    assert_eq!(error, heph::system_ref::SystemShutdown);
    assert_eq!(task.until, 5);
    assert!(system.is_empty());
    let pid = system.spawn_task(true, task).unwrap();
    assert_eq!(pid, ProcessId(1));
    assert_eq!(system.state(pid), Some(ProcessState::Ready));
    assert_eq!(system.run_turn(&Vec::new(), Timestamp(0)), LoopAction::Stepped(pid));
    assert_eq!(steps.get(), 1);
}

#[test]
fn spawning_an_actor_through_a_reference() {
    let mut system = ActorSystem::new();
    let refused =
        system.spawn_actor(false, NoSupervisor, NewOkActor, (), ActorOptions::default(), None);
    let error = refused.err().unwrap();
    assert_eq!(error.reason, heph::error::AddActorErrorReason::SystemShutdown);
    assert_eq!(error.to_string(), "unable to add actor: actor system shutdown");
    assert!(system.is_empty());

    let added =
        system.spawn_actor(true, NoSupervisor, NewOkActor, (), ActorOptions::default(), None);
    let (pid, actor_ref) = added.ok().unwrap().ok().unwrap();
    assert_eq!(pid, ProcessId(1));
    actor_ref.try_send(()).unwrap();
    assert_eq!(system.run_turn(&Vec::new(), Timestamp(0)), LoopAction::Stepped(pid));
    assert_eq!(system.state(pid), None);
}
