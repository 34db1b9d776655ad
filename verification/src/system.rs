//! The worker: it owns a scheduler, a deadline registry and the receiving
//! end of the wake channel, and decides what one turn of its loop does.
//! Waiting for outside events is left to the caller, which hands in the
//! events it got.

use crate::actor::context::Context;
use crate::actor::NewActor;
use crate::actor_process::ActorProcess;
use crate::actor_ref::{new_inbox, ActorRef};
use crate::error::{
    AddActorError, AddActorErrorReason, AddInitiatorError, AddInitiatorErrorReason,
};
use crate::options::{ActorOptions, InitiatorOptions};
use crate::supervisor::Supervisor;
use crate::pid::ProcessId;
use crate::priority::Priority;
use crate::process::{Process, ProcessState};
use crate::scheduler::{
    is_best_ready, is_ready, is_running, is_woken, lemma_mark_ready_wakes,
    lemma_add_hands_none_out, lemma_only_wakes_transitive, lemma_wakes_hand_none_out, lemma_woken_stays, new_entry,
    none_running, only_wakes, step_finished, Entry, Scheduler,
};
use crate::system_ref::{ActorSystemRef, SystemShutdown};
use crate::time::{Clock, Span, Timestamp};
use crate::timers::{time_until, DeadlineRegistry};
use crate::waker::{
    clone_notifier, new_waker, next_notification, notification_channel, pending_notifications,
    Waker,
};
use vstd::prelude::*;

verus! {

/// What one turn of the worker's loop did.
#[derive(Clone, Copy, Debug, PartialEq, Eq, Structural)]
pub enum LoopAction {
    /// It ran one step of this process.
    Stepped(ProcessId),
    /// No process was ready: the worker waits for events.
    Idle,
    /// No process is left and no events can come: the worker is done.
    Terminate,
}

/// How long the worker may wait for outside events: not at all while a
/// process is ready or nothing outside can wake it, else until the next
/// deadline, and without end if there is none.
pub open spec fn select_timeout(
    has_ready: bool,
    has_sources: bool,
    next_deadline: Option<Timestamp>,
    now: Timestamp,
) -> Option<Span> {
    if has_ready || !has_sources {
        Some(Span(0))
    } else {
        match next_deadline {
            Some(deadline) => Some(time_until(deadline, now)),
            None => None,
        }
    }
}

/// How long the worker may wait for outside events.
pub fn poll_timeout_for(
    has_ready: bool,
    has_sources: bool,
    next_deadline: Option<Timestamp>,
    now: Timestamp,
) -> (r: Option<Span>)
    ensures
        r == select_timeout(has_ready, has_sources, next_deadline, now),
{
    if has_ready || !has_sources {
        Some(Span::zero())
    } else {
        match next_deadline {
            Some(deadline) => Some(deadline.saturating_since(now)),
            None => None,
        }
    }
}

/// The system that runs all processes of one worker.
#[verifier::reject_recursive_types(P)]
pub struct ActorSystem<P> {
    /// Scheduler that holds the processes.
    scheduler: Scheduler<P>,
    /// The deadlines that processes wait for.
    timers: DeadlineRegistry,
    /// Whether outside events can wake the system.
    has_initiators: bool,
    /// Receiving side of the channel for `Waker` notifications.
    waker_notifications: crossbeam_channel::Receiver<usize>,
    /// Sending side of that channel, copied into each waker.
    notifier: crossbeam_channel::Sender<usize>,
    /// The reference that is lent to the process that runs.
    system_ref: ActorSystemRef,
}

impl<P> ActorSystem<P> {
    /// The processes of the system.
    pub closed spec fn processes(&self) -> Map<ProcessId, Entry<P>> {
        self.scheduler@
    }

    /// The deadlines that processes wait for.
    pub closed spec fn deadlines(&self) -> Set<(Timestamp, ProcessId)> {
        self.timers@
    }

    /// Whether outside events can wake the system.
    pub closed spec fn has_sources(&self) -> bool {
        self.has_initiators
    }

    /// The system's own invariant: between two turns no process is handed
    /// out.
    pub closed spec fn wf(&self) -> bool {
        &&& self.scheduler.wf()
        &&& self.timers.wf()
        &&& none_running(self.scheduler@)
    }

    /// A system without processes, whose clock starts now.
    pub fn new() -> (r: Self)
        ensures
            r.wf(),
            r.processes() == Map::<ProcessId, Entry<P>>::empty(),
            r.deadlines() == Set::<(Timestamp, ProcessId)>::empty(),
            !r.has_sources(),
    {
        let (notifier, waker_notifications) = notification_channel();
        ActorSystem {
            scheduler: Scheduler::new(),
            timers: DeadlineRegistry::new(),
            has_initiators: false,
            waker_notifications,
            notifier,
            system_ref: ActorSystemRef::new(ProcessId(0), Clock::start()),
        }
    }

    /// Adds a process, ready or waiting for its first wake, and returns
    /// the identifier it got: the lowest one that was free.
    pub fn add_process(&mut self, priority: Priority, process: P, ready: bool) -> (pid: ProcessId)
        requires
            old(self).wf(),
        ensures
            final(self).wf(),
            pid.0 != 0,
            !old(self).processes().contains_key(pid),
            forall|q: ProcessId| 0 < q.0 < pid.0 ==> old(self).processes().contains_key(q),
            final(self).processes() == old(self).processes().insert(
                pid,
                new_entry(priority, process, ready),
            ),
            final(self).deadlines() == old(self).deadlines(),
            final(self).has_sources() == old(self).has_sources(),
    {
        let ghost before = self.processes();
        let pid = self.scheduler.add(priority, process, ready);
        proof {
            lemma_add_hands_none_out(before, pid, priority, process, ready);
        }
        pid
    }

    /// Adds the process of an initiator, whose initialisation gave `init`.
    /// An initiator that failed to initialise is handed back with the
    /// error. One that is added runs at low priority, so that what is in
    /// progress is handled before new work is accepted, and from then on
    /// outside events can wake the system.
    pub fn add_initiator(
        &mut self,
        initiator: P,
        options: InitiatorOptions,
        init: Result<(), std::io::Error>,
    ) -> (r: Result<ProcessId, AddInitiatorError<P>>)
        requires
            old(self).wf(),
        ensures
            final(self).wf(),
            final(self).deadlines() == old(self).deadlines(),
            init matches Err(e) ==> {
                &&& r matches Err(error)
                &&& error.initiator == initiator
                &&& error.reason == AddInitiatorErrorReason::InitFailed(e)
                &&& final(self).processes() == old(self).processes()
                &&& final(self).has_sources() == old(self).has_sources()
            },
            init.is_ok() ==> {
                &&& r matches Ok(pid)
                &&& pid.0 != 0
                &&& !old(self).processes().contains_key(pid)
                &&& final(self).processes() == old(self).processes().insert(
                    pid,
                    new_entry(Priority::Low, initiator, true),
                )
                &&& final(self).has_sources()
            },
    {
        match init {
            Err(error) => Err(
                AddInitiatorError { initiator, reason: AddInitiatorErrorReason::InitFailed(error) },
            ),
            Ok(()) => {
                let ghost before = self.processes();
                let pid = self.scheduler.add(Priority::Low, initiator, true);
                proof {
                    lemma_add_hands_none_out(before, pid, Priority::Low, initiator, true);
                }
                self.has_initiators = true;
                Ok(pid)
            },
        }
    }

    /// The identifier that the next process to be added gets: the lowest
    /// one that is free.
    pub fn next_pid(&self) -> (pid: ProcessId)
        requires
            self.wf(),
        ensures
            pid.0 != 0,
            !self.processes().contains_key(pid),
            forall|q: ProcessId| 0 < q.0 < pid.0 ==> self.processes().contains_key(q),
    {
        self.scheduler.next_pid()
    }

    /// Adds a task: a process of normal priority that is ready at once.
    pub fn add_task(&mut self, task: P) -> (pid: ProcessId)
        requires
            old(self).wf(),
        ensures
            final(self).wf(),
            pid.0 != 0,
            !old(self).processes().contains_key(pid),
            final(self).processes() == old(self).processes().insert(
                pid,
                new_entry(Priority::Normal, task, true),
            ),
            final(self).deadlines() == old(self).deadlines(),
            final(self).has_sources() == old(self).has_sources(),
    {
        self.add_process(Priority::Normal, task, true)
    }

    /// Adds a task on behalf of a reference to the system, which is alive
    /// if a worker stands behind it. Through a reference that is not alive
    /// nothing is added: the task comes back with the error.
    pub fn spawn_task(&mut self, alive: bool, task: P) -> (r: Result<
        ProcessId,
        (SystemShutdown, P),
    >)
        requires
            old(self).wf(),
        ensures
            final(self).wf(),
            final(self).deadlines() == old(self).deadlines(),
            final(self).has_sources() == old(self).has_sources(),
            alive ==> {
                &&& r matches Ok(pid)
                &&& pid.0 != 0
                &&& !old(self).processes().contains_key(pid)
                &&& final(self).processes() == old(self).processes().insert(
                    pid,
                    new_entry(Priority::Normal, task, true),
                )
            },
            !alive ==> r == Err::<ProcessId, (SystemShutdown, P)>((SystemShutdown, task))
                && final(self).processes() == old(self).processes(),
    {
        if alive {
            Ok(self.add_task(task))
        } else {
            Err((SystemShutdown, task))
        }
    }

    /// Create a new reference to this actor system, for the process `pid`.
    pub fn create_ref(&self, pid: ProcessId) -> (r: ActorSystemRef)
        ensures
            r.pid == pid,
            r.connected,
            r.deadlines@ == Seq::<(Timestamp, ProcessId)>::empty(),
    {
        ActorSystemRef::new(pid, self.system_ref.clock.clone())
    }

    /// A waker for the process `pid` of this system.
    pub fn waker(&self, pid: ProcessId) -> (r: Waker)
        ensures
            r.spec_pid() == pid,
    {
        new_waker(pid, clone_notifier(&self.notifier))
    }

    /// The present point on the system's clock.
    pub fn now(&self) -> (r: Timestamp) {
        self.system_ref.clock.now()
    }

    /// Whether the system holds no process.
    pub fn is_empty(&self) -> (r: bool)
        requires
            self.wf(),
        ensures
            r == (forall|pid: ProcessId| !self.processes().contains_key(pid)),
    {
        assert(self.processes() == self.scheduler@);
        self.scheduler.is_empty()
    }

    /// Whether some process is ready.
    pub fn has_ready(&self) -> (r: bool)
        requires
            self.wf(),
        ensures
            r == (exists|pid: ProcessId| is_ready(self.processes(), pid)),
    {
        assert(self.processes() == self.scheduler@);
        self.scheduler.has_ready()
    }

    /// The state of `pid`, if the system knows it.
    pub fn state(&self, pid: ProcessId) -> (r: Option<ProcessState>)
        requires
            self.wf(),
        ensures
            r == if self.processes().contains_key(pid) {
                Some(self.processes()[pid].state)
            } else {
                None
            },
    {
        self.scheduler.state(pid)
    }

    /// The runtime that `pid` has accumulated, if the system knows it.
    pub fn runtime(&self, pid: ProcessId) -> (r: Option<Span>)
        requires
            self.wf(),
        ensures
            r == if self.processes().contains_key(pid) {
                Some(self.processes()[pid].runtime)
            } else {
                None
            },
    {
        self.scheduler.runtime(pid)
    }

    /// The earliest deadline that a process waits for, if any.
    pub fn next_deadline(&self) -> (r: Option<(Timestamp, ProcessId)>)
        requires
            self.wf(),
        ensures
            r.is_none() <==> self.deadlines() == Set::<(Timestamp, ProcessId)>::empty(),
            r matches Some(d) ==> crate::timers::is_earliest(self.deadlines(), d),
    {
        self.timers.next_deadline()
    }

    /// Takes the deadline of `pid` at `deadline` out of the registry, and
    /// tells whether it was there.
    pub fn remove_deadline(&mut self, pid: ProcessId, deadline: Timestamp) -> (r: bool)
        requires
            old(self).wf(),
        ensures
            final(self).wf(),
            r == old(self).deadlines().contains((deadline, pid)),
            final(self).deadlines() == old(self).deadlines().remove((deadline, pid)),
            final(self).processes() == old(self).processes(),
            final(self).has_sources() == old(self).has_sources(),
    {
        self.timers.remove(pid, deadline)
    }

    /// Registers that `pid` wants to be woken at `deadline`.
    pub fn add_deadline(&mut self, pid: ProcessId, deadline: Timestamp)
        requires
            old(self).wf(),
        ensures
            final(self).wf(),
            final(self).deadlines() == old(self).deadlines().insert((deadline, pid)),
            final(self).processes() == old(self).processes(),
            final(self).has_sources() == old(self).has_sources(),
    {
        self.timers.add(pid, deadline);
    }

    /// How long the worker may wait for outside events at `now`: not at
    /// all while a process is ready or nothing outside can wake it.
    pub fn poll_timeout(&self, now: Timestamp) -> (r: Option<Span>)
        requires
            self.wf(),
        ensures
            (exists|pid: ProcessId| is_ready(self.processes(), pid)) || !self.has_sources() ==> r
                == Some(Span(0)),
            !(exists|pid: ProcessId| is_ready(self.processes(), pid)) && self.has_sources() ==> {
                &&& r.is_none() <==> self.deadlines() == Set::<(Timestamp, ProcessId)>::empty()
                &&& r matches Some(span) ==> exists|d: (Timestamp, ProcessId)|
                    crate::timers::is_earliest(self.deadlines(), d) && span == time_until(d.0, now)
            },
            is_timeout(self.processes(), self.has_sources(), self.deadlines(), now, r),
    {
        assert(self.processes() == self.scheduler@);
        assert(self.deadlines() == self.timers@);
        let next = match self.timers.next_deadline() {
            Some(d) => Some(d.0),
            None => None,
        };
        poll_timeout_for(self.scheduler.has_ready(), self.has_initiators, next, now)
    }

    /// Wakes `pid`: a wake for a process that the system does not know is
    /// discarded.
    pub fn mark_ready(&mut self, pid: ProcessId)
        requires
            old(self).wf(),
        ensures
            final(self).wf(),
            final(self).processes() == crate::scheduler::marked_ready(old(self).processes(), pid),
            final(self).deadlines() == old(self).deadlines(),
            final(self).has_sources() == old(self).has_sources(),
    {
        proof {
            lemma_mark_ready_wakes(self.processes(), pid);
            lemma_wakes_hand_none_out(
                self.processes(),
                crate::scheduler::marked_ready(self.processes(), pid),
            );
        }
        self.scheduler.mark_ready(pid);
    }

    /// Takes the wakes that are in the wake channel and wakes their
    /// processes. Wakes that arrive meanwhile wait for the next turn.
    pub fn drain_wakes(&mut self)
        requires
            old(self).wf(),
        ensures
            final(self).wf(),
            only_wakes(old(self).processes(), final(self).processes()),
            final(self).deadlines() == old(self).deadlines(),
            final(self).has_sources() == old(self).has_sources(),
    {
        let pending: usize = pending_notifications(&self.waker_notifications);
        let mut taken: usize = 0;
        while taken < pending
            invariant
                self.wf(),
                only_wakes(old(self).processes(), self.processes()),
                self.deadlines() == old(self).deadlines(),
                self.has_sources() == old(self).has_sources(),
            decreases pending - taken,
        {
            match next_notification(&self.waker_notifications) {
                None => {
                    break ;
                },
                Some(pid) => {
                    proof {
                        lemma_mark_ready_wakes(self.processes(), ProcessId(pid));
                        lemma_only_wakes_transitive(
                            old(self).processes(),
                            self.processes(),
                            crate::scheduler::marked_ready(self.processes(), ProcessId(pid)),
                        );
                        lemma_wakes_hand_none_out(
                            self.processes(),
                            crate::scheduler::marked_ready(self.processes(), ProcessId(pid)),
                        );
                    }
                    self.scheduler.mark_ready(ProcessId(pid));
                },
            }
            taken = taken + 1;
        }
    }

    /// Wakes the processes that the events `events` are for.
    pub fn schedule_events(&mut self, events: &Vec<ProcessId>)
        requires
            old(self).wf(),
        ensures
            final(self).wf(),
            only_wakes(old(self).processes(), final(self).processes()),
            forall|i: int| 0 <= i < events@.len() ==> is_woken(final(self).processes(), events@[i]),
            final(self).deadlines() == old(self).deadlines(),
            final(self).has_sources() == old(self).has_sources(),
    {
        let mut i: usize = 0;
        while i < events.len()
            invariant
                i <= events@.len(),
                self.wf(),
                only_wakes(old(self).processes(), self.processes()),
                forall|j: int| 0 <= j < i ==> is_woken(self.processes(), events@[j]),
                self.deadlines() == old(self).deadlines(),
                self.has_sources() == old(self).has_sources(),
            decreases events@.len() - i,
        {
            let pid = events[i];
            let ghost before = self.processes();
            proof {
                lemma_mark_ready_wakes(before, pid);
                lemma_only_wakes_transitive(
                    old(self).processes(),
                    before,
                    crate::scheduler::marked_ready(before, pid),
                );
                lemma_wakes_hand_none_out(before, crate::scheduler::marked_ready(before, pid));
            }
            self.scheduler.mark_ready(pid);
            proof {
                assert forall|j: int| 0 <= j < i + 1 implies is_woken(
                    self.processes(),
                    events@[j],
                ) by {
                    if j < i {
                        lemma_woken_stays(before, self.processes(), events@[j]);
                    }
                }
            }
            i = i + 1;
        }
    }

    /// Takes out the deadlines that have passed at `now` and wakes the
    /// processes that wait for them.
    pub fn expire_deadlines(&mut self, now: Timestamp)
        requires
            old(self).wf(),
        ensures
            final(self).wf(),
            only_wakes(old(self).processes(), final(self).processes()),
            forall|d: (Timestamp, ProcessId)|
                final(self).deadlines().contains(d) <==> old(self).deadlines().contains(d) && d.0@
                    > now@,
            forall|d: (Timestamp, ProcessId)| #[trigger]
                old(self).deadlines().contains(d) && d.0@ <= now@ ==> is_woken(
                    final(self).processes(),
                    d.1,
                ),
            final(self).has_sources() == old(self).has_sources(),
    {
        loop
            invariant
                self.wf(),
                only_wakes(old(self).processes(), self.processes()),
                forall|d: (Timestamp, ProcessId)|
                    self.deadlines().contains(d) ==> old(self).deadlines().contains(d),
                forall|d: (Timestamp, ProcessId)|
                    old(self).deadlines().contains(d) && d.0@ > now@ ==> self.deadlines().contains(
                        d,
                    ),
                forall|d: (Timestamp, ProcessId)| #[trigger]
                    old(self).deadlines().contains(d) && !self.deadlines().contains(d) ==> is_woken(
                        self.processes(),
                        d.1,
                    ),
                self.has_sources() == old(self).has_sources(),
            ensures
                forall|d: (Timestamp, ProcessId)| #[trigger]
                    self.deadlines().contains(d) ==> d.0@ > now@,
            decreases self.timers.size(),
        {
            let ghost before = self.processes();
            let ghost held = self.deadlines();
            match self.timers.pop_expired(now) {
                None => {
                    break ;
                },
                Some(d) => {
                    proof {
                        lemma_mark_ready_wakes(before, d.1);
                        lemma_only_wakes_transitive(
                            old(self).processes(),
                            before,
                            crate::scheduler::marked_ready(before, d.1),
                        );
                        lemma_wakes_hand_none_out(before, crate::scheduler::marked_ready(before, d.1));
                    }
                    self.scheduler.mark_ready(d.1);
                    proof {
                        assert forall|e: (Timestamp, ProcessId)| #[trigger]
                            old(self).deadlines().contains(e) && !self.deadlines().contains(
                                e,
                            ) implies is_woken(self.processes(), e.1) by {
                            if e != d {
                                assert(!held.contains(e));
                                lemma_woken_stays(before, self.processes(), e.1);
                            }
                        }
                    }
                },
            }
        }
    }
}

/// What one step of the process `pid` may have made of `before`: nothing
/// has happened to any other process, and `pid` itself is gone or waits
/// again, with its priority and with no less runtime than it had.
pub open spec fn stepped<P>(
    before: Map<ProcessId, Entry<P>>,
    after: Map<ProcessId, Entry<P>>,
    pid: ProcessId,
) -> bool {
    &&& forall|q: ProcessId|
        q != pid ==> (#[trigger] after.contains_key(q) <==> before.contains_key(q))
    &&& forall|q: ProcessId|
        q != pid && #[trigger] before.contains_key(q) ==> after[q] == before[q]
    &&& after.contains_key(pid) ==> {
        &&& after[pid].priority == before[pid].priority
        &&& after[pid].runtime@ >= before[pid].runtime@
        &&& (after[pid].state == ProcessState::Ready || after[pid].state
            == ProcessState::Inactive)
    }
}

/// Moves the deadlines that were asked for into the registry.
fn register_all(timers: &mut DeadlineRegistry, requested: &mut Vec<(Timestamp, ProcessId)>)
    requires
        old(timers).wf(),
    ensures
        final(timers).wf(),
        final(requested)@.len() == 0,
        forall|d: (Timestamp, ProcessId)|
            final(timers)@.contains(d) <==> old(timers)@.contains(d) || old(requested)@.contains(d),
{
    loop
        invariant
            timers.wf(),
            requested@.len() <= old(requested)@.len(),
            forall|i: int| 0 <= i < requested@.len() ==> requested@[i] == old(requested)@[i],
            forall|d: (Timestamp, ProcessId)|
                timers@.contains(d) <==> old(timers)@.contains(d) || exists|i: int|
                    requested@.len() <= i < old(requested)@.len() && old(requested)@[i] == d,
        ensures
            requested@.len() == 0,
        decreases requested@.len(),
    {
        let ghost n = requested@.len();
        let ghost held = timers@;
        match requested.pop() {
            None => {
                break ;
            },
            Some(d) => {
                timers.add(d.1, d.0);
                proof {
                    assert forall|e: (Timestamp, ProcessId)| timers@.contains(e) <==> old(
                        timers,
                    )@.contains(e) || exists|i: int|
                        requested@.len() <= i < old(requested)@.len() && old(requested)@[i]
                            == e by {
                        if held.contains(e) && !old(timers)@.contains(e) {
                            let i = choose|i: int|
                                n <= i < old(requested)@.len() && old(requested)@[i] == e;
                            assert(requested@.len() <= i);
                        }
                        if e == d {
                            assert(old(requested)@[n - 1] == d);
                        }
                        if exists|i: int|
                            requested@.len() <= i < old(requested)@.len() && old(requested)@[i]
                                == e {
                            let i = choose|i: int|
                                requested@.len() <= i < old(requested)@.len() && old(
                                    requested,
                                )@[i] == e;
                            if i != n - 1 {
                                assert(n <= i);
                            }
                        }
                    }
                }
            },
        }
    }
    proof {
        assert forall|d: (Timestamp, ProcessId)| old(requested)@.contains(d) implies timers@.contains(
            d,
        ) by {
            let i = choose|i: int| 0 <= i < old(requested)@.len() && old(requested)@[i] == d;
            assert(requested@.len() <= i);
        }
    }
}

/// Takes the deadlines that were given up out of the registry.
fn remove_all(timers: &mut DeadlineRegistry, cancelled: &mut Vec<(Timestamp, ProcessId)>)
    requires
        old(timers).wf(),
    ensures
        final(timers).wf(),
        final(cancelled)@.len() == 0,
        forall|d: (Timestamp, ProcessId)|
            final(timers)@.contains(d) <==> old(timers)@.contains(d) && !old(cancelled)@.contains(
                d,
            ),
{
    loop
        invariant
            timers.wf(),
            cancelled@.len() <= old(cancelled)@.len(),
            forall|i: int| 0 <= i < cancelled@.len() ==> cancelled@[i] == old(cancelled)@[i],
            forall|d: (Timestamp, ProcessId)|
                timers@.contains(d) <==> old(timers)@.contains(d) && !(exists|i: int|
                    cancelled@.len() <= i < old(cancelled)@.len() && old(cancelled)@[i] == d),
        ensures
            cancelled@.len() == 0,
        decreases cancelled@.len(),
    {
        let ghost n = cancelled@.len();
        let ghost held = timers@;
        match cancelled.pop() {
            None => {
                break ;
            },
            Some(d) => {
                let _ = timers.remove(d.1, d.0);
                proof {
                    assert(old(cancelled)@[n - 1] == d);
                    assert forall|e: (Timestamp, ProcessId)| timers@.contains(e) <==> old(
                        timers,
                    )@.contains(e) && !(exists|i: int|
                        cancelled@.len() <= i < old(cancelled)@.len() && old(cancelled)@[i]
                            == e) by {
                        if exists|i: int|
                            n <= i < old(cancelled)@.len() && old(cancelled)@[i] == e {
                            let i = choose|i: int|
                                n <= i < old(cancelled)@.len() && old(cancelled)@[i] == e;
                            assert(cancelled@.len() <= i);
                        }
                        if exists|i: int|
                            cancelled@.len() <= i < old(cancelled)@.len() && old(cancelled)@[i]
                                == e {
                            let i = choose|i: int|
                                cancelled@.len() <= i < old(cancelled)@.len() && old(
                                    cancelled,
                                )@[i] == e;
                            if i != n - 1 {
                                assert(n <= i);
                            }
                        }
                    }
                }
            },
        }
    }
    proof {
        assert forall|d: (Timestamp, ProcessId)| timers@.contains(d) <==> old(timers)@.contains(d)
            && !old(cancelled)@.contains(d) by {
            if old(cancelled)@.contains(d) {
                let i = choose|i: int| 0 <= i < old(cancelled)@.len() && old(cancelled)@[i] == d;
                assert(cancelled@.len() <= i);
            }
        }
    }
}

impl<P: Process> ActorSystem<P> {
    /// What the worker does once the events of a poll are in: it wakes the
    /// processes that the events are for, those that wakers have notified,
    /// and those whose deadline has passed at `now`.
    pub fn schedule_processes(&mut self, events: &Vec<ProcessId>, now: Timestamp)
        requires
            old(self).wf(),
        ensures
            final(self).wf(),
            only_wakes(old(self).processes(), final(self).processes()),
            forall|i: int| 0 <= i < events@.len() ==> is_woken(final(self).processes(), events@[i]),
            forall|d: (Timestamp, ProcessId)|
                final(self).deadlines().contains(d) <==> old(self).deadlines().contains(d) && d.0@
                    > now@,
            forall|d: (Timestamp, ProcessId)| #[trigger]
                old(self).deadlines().contains(d) && d.0@ <= now@ ==> is_woken(
                    final(self).processes(),
                    d.1,
                ),
            final(self).has_sources() == old(self).has_sources(),
            scheduled(
                old(self).processes(),
                final(self).processes(),
                events@,
                old(self).deadlines(),
                now,
            ),
    {
        self.schedule_events(events);
        let ghost first = self.processes();
        self.drain_wakes();
        let ghost second = self.processes();
        self.expire_deadlines(now);
        proof {
            lemma_only_wakes_transitive(old(self).processes(), first, second);
            lemma_only_wakes_transitive(old(self).processes(), second, self.processes());
            lemma_only_wakes_transitive(first, second, self.processes());
            assert forall|i: int| 0 <= i < events@.len() implies is_woken(
                self.processes(),
                events@[i],
            ) by {
                lemma_woken_stays(first, self.processes(), events@[i]);
            }
        }
    }

    /// What the worker does before it waits for outside events: it takes
    /// the wakes that have come, and says how long it may wait at `now`.
    /// It does not wait at all while a process is ready.
    pub fn prepare_poll(&mut self, now: Timestamp) -> (r: Option<Span>)
        requires
            old(self).wf(),
        ensures
            final(self).wf(),
            only_wakes(old(self).processes(), final(self).processes()),
            final(self).deadlines() == old(self).deadlines(),
            final(self).has_sources() == old(self).has_sources(),
            (exists|pid: ProcessId| is_ready(final(self).processes(), pid)) ==> r == Some(Span(0)),
            !final(self).has_sources() ==> r == Some(Span(0)),
            is_timeout(
                final(self).processes(),
                final(self).has_sources(),
                final(self).deadlines(),
                now,
                r,
            ),
    {
        self.drain_wakes();
        self.poll_timeout(now)
    }

    /// One turn of the worker's loop after the poll: the processes that the
    /// events, the wakers and the deadlines are for are woken, and then, if
    /// any process is ready, the one chosen before all others runs a step.
    pub fn run_turn(&mut self, events: &Vec<ProcessId>, now: Timestamp) -> (r: LoopAction)
        requires
            old(self).wf(),
        ensures
            final(self).wf(),
            final(self).has_sources() == old(self).has_sources(),
            (exists|pid: ProcessId| is_ready(old(self).processes(), pid)) ==> r is Stepped,
            r == LoopAction::Terminate ==> !old(self).has_sources() && (forall|pid: ProcessId|
                !old(self).processes().contains_key(pid)),
            exists|woken: Map<ProcessId, Entry<P>>|
                {
                    &&& #[trigger] scheduled(
                        old(self).processes(),
                        woken,
                        events@,
                        old(self).deadlines(),
                        now,
                    )
                    &&& ran(woken, final(self).processes(), old(self).has_sources(), r)
                },
            r matches LoopAction::Stepped(pid) ==> old(self).processes().contains_key(pid),
            !(r is Stepped) ==> only_wakes(old(self).processes(), final(self).processes()) && (
            forall|d: (Timestamp, ProcessId)|
                final(self).deadlines().contains(d) <==> old(self).deadlines().contains(d) && d.0@
                    > now@),
    {
        self.schedule_processes(events, now);
        let ghost woken = self.processes();
        proof {
            if exists|pid: ProcessId| is_ready(old(self).processes(), pid) {
                let pid = choose|pid: ProcessId| is_ready(old(self).processes(), pid);
                assert(crate::scheduler::woke_entry(
                    old(self).processes()[pid],
                    self.processes()[pid],
                ));
                assert(is_ready(self.processes(), pid));
            }
        }
        let r = self.run_next();
        proof {
            assert(scheduled(old(self).processes(), woken, events@, old(self).deadlines(), now));
            assert(ran(woken, self.processes(), old(self).has_sources(), r));
        }
        r
    }

    /// One turn of running: if a process is ready, the one that is chosen
    /// before all others runs one step, the time of the step is added to
    /// its runtime, the deadlines it asked for are registered and those it
    /// gave up are taken out, and it goes back to wait, ready, or is
    /// dropped. If none is ready nothing is
    /// run: the worker is done when no process is left and nothing outside
    /// can bring one, and idle otherwise.
    pub fn run_next(&mut self) -> (r: LoopAction)
        requires
            old(self).wf(),
        ensures
            final(self).wf(),
            final(self).has_sources() == old(self).has_sources(),
            (exists|pid: ProcessId| is_ready(old(self).processes(), pid)) <==> r is Stepped,
            r matches LoopAction::Stepped(pid) ==> is_best_ready(old(self).processes(), pid)
                && stepped(old(self).processes(), final(self).processes(), pid),
            r == LoopAction::Terminate <==> !(r is Stepped) && !old(self).has_sources() && (forall|
                pid: ProcessId,
            |
                !old(self).processes().contains_key(pid)),
            !(r is Stepped) ==> final(self).processes() == old(self).processes()
                && final(self).deadlines() == old(self).deadlines(),
            ran(old(self).processes(), final(self).processes(), old(self).has_sources(), r),
    {
        let ghost m0 = self.processes();
        assert(m0 == self.scheduler@);
        let next = self.scheduler.next_ready();
        let record = match next {
            None => {
                assert(!exists|pid: ProcessId| is_ready(m0, pid)) by {
                    assert forall|pid: ProcessId| !is_ready(m0, pid) by {
                        assert(!is_running(m0, pid));
                    }
                }
                if !self.has_initiators && self.scheduler.is_empty() {
                    return LoopAction::Terminate;
                } else {
                    return LoopAction::Idle;
                }
            },
            Some(record) => record,
        };
        let pid = record.id;
        let ghost m1 = self.scheduler@;
        assert(is_ready(m0, pid));
        let mut taken = record;
        self.system_ref.serve(pid);
        let start = self.system_ref.now();
        let outcome = taken.payload.step(&mut self.system_ref);
        let end = self.system_ref.now();
        let duration = end.saturating_since(start);
        register_all(&mut self.timers, &mut self.system_ref.deadlines);
        remove_all(&mut self.timers, &mut self.system_ref.cancelled);
        assert(is_running(m1, pid));
        let ghost payload = taken.payload;
        let taken_back = self.scheduler.finish_step(taken, outcome, duration);
        proof {
            let m2 = self.scheduler@;
            assert(taken_back.is_ok());
            assert(step_finished(m1, m2, pid, payload, outcome, duration));
            assert(stepped(m0, m2, pid)) by {
                assert forall|q: ProcessId| q != pid implies (#[trigger] m2.contains_key(q)
                    <==> m0.contains_key(q)) by {
                    assert(m1.contains_key(q) <==> m0.contains_key(q));
                }
                assert forall|q: ProcessId| q != pid && #[trigger] m0.contains_key(q) implies m2[q]
                    == m0[q] by {
                    assert(m1[q] == m0[q]);
                }
            }
            assert forall|q: ProcessId| !(#[trigger] is_running(m2, q)) by {
                if q != pid && m2.contains_key(q) {
                    assert(m0.contains_key(q));
                    assert(!is_running(m0, q));
                    assert(m2[q] == m0[q]);
                }
            }
        }
        LoopAction::Stepped(pid)
    }
}

impl<S: Supervisor<NA>, NA: NewActor> ActorSystem<ActorProcess<S, NA>> {
    /// Add a new actor to the system: makes its inbox, makes the actor
    /// from `arg`, and adds its process with the priority of `options`,
    /// ready or waiting for its first wake as `options` say. The waker
    /// `inbox_waker`, if there is one, is called when a message comes into
    /// the inbox after the actor found it empty. Returns the identifier of
    /// the process and a reference to the actor. If making the actor fails
    /// nothing is added and the error is returned.
    pub fn add_actor(
        &mut self,
        supervisor: S,
        new_actor: NA,
        arg: NA::Argument,
        options: ActorOptions,
        inbox_waker: Option<std::task::Waker>,
    ) -> (r: Result<(ProcessId, ActorRef<NA::Message>), NA::Error>)
        requires
            old(self).wf(),
        ensures
            final(self).wf(),
            final(self).deadlines() == old(self).deadlines(),
            final(self).has_sources() == old(self).has_sources(),
            r.is_err() ==> final(self).processes() == old(self).processes(),
            r matches Ok(added) ==> {
                &&& added.0.0 != 0
                &&& !old(self).processes().contains_key(added.0)
                &&& forall|q: ProcessId|
                    0 < q.0 < added.0.0 ==> old(self).processes().contains_key(q)
                &&& crate::scheduler::added(
                    old(self).processes(),
                    final(self).processes(),
                    added.0,
                    options.priority,
                    options.ready_on_spawn,
                )
            },
    {
        let mut factory = new_actor;
        let made = factory.new(arg);
        let inbox = new_inbox(options.inbox_capacity);
        match self.add_made_actor(supervisor, factory, made, options, inbox_waker, inbox) {
            Ok(added) => Ok(added),
            Err(refused) => Err(refused.0),
        }
    }

    /// Adds an actor on behalf of a reference to the system, which is
    /// alive if a worker stands behind it. Through a reference that is not
    /// alive nothing is made or added: the factory comes back with the
    /// error. Through one that is alive the actor is added as `add_actor`
    /// adds it.
    pub fn spawn_actor(
        &mut self,
        alive: bool,
        supervisor: S,
        new_actor: NA,
        arg: NA::Argument,
        options: ActorOptions,
        inbox_waker: Option<std::task::Waker>,
    ) -> (r: Result<Result<(ProcessId, ActorRef<NA::Message>), NA::Error>, AddActorError<NA>>)
        requires
            old(self).wf(),
        ensures
            final(self).wf(),
            final(self).deadlines() == old(self).deadlines(),
            final(self).has_sources() == old(self).has_sources(),
            r.is_ok() == alive,
            r matches Err(error) ==> error.actor == new_actor && error.reason
                == AddActorErrorReason::SystemShutdown && final(self).processes() == old(
                self,
            ).processes(),
            r matches Ok(Err(_)) ==> final(self).processes() == old(self).processes(),
            r matches Ok(Ok(added)) ==> crate::scheduler::added(
                old(self).processes(),
                final(self).processes(),
                added.0,
                options.priority,
                options.ready_on_spawn,
            ),
    {
        if alive {
            Ok(self.add_actor(supervisor, new_actor, arg, options, inbox_waker))
        } else {
            Err(AddActorError::new(new_actor, AddActorErrorReason::SystemShutdown))
        }
    }

    /// Adds the process of an actor, given what making the actor came to
    /// and the two sides of its inbox. If making it failed, nothing is
    /// added, and the error is handed on with the inbox. Else the process
    /// is added: it holds the actor, the factory, the supervisor and the
    /// waker as they were given, receives from the receiving side that was
    /// given, has the priority of `options`, and is ready or waits for its
    /// first wake as `options` say. The reference returned is the sending
    /// side that was given with that receiving side.
    pub fn add_made_actor(
        &mut self,
        supervisor: S,
        new_actor: NA,
        made: Result<NA::Actor, NA::Error>,
        options: ActorOptions,
        inbox_waker: Option<std::task::Waker>,
        inbox: (ActorRef<NA::Message>, heph_inbox::Receiver<NA::Message>),
    ) -> (r: Result<
        (ProcessId, ActorRef<NA::Message>),
        (NA::Error, (ActorRef<NA::Message>, heph_inbox::Receiver<NA::Message>)),
    >)
        requires
            old(self).wf(),
        ensures
            final(self).wf(),
            final(self).deadlines() == old(self).deadlines(),
            final(self).has_sources() == old(self).has_sources(),
            made matches Err(error) ==> {
                &&& r matches Err(refused)
                &&& refused.0 == error
                &&& refused.1 == inbox
                &&& final(self).processes() == old(self).processes()
            },
            made matches Ok(actor) ==> {
                &&& r matches Ok(added)
                &&& added.1 == inbox.0
                &&& final(self).processes()[added.0].payload->0.ctx.inbox == inbox.1
                &&& added.0.0 != 0
                &&& !old(self).processes().contains_key(added.0)
                &&& forall|q: ProcessId|
                    0 < q.0 < added.0.0 ==> old(self).processes().contains_key(q)
                &&& crate::scheduler::added(
                    old(self).processes(),
                    final(self).processes(),
                    added.0,
                    options.priority,
                    options.ready_on_spawn,
                )
                &&& holds_actor(
                    final(self).processes()[added.0].payload->0,
                    supervisor,
                    new_actor,
                    actor,
                    inbox_waker,
                )
            },
    {
        let actor = match made {
            Ok(actor) => actor,
            Err(error) => {
                return Err((error, inbox));
            },
        };
        let (actor_ref, receiver) = inbox;
        let mut ctx = Context::new(receiver, self.create_ref(ProcessId(0)));
        match inbox_waker {
            Some(waker) => {
                ctx.set_waker(waker);
            },
            None => {},
        }
        let process = ActorProcess::new(supervisor, new_actor, actor, ctx);
        let pid = self.add_process(options.priority, process, options.ready_on_spawn);
        assert(self.processes().remove(pid) =~= old(self).processes());
        Ok((pid, actor_ref))
    }
}

/// Whether `process` is the process of `actor` as it is added: it drives
/// the actor, makes it anew with `new_actor`, is supervised by
/// `supervisor`, and has `waker` for the waker of its inbox.
pub open spec fn holds_actor<S, NA: NewActor>(
    process: ActorProcess<S, NA>,
    supervisor: S,
    new_actor: NA,
    actor: NA::Actor,
    waker: Option<std::task::Waker>,
) -> bool {
    &&& process.supervisor == supervisor
    &&& process.new_actor == new_actor
    &&& process.state == crate::actor_process::ActorState::<NA::Actor, NA::Argument>::Running(
        actor,
    )
    &&& process.ctx.waker == waker
}

/// Whether `timeout` is how long a worker with the processes `processes`
/// and the deadlines `deadlines` may wait for outside events at `now`: not
/// at all while a process is ready or nothing outside can wake it, else
/// until the earliest deadline, and without end if there is none.
pub open spec fn is_timeout<P>(
    processes: Map<ProcessId, Entry<P>>,
    has_sources: bool,
    deadlines: Set<(Timestamp, ProcessId)>,
    now: Timestamp,
    timeout: Option<Span>,
) -> bool {
    if (exists|pid: ProcessId| is_ready(processes, pid)) || !has_sources {
        timeout == Some(Span(0))
    } else if deadlines == Set::<(Timestamp, ProcessId)>::empty() {
        timeout.is_none()
    } else {
        timeout matches Some(span) && exists|d: (Timestamp, ProcessId)|
            crate::timers::is_earliest(deadlines, d) && span == time_until(d.0, now)
    }
}

/// Whether `after` is what the events `events`, some wakes, and the
/// deadlines of `held` that have passed at `now` may have made of `before`:
/// nothing has happened but wakes, and the processes that the events and
/// those deadlines are for are woken.
pub open spec fn scheduled<P>(
    before: Map<ProcessId, Entry<P>>,
    after: Map<ProcessId, Entry<P>>,
    events: Seq<ProcessId>,
    held: Set<(Timestamp, ProcessId)>,
    now: Timestamp,
) -> bool {
    &&& only_wakes(before, after)
    &&& forall|i: int| 0 <= i < events.len() ==> is_woken(after, #[trigger] events[i])
    &&& forall|d: (Timestamp, ProcessId)| #[trigger]
        held.contains(d) && d.0@ <= now@ ==> is_woken(after, d.1)
}

/// Whether `action` is what one turn of running does on `before`, and
/// `after` what it may leave: the best ready process is stepped if one is
/// ready; else nothing changes, and the worker is done exactly if no
/// process is left and nothing outside can bring one.
pub open spec fn ran<P>(
    before: Map<ProcessId, Entry<P>>,
    after: Map<ProcessId, Entry<P>>,
    has_sources: bool,
    action: LoopAction,
) -> bool {
    &&& (exists|pid: ProcessId| is_ready(before, pid)) <==> action is Stepped
    &&& action matches LoopAction::Stepped(pid) ==> is_best_ready(before, pid) && stepped(
        before,
        after,
        pid,
    )
    &&& action == LoopAction::Terminate <==> !(action is Stepped) && !has_sources && (forall|
        pid: ProcessId,
    |
        !before.contains_key(pid))
    &&& !(action is Stepped) ==> after == before
}

} // verus!
