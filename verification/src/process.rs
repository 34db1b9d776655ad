//! The scheduler's record of a process, and the order in which records are
//! chosen.

use crate::heap::{key_before, key_lt, Key};
use crate::pid::ProcessId;
use crate::priority::{fair_runtime, rank_of, Priority};
use crate::system_ref::ActorSystemRef;
use crate::time::{saturating_sum, Span};
use core::cmp::Ordering;
use vstd::prelude::*;
use vstd::std_specs::cmp::PartialEqSpecImpl;

verus! {

/// Where a process stands with its scheduler.
#[derive(Clone, Copy, Debug, PartialEq, Eq, Structural)]
pub enum ProcessState {
    /// Known to the scheduler but not waiting to run.
    Inactive,
    /// Waiting to run.
    Ready,
    /// Handed out to the worker, which is running one step of it.
    Running,
    /// Running for the last time: dropped when the step returns.
    Terminating,
}

/// What running a process once leaves to do.
#[derive(Clone, Copy, Debug, PartialEq, Eq, Structural)]
pub enum ProcessResult {
    /// The process can make no progress now and must be run again later.
    Pending,
    /// The process is finished and must not be run again.
    Complete,
}

/// How one step of a computation ended.
#[derive(Debug, PartialEq, Eq)]
pub enum StepOutcome<E> {
    /// Suspended: no progress can be made now.
    Pending,
    /// Returned normally.
    Complete,
    /// Returned with an error.
    Failed(E),
}

/// The key by which a process with these attributes is ordered: weighted
/// runtime first, then priority from high to low, then identifier.
pub open spec fn order_key(id: ProcessId, priority: Priority, runtime: Span) -> Key {
    Key {
        major: fair_runtime(runtime@, priority) as u128,
        minor: (2 - rank_of(priority)) as u8,
        pid: id.0,
    }
}

/// A process with the first key is chosen before one with the second.
pub open spec fn chosen_before(a: Key, b: Key) -> bool {
    key_lt(a, b)
}

/// A process as its scheduler holds it: identity, priority, accumulated
/// runtime and the computation `P` itself.
#[derive(Debug)]
pub struct ProcessRecord<P> {
    pub id: ProcessId,
    pub priority: Priority,
    pub runtime: Span,
    pub payload: P,
}

impl<P> ProcessRecord<P> {
    /// The key by which this record is ordered.
    pub open spec fn spec_key(&self) -> Key {
        order_key(self.id, self.priority, self.runtime)
    }

    /// A record of the given attributes.
    pub fn new(id: ProcessId, priority: Priority, runtime: Span, payload: P) -> (r: Self)
        ensures
            r.id == id,
            r.priority == priority,
            r.runtime == runtime,
            r.payload == payload,
    {
        ProcessRecord { id, priority, runtime, payload }
    }

    /// The identifier.
    pub fn id(&self) -> (r: ProcessId)
        ensures
            r == self.id,
    {
        self.id
    }

    /// The priority.
    pub fn priority(&self) -> (r: Priority)
        ensures
            r == self.priority,
    {
        self.priority
    }

    /// The runtime accumulated so far.
    pub fn runtime(&self) -> (r: Span)
        ensures
            r == self.runtime,
    {
        self.runtime
    }

    /// The runtime weighted by the priority.
    pub fn fair_runtime(&self) -> (r: u128)
        ensures
            r == fair_runtime(self.runtime@, self.priority),
    {
        self.priority.fair(self.runtime)
    }

    /// The key by which this record is ordered.
    pub fn key(&self) -> (k: Key)
        ensures
            k == self.spec_key(),
    {
        order_key_of(self.id, self.priority, self.runtime)
    }

    /// Compares two records by the order of selection: `Greater` means that
    /// `self` is chosen before `other`. The weighted runtime decides, the
    /// smaller one first; then the priority, the higher one first; then the
    /// identifier, the lower one first.
    pub fn cmp(&self, other: &ProcessRecord<P>) -> (r: Ordering)
        ensures
            r == Ordering::Greater <==> chosen_before(self.spec_key(), other.spec_key()),
            r == Ordering::Less <==> chosen_before(other.spec_key(), self.spec_key()),
            r == Ordering::Equal <==> self.spec_key() == other.spec_key(),
    {
        let a = self.key();
        let b = other.key();
        if key_before(&a, &b) {
            Ordering::Greater
        } else if key_before(&b, &a) {
            Ordering::Less
        } else {
            Ordering::Equal
        }
    }
}

/// The key of a process with these attributes.
pub fn order_key_of(id: ProcessId, priority: Priority, runtime: Span) -> (k: Key)
    ensures
        k == order_key(id, priority, runtime),
{
    let rank: u8 = priority.rank();
    Key { major: priority.fair(runtime), minor: 2 - rank, pid: id.0 }
}

/// Two records are equal when they carry the same identifier.
impl<P> PartialEq for ProcessRecord<P> {
    fn eq(&self, other: &Self) -> (r: bool) {
        self.id == other.id
    }
}

impl<P> PartialEqSpecImpl for ProcessRecord<P> {
    open spec fn obeys_eq_spec() -> bool {
        true
    }

    open spec fn eq_spec(&self, other: &Self) -> bool {
        self.id == other.id
    }
}

/// What became of a process that failed.
#[derive(Clone, Copy, Debug, PartialEq, Eq, Structural)]
pub enum Recovery {
    /// Its computation was made anew: it is ready to run.
    Restarted,
    /// It was stopped for good.
    Stopped,
}

/// What a scheduler asks of the computations it holds, whatever their kind.
pub trait Process {
    /// The error with which a step can fail.
    type Error;

    /// Runs one step, with access to the worker.
    fn step(&mut self, system_ref: &mut ActorSystemRef) -> (r: StepOutcome<Self::Error>);

    /// Handles the failure of a step: consults whoever supervises the
    /// computation and, if so decided, makes it anew.
    fn on_failure(&mut self, error: Self::Error) -> (r: Recovery);
}

impl<P: Process> ProcessRecord<P> {
    /// Runs one step of the process and adds the time it took to the
    /// runtime. A failure is handled at once: the process is complete if
    /// it was stopped, and pending if it was restarted.
    pub fn run(&mut self, system_ref: &mut ActorSystemRef) -> (r: ProcessResult)
        ensures
            final(self).id == old(self).id,
            final(self).priority == old(self).priority,
            final(self).runtime@ >= old(self).runtime@,
    {
        let start = system_ref.now();
        let outcome = self.payload.step(system_ref);
        let end = system_ref.now();
        self.finish_run(outcome, end.saturating_since(start))
    }

    /// Takes a step into account that took `duration` and ended with
    /// `outcome`: the duration is added to the runtime, and what is left
    /// to do is what `settled` says of the outcome. Only for a failure is
    /// the process asked to handle it, and what is left to do is then what
    /// `Recovery::result` says of its answer.
    pub fn finish_run(&mut self, outcome: StepOutcome<P::Error>, duration: Span) -> (r:
        ProcessResult)
        ensures
            final(self).id == old(self).id,
            final(self).priority == old(self).priority,
            final(self).runtime@ == saturating_sum(old(self).runtime@, duration@),
            settled_as(outcome) matches Some(result) ==> r == result && final(self).payload == old(
                self,
            ).payload,
    {
        self.add_runtime(duration);
        match outcome {
            StepOutcome::Failed(error) => self.payload.on_failure(error).result(),
            other => match settled(&other) {
                Some(result) => result,
                None => ProcessResult::Complete,
            },
        }
    }
}

/// What is left to do after a step that ended with `outcome`, as far as
/// the outcome settles it: the process waits for more if it suspended, and
/// is complete if it returned; a failure leaves it to whoever handles it.
pub open spec fn settled_as<E>(outcome: StepOutcome<E>) -> Option<ProcessResult> {
    match outcome {
        StepOutcome::Pending => Some(ProcessResult::Pending),
        StepOutcome::Complete => Some(ProcessResult::Complete),
        StepOutcome::Failed(_) => None,
    }
}

/// What is left to do after a step that ended with `outcome`, as far as
/// the outcome settles it.
pub fn settled<E>(outcome: &StepOutcome<E>) -> (r: Option<ProcessResult>)
    ensures
        r == settled_as(*outcome),
{
    match outcome {
        StepOutcome::Pending => Some(ProcessResult::Pending),
        StepOutcome::Complete => Some(ProcessResult::Complete),
        StepOutcome::Failed(_) => None,
    }
}

impl<P> ProcessRecord<P> {
    /// Adds the time `duration` of a step to the runtime, which is held at
    /// the largest length that can be represented.
    pub fn add_runtime(&mut self, duration: Span)
        ensures
            final(self).runtime@ == saturating_sum(old(self).runtime@, duration@),
            final(self).id == old(self).id,
            final(self).priority == old(self).priority,
            final(self).payload == old(self).payload,
    {
        self.runtime = self.runtime.saturating_add(duration);
    }
}

impl Recovery {
    /// What is left to do with a process that failed and was handled so:
    /// to run it again if it was restarted, nothing if it was stopped.
    pub fn result(self) -> (r: ProcessResult)
        ensures
            r == match self {
                Recovery::Restarted => ProcessResult::Pending,
                Recovery::Stopped => ProcessResult::Complete,
            },
    {
        match self {
            Recovery::Restarted => ProcessResult::Pending,
            Recovery::Stopped => ProcessResult::Complete,
        }
    }
}

} // verus!
