//! The access that a running process has to its worker.

use crate::pid::ProcessId;
use crate::time::{Clock, Timestamp};
use vstd::prelude::*;

verus! {

/// The error of asking something of a worker that has shut down.
#[derive(Copy, Clone, Debug, PartialEq, Eq, Structural)]
pub struct SystemShutdown;

/// A reference to the worker, lent to the process that is running. What
/// the process asks for is collected here and carried out by the worker
/// when the step returns.
pub struct ActorSystemRef {
    /// The process that is running.
    pub pid: ProcessId,
    /// Whether a worker stands behind this reference.
    pub connected: bool,
    /// The deadlines asked for and not yet handed to the worker.
    pub deadlines: Vec<(Timestamp, ProcessId)>,
    /// The deadlines given up and not yet taken out by the worker. They
    /// are taken out after those asked for are registered.
    pub cancelled: Vec<(Timestamp, ProcessId)>,
    /// The worker's clock.
    pub clock: Clock,
}

impl ActorSystemRef {
    /// What `add_deadline` leaves asked for.
    pub open spec fn with_deadline(self, pid: ProcessId, deadline: Timestamp) -> Seq<
        (Timestamp, ProcessId),
    > {
        if self.connected {
            self.deadlines@.push((deadline, pid))
        } else {
            self.deadlines@
        }
    }

    /// What `remove_deadline` leaves given up.
    pub open spec fn without_deadline(self, pid: ProcessId, deadline: Timestamp) -> Seq<
        (Timestamp, ProcessId),
    > {
        if self.connected {
            self.cancelled@.push((deadline, pid))
        } else {
            self.cancelled@
        }
    }

    /// A reference for the process `pid` of a worker with the given clock.
    pub fn new(pid: ProcessId, clock: Clock) -> (r: Self)
        ensures
            r.pid == pid,
            r.connected,
            r.deadlines@ == Seq::<(Timestamp, ProcessId)>::empty(),
            r.cancelled@ == Seq::<(Timestamp, ProcessId)>::empty(),
            r.clock == clock,
    {
        ActorSystemRef {
            pid,
            connected: true,
            deadlines: Vec::new(),
            cancelled: Vec::new(),
            clock,
        }
    }

    /// A reference with no worker behind it, for use in tests: whatever is
    /// asked of it fails with `SystemShutdown`.
    pub fn test_ref() -> (r: Self)
        ensures
            !r.connected,
            r.pid == ProcessId(0),
            r.deadlines@ == Seq::<(Timestamp, ProcessId)>::empty(),
            r.cancelled@ == Seq::<(Timestamp, ProcessId)>::empty(),
    {
        ActorSystemRef {
            pid: ProcessId(0),
            connected: false,
            deadlines: Vec::new(),
            cancelled: Vec::new(),
            clock: Clock::start(),
        }
    }

    /// Makes this the reference of a worker for the process `pid`, which
    /// is about to run: what was asked for and the clock stay.
    pub fn serve(&mut self, pid: ProcessId)
        ensures
            final(self).pid == pid,
            final(self).connected,
            final(self).deadlines == old(self).deadlines,
            final(self).cancelled == old(self).cancelled,
            final(self).clock == old(self).clock,
    {
        self.pid = pid;
        self.connected = true;
    }

    /// The process that is running.
    pub fn pid(&self) -> (r: ProcessId)
        ensures
            r == self.pid,
    {
        self.pid
    }

    /// The present point on the worker's clock.
    pub fn now(&self) -> (r: Timestamp) {
        self.clock.now()
    }

    /// Whether a worker stands behind this reference.
    pub fn status(&self) -> (r: Result<(), SystemShutdown>)
        ensures
            r.is_ok() == self.connected,
    {
        if self.connected {
            Ok(())
        } else {
            Err(SystemShutdown)
        }
    }

    /// Asks the worker to wake `pid` at `deadline`. Fails if no worker
    /// stands behind this reference.
    pub fn add_deadline(&mut self, pid: ProcessId, deadline: Timestamp) -> (r: Result<
        (),
        SystemShutdown,
    >)
        ensures
            r.is_ok() == old(self).connected,
            final(self).deadlines@ == old(self).with_deadline(pid, deadline),
            final(self).cancelled@ == old(self).cancelled@,
            final(self).pid == old(self).pid,
            final(self).connected == old(self).connected,
            final(self).clock == old(self).clock,
            r.is_err() ==> *final(self) == *old(self),
    {
        if self.connected {
            self.deadlines.push((deadline, pid));
            Ok(())
        } else {
            Err(SystemShutdown)
        }
    }

    /// Asks the worker not to wake `pid` at `deadline` after all. Fails if
    /// no worker stands behind this reference.
    pub fn remove_deadline(&mut self, pid: ProcessId, deadline: Timestamp) -> (r: Result<
        (),
        SystemShutdown,
    >)
        ensures
            r.is_ok() == old(self).connected,
            final(self).cancelled@ == old(self).without_deadline(pid, deadline),
            final(self).deadlines@ == old(self).deadlines@,
            final(self).pid == old(self).pid,
            final(self).connected == old(self).connected,
            final(self).clock == old(self).clock,
            r.is_err() ==> *final(self) == *old(self),
    {
        if self.connected {
            self.cancelled.push((deadline, pid));
            Ok(())
        } else {
            Err(SystemShutdown)
        }
    }
}

} // verus!
