//! Time related utilities: a timer, a deadline around another computation,
//! and an interval.
//!
//! Each of them asks the worker for a wake at its deadline. Without a
//! worker behind the reference that cannot be done: none of them is then
//! made, and the caller gets the error.

use crate::actor::context::{Context, Poll};
use crate::pid::ProcessId;
use crate::system_ref::{ActorSystemRef, SystemShutdown};
use crate::time::{saturating_sum, Span, Timestamp};
use vstd::prelude::*;

verus! {

/// Type returned when the deadline has passed.
#[derive(Copy, Clone, Debug, PartialEq, Eq, Structural)]
pub struct DeadlinePassed;

/// Whether the reference `after` is `before` with one wake more asked for,
/// for the process that is running at `deadline`.
pub open spec fn asked_for_wake(
    before: ActorSystemRef,
    after: ActorSystemRef,
    deadline: Timestamp,
) -> bool {
    &&& after.deadlines@ == before.deadlines@.push((deadline, before.pid))
    &&& after.cancelled@ == before.cancelled@
    &&& after.pid == before.pid
    &&& after.connected == before.connected
    &&& after.clock == before.clock
}

/// Whether the reference `after` is `before` with one wake more given up,
/// that of the process `pid` at `deadline`; nothing is given up without a
/// worker.
pub open spec fn gave_up_wake(
    before: ActorSystemRef,
    after: ActorSystemRef,
    pid: ProcessId,
    deadline: Timestamp,
) -> bool {
    &&& after.cancelled@ == before.without_deadline(pid, deadline)
    &&& after.deadlines@ == before.deadlines@
    &&& after.pid == before.pid
    &&& after.connected == before.connected
    &&& after.clock == before.clock
}

/// A timer: it is over once its deadline has passed.
#[derive(Debug)]
pub struct Timer {
    deadline: Timestamp,
}

impl Timer {
    /// The deadline set for this timer.
    pub closed spec fn spec_deadline(&self) -> Timestamp {
        self.deadline
    }

    /// Create a new `Timer`, and ask the worker to wake the actor at the
    /// deadline. Fails, and makes no timer, if no worker stands behind the
    /// context.
    pub fn new<M>(ctx: &mut Context<M, ActorSystemRef>, deadline: Timestamp) -> (r: Result<
        Timer,
        SystemShutdown,
    >)
        ensures
            r.is_ok() == old(ctx).rt.connected,
            r matches Ok(timer) ==> timer.spec_deadline() == deadline && asked_for_wake(
                old(ctx).rt,
                final(ctx).rt,
                deadline,
            ),
            r.is_err() ==> final(ctx).rt == old(ctx).rt,
            final(ctx).inbox == old(ctx).inbox,
            final(ctx).waker == old(ctx).waker,
    {
        let pid = ctx.rt.pid();
        match ctx.rt.add_deadline(pid, deadline) {
            Ok(()) => Ok(Timer { deadline }),
            Err(error) => Err(error),
        }
    }

    /// Create a new timer that is over `timeout` after `now`.
    pub fn timeout_from<M>(
        ctx: &mut Context<M, ActorSystemRef>,
        now: Timestamp,
        timeout: Span,
    ) -> (r: Result<Timer, SystemShutdown>)
        ensures
            r.is_ok() == old(ctx).rt.connected,
            r matches Ok(timer) ==> timer.spec_deadline()@ == saturating_sum(now@, timeout@)
                && asked_for_wake(old(ctx).rt, final(ctx).rt, timer.spec_deadline()),
            r.is_err() ==> final(ctx).rt == old(ctx).rt,
            final(ctx).inbox == old(ctx).inbox,
            final(ctx).waker == old(ctx).waker,
    {
        Timer::new(ctx, now.saturating_add(timeout))
    }

    /// Create a new timer, based on a timeout from the present moment.
    pub fn timeout<M>(ctx: &mut Context<M, ActorSystemRef>, timeout: Span) -> (r: Result<
        Timer,
        SystemShutdown,
    >)
        ensures
            r.is_ok() == old(ctx).rt.connected,
            r matches Ok(timer) ==> timer.spec_deadline()@ >= timeout@ && asked_for_wake(
                old(ctx).rt,
                final(ctx).rt,
                timer.spec_deadline(),
            ),
            r.is_err() ==> final(ctx).rt == old(ctx).rt,
            final(ctx).inbox == old(ctx).inbox,
            final(ctx).waker == old(ctx).waker,
    {
        let now = ctx.rt.now();
        Timer::timeout_from(ctx, now, timeout)
    }

    /// Returns the deadline set for this `Timer`.
    pub fn deadline(&self) -> (r: Timestamp)
        ensures
            r == self.spec_deadline(),
    {
        self.deadline
    }

    /// Gives the timer up: asks the worker not to wake the actor for it.
    /// Fails if no worker stands behind the context.
    pub fn cancel<M>(self, ctx: &mut Context<M, ActorSystemRef>) -> (r: Result<(), SystemShutdown>)
        ensures
            r.is_ok() == old(ctx).rt.connected,
            gave_up_wake(old(ctx).rt, final(ctx).rt, old(ctx).rt.pid, self.spec_deadline()),
            final(ctx).inbox == old(ctx).inbox,
            final(ctx).waker == old(ctx).waker,
    {
        let pid = ctx.rt.pid();
        ctx.rt.remove_deadline(pid, self.deadline)
    }

    /// Whether the deadline has passed at `now`.
    pub fn poll(&self, now: Timestamp) -> (r: Poll<DeadlinePassed>)
        ensures
            r == if self.spec_deadline()@ <= now@ {
                Poll::Ready(DeadlinePassed)
            } else {
                Poll::Pending
            },
    {
        if self.deadline.has_passed(now) {
            Poll::Ready(DeadlinePassed)
        } else {
            Poll::Pending
        }
    }
}

/// A deadline around another computation: once the deadline has passed the
/// computation is given up.
#[derive(Debug)]
pub struct Deadline<Fut> {
    deadline: Timestamp,
    fut: Fut,
}

impl<Fut> Deadline<Fut> {
    /// The deadline set.
    pub closed spec fn spec_deadline(&self) -> Timestamp {
        self.deadline
    }

    /// The computation inside.
    pub closed spec fn spec_inner(&self) -> Fut {
        self.fut
    }

    /// Create a new `Deadline`, and ask the worker to wake the actor at the
    /// deadline. Fails, and hands the computation back, if no worker stands
    /// behind the context.
    pub fn new<M>(ctx: &mut Context<M, ActorSystemRef>, deadline: Timestamp, fut: Fut) -> (r:
        Result<Deadline<Fut>, (SystemShutdown, Fut)>)
        ensures
            r.is_ok() == old(ctx).rt.connected,
            r matches Ok(made) ==> made.spec_deadline() == deadline && made.spec_inner() == fut
                && asked_for_wake(old(ctx).rt, final(ctx).rt, deadline),
            r matches Err(refused) ==> refused.1 == fut && final(ctx).rt == old(ctx).rt,
            final(ctx).inbox == old(ctx).inbox,
            final(ctx).waker == old(ctx).waker,
    {
        let pid = ctx.rt.pid();
        match ctx.rt.add_deadline(pid, deadline) {
            Ok(()) => Ok(Deadline { deadline, fut }),
            Err(error) => Err((error, fut)),
        }
    }

    /// Create a new deadline that passes `timeout` after `now`.
    pub fn timeout_from<M>(
        ctx: &mut Context<M, ActorSystemRef>,
        now: Timestamp,
        timeout: Span,
        fut: Fut,
    ) -> (r: Result<Deadline<Fut>, (SystemShutdown, Fut)>)
        ensures
            r.is_ok() == old(ctx).rt.connected,
            r matches Ok(made) ==> made.spec_deadline()@ == saturating_sum(now@, timeout@)
                && made.spec_inner() == fut && asked_for_wake(
                old(ctx).rt,
                final(ctx).rt,
                made.spec_deadline(),
            ),
            r matches Err(refused) ==> refused.1 == fut && final(ctx).rt == old(ctx).rt,
            final(ctx).inbox == old(ctx).inbox,
            final(ctx).waker == old(ctx).waker,
    {
        Deadline::new(ctx, now.saturating_add(timeout), fut)
    }

    /// Create a new deadline based on a timeout from the present moment.
    pub fn timeout<M>(ctx: &mut Context<M, ActorSystemRef>, timeout: Span, fut: Fut) -> (r:
        Result<Deadline<Fut>, (SystemShutdown, Fut)>)
        ensures
            r.is_ok() == old(ctx).rt.connected,
            r matches Ok(made) ==> made.spec_deadline()@ >= timeout@ && made.spec_inner() == fut
                && asked_for_wake(old(ctx).rt, final(ctx).rt, made.spec_deadline()),
            r matches Err(refused) ==> refused.1 == fut && final(ctx).rt == old(ctx).rt,
            final(ctx).inbox == old(ctx).inbox,
            final(ctx).waker == old(ctx).waker,
    {
        let now = ctx.rt.now();
        Deadline::timeout_from(ctx, now, timeout, fut)
    }

    /// Returns the deadline set for this `Deadline`.
    pub fn deadline(&self) -> (r: Timestamp)
        ensures
            r == self.spec_deadline(),
    {
        self.deadline
    }

    /// The computation inside, to be driven while the deadline has not
    /// passed.
    pub fn get_mut(&mut self) -> (r: &mut Fut)
        ensures
            *r == old(self).spec_inner(),
            final(self).spec_inner() == *final(r),
            final(self).spec_deadline() == old(self).spec_deadline(),
    {
        &mut self.fut
    }

    /// Gives the deadline up: asks the worker not to wake the actor for
    /// it, and hands out the computation inside, with the error if no
    /// worker stands behind the context.
    pub fn cancel<M>(self, ctx: &mut Context<M, ActorSystemRef>) -> (r: (
        Fut,
        Result<(), SystemShutdown>,
    ))
        ensures
            r.0 == self.spec_inner(),
            r.1.is_ok() == old(ctx).rt.connected,
            gave_up_wake(old(ctx).rt, final(ctx).rt, old(ctx).rt.pid, self.spec_deadline()),
            final(ctx).inbox == old(ctx).inbox,
            final(ctx).waker == old(ctx).waker,
    {
        let pid = ctx.rt.pid();
        let removed = ctx.rt.remove_deadline(pid, self.deadline);
        (self.fut, removed)
    }

    /// What the deadline makes of the state `inner` of the computation
    /// inside at `now`: the passing of the deadline wins.
    pub fn poll<T>(&self, now: Timestamp, inner: Poll<T>) -> (r: Poll<Result<T, DeadlinePassed>>)
        ensures
            r == if self.spec_deadline()@ <= now@ {
                Poll::Ready(Err(DeadlinePassed))
            } else {
                match inner {
                    Poll::Ready(value) => Poll::Ready(Ok(value)),
                    Poll::Pending => Poll::Pending,
                }
            },
    {
        if self.deadline.has_passed(now) {
            Poll::Ready(Err(DeadlinePassed))
        } else {
            match inner {
                Poll::Ready(value) => Poll::Ready(Ok(value)),
                Poll::Pending => Poll::Pending,
            }
        }
    }
}

/// An interval: it yields each time its deadline has passed, and then sets
/// the next one. It never ends.
#[derive(Debug)]
pub struct Interval {
    interval: Span,
    deadline: Timestamp,
    pid: ProcessId,
}

impl Interval {
    /// The deadline at which the interval yields next.
    pub closed spec fn spec_deadline(&self) -> Timestamp {
        self.deadline
    }

    /// The time between two deadlines.
    pub closed spec fn spec_interval(&self) -> Span {
        self.interval
    }

    /// The process that is woken.
    pub closed spec fn spec_pid(&self) -> ProcessId {
        self.pid
    }

    /// Create a new interval that yields first `interval` after `now`.
    /// Fails, and makes no interval, if no worker stands behind the
    /// context.
    pub fn starting<M>(
        ctx: &mut Context<M, ActorSystemRef>,
        now: Timestamp,
        interval: Span,
    ) -> (r: Result<Interval, SystemShutdown>)
        ensures
            r.is_ok() == old(ctx).rt.connected,
            r matches Ok(made) ==> {
                &&& made.spec_deadline()@ == saturating_sum(now@, interval@)
                &&& made.spec_interval() == interval
                &&& made.spec_pid() == old(ctx).rt.pid
                &&& asked_for_wake(old(ctx).rt, final(ctx).rt, made.spec_deadline())
            },
            r.is_err() ==> final(ctx).rt == old(ctx).rt,
            final(ctx).inbox == old(ctx).inbox,
            final(ctx).waker == old(ctx).waker,
    {
        let deadline = now.saturating_add(interval);
        let pid = ctx.rt.pid();
        match ctx.rt.add_deadline(pid, deadline) {
            Ok(()) => Ok(Interval { interval, deadline, pid }),
            Err(error) => Err(error),
        }
    }

    /// Create a new `Interval`, counting from the present moment.
    pub fn new<M>(ctx: &mut Context<M, ActorSystemRef>, interval: Span) -> (r: Result<
        Interval,
        SystemShutdown,
    >)
        ensures
            r.is_ok() == old(ctx).rt.connected,
            r matches Ok(made) ==> {
                &&& made.spec_deadline()@ >= interval@
                &&& made.spec_interval() == interval
                &&& made.spec_pid() == old(ctx).rt.pid
                &&& asked_for_wake(old(ctx).rt, final(ctx).rt, made.spec_deadline())
            },
            r.is_err() ==> final(ctx).rt == old(ctx).rt,
            final(ctx).inbox == old(ctx).inbox,
            final(ctx).waker == old(ctx).waker,
    {
        let now = ctx.rt.now();
        Interval::starting(ctx, now, interval)
    }

    /// Returns the next deadline for this `Interval`.
    pub fn next_deadline(&self) -> (r: Timestamp)
        ensures
            r == self.spec_deadline(),
    {
        self.deadline
    }

    /// What polling the interval at `now` comes to, and the deadline it
    /// then has: if the deadline has not passed it waits and keeps it; if
    /// it has passed it yields and sets the next deadline one interval after
    /// `now`, for which a wake is asked; and if that cannot be asked, for
    /// want of a worker, it fails and keeps the deadline.
    pub open spec fn polled(
        deadline: Timestamp,
        interval: Span,
        connected: bool,
        now: Timestamp,
    ) -> (Result<Poll<Option<DeadlinePassed>>, SystemShutdown>, Timestamp) {
        if deadline@ > now@ {
            (Ok(Poll::Pending), deadline)
        } else if connected {
            (
                Ok(Poll::Ready(Some(DeadlinePassed))),
                Timestamp(saturating_sum(now@, interval@) as u64),
            )
        } else {
            (Err(SystemShutdown), deadline)
        }
    }

    /// Yields if the deadline has passed at `now`, and then sets the next
    /// deadline one interval after `now` and asks the worker for a wake at
    /// it. Fails, and leaves the interval as it is, if the deadline has
    /// passed and no worker stands behind the reference.
    pub fn poll_next(&mut self, rt: &mut ActorSystemRef, now: Timestamp) -> (r: Result<
        Poll<Option<DeadlinePassed>>,
        SystemShutdown,
    >)
        ensures
            final(self).spec_interval() == old(self).spec_interval(),
            final(self).spec_pid() == old(self).spec_pid(),
            (r, final(self).spec_deadline()) == Self::polled(
                old(self).spec_deadline(),
                old(self).spec_interval(),
                old(rt).connected,
                now,
            ),
            r == Ok::<Poll<Option<DeadlinePassed>>, SystemShutdown>(
                Poll::Ready(Some(DeadlinePassed)),
            ) ==> final(rt).deadlines@ == old(rt).deadlines@.push(
                (final(self).spec_deadline(), old(self).spec_pid()),
            ),
            r != Ok::<Poll<Option<DeadlinePassed>>, SystemShutdown>(
                Poll::Ready(Some(DeadlinePassed)),
            ) ==> final(rt).deadlines@ == old(rt).deadlines@,
            final(rt).cancelled@ == old(rt).cancelled@,
            final(rt).pid == old(rt).pid,
            final(rt).connected == old(rt).connected,
            final(rt).clock == old(rt).clock,
    {
        if self.deadline.has_passed(now) {
            let next = now.saturating_add(self.interval);
            match rt.add_deadline(self.pid, next) {
                Ok(()) => {
                    self.deadline = next;
                    Ok(Poll::Ready(Some(DeadlinePassed)))
                },
                Err(error) => Err(error),
            }
        } else {
            Ok(Poll::Pending)
        }
    }

    /// Gives the interval up: asks the worker not to wake the process at
    /// the deadline that is set. Fails if no worker stands behind the
    /// reference.
    pub fn cancel(self, rt: &mut ActorSystemRef) -> (r: Result<(), SystemShutdown>)
        ensures
            r.is_ok() == old(rt).connected,
            gave_up_wake(*old(rt), *final(rt), self.spec_pid(), self.spec_deadline()),
    {
        rt.remove_deadline(self.pid, self.deadline)
    }

    /// Whether the interval has ended: never.
    pub fn is_terminated(&self) -> (r: bool)
        ensures
            !r,
    {
        false
    }
}

} // verus!
