//! The scheduler of one worker: it holds every process of the worker, keeps
//! the ready ones ordered by weighted runtime, and hands out one at a time.

use crate::heap::{key_le, Key, MinHeap};
use crate::pid::ProcessId;
use crate::priority::Priority;
use crate::process::{
    chosen_before, order_key, Process, ProcessRecord, ProcessState, Recovery, StepOutcome,
};
use crate::time::{saturating_sum, Span};
use vstd::prelude::*;

verus! {

/// What the scheduler knows of one process.
pub struct Entry<P> {
    pub priority: Priority,
    /// Runtime accumulated over the steps that have returned.
    pub runtime: Span,
    pub state: ProcessState,
    /// Whether a wake arrived while the process was running.
    pub woken: bool,
    /// The computation; `None` while it is handed out.
    pub payload: Option<P>,
}

/// How a process that has finished a step goes back to the scheduler.
#[derive(Clone, Copy, Debug, PartialEq, Eq, Structural)]
pub enum Resolution {
    /// It waits for a wake, unless one arrived during the step.
    Suspend,
    /// It was rebuilt and runs again at once.
    Restart,
    /// It is dropped and its identifier freed.
    Drop,
}

/// Why a process was not taken back.
#[derive(Clone, Copy, Debug, PartialEq, Eq, Structural)]
pub enum SchedulerError {
    /// A process of this identifier is still held by the scheduler.
    DuplicatePid,
    /// No process of this identifier is handed out.
    UnknownPid,
}

enum Slot<P> {
    Free,
    Present { record: ProcessRecord<P>, ready: bool },
    Running { priority: Priority, runtime: Span, woken: bool },
}

spec fn slot_entry<P>(slot: Slot<P>) -> Entry<P> {
    match slot {
        Slot::Free => arbitrary(),
        Slot::Present { record, ready } => Entry {
            priority: record.priority,
            runtime: record.runtime,
            state: if ready {
                ProcessState::Ready
            } else {
                ProcessState::Inactive
            },
            woken: false,
            payload: Some(record.payload),
        },
        Slot::Running { priority, runtime, woken } => Entry {
            priority,
            runtime,
            state: ProcessState::Running,
            woken,
            payload: None,
        },
    }
}

spec fn is_ready_slot<P>(slot: Slot<P>) -> bool {
    slot matches Slot::Present { ready, .. } && ready
}

spec fn slot_key<P>(slot: Slot<P>) -> Key {
    match slot {
        Slot::Present { record, .. } => record.spec_key(),
        _ => arbitrary(),
    }
}

/// The number of slots in use.
spec fn occupied<P>(s: Seq<Slot<P>>) -> nat
    decreases s.len(),
{
    if s.len() == 0 {
        0
    } else {
        occupied(s.drop_last()) + if s.last() is Free {
            0nat
        } else {
            1nat
        }
    }
}

proof fn lemma_occupied_bound<P>(s: Seq<Slot<P>>)
    ensures
        occupied(s) <= s.len(),
        occupied(s) == 0 <==> forall|i: int| 0 <= i < s.len() ==> s[i] is Free,
    decreases s.len(),
{
    if s.len() > 0 {
        lemma_occupied_bound(s.drop_last());
        if occupied(s) == 0 {
            assert forall|i: int| 0 <= i < s.len() implies s[i] is Free by {
                if i < s.len() - 1 {
                    assert(s.drop_last()[i] is Free);
                }
            }
        }
        if forall|i: int| 0 <= i < s.len() ==> s[i] is Free {
            assert forall|i: int| 0 <= i < s.drop_last().len() implies s.drop_last()[i] is Free by {
                assert(s[i] is Free);
            }
            assert(s.last() is Free);
        }
    }
}

proof fn lemma_occupied_update<P>(s: Seq<Slot<P>>, i: int, v: Slot<P>)
    requires
        0 <= i < s.len(),
    ensures
        occupied(s.update(i, v)) + (if s[i] is Free { 0nat } else { 1nat })
            == occupied(s) + (if v is Free { 0nat } else { 1nat }),
    decreases s.len(),
{
    let t = s.update(i, v);
    if i == s.len() - 1 {
        assert(t.drop_last() =~= s.drop_last());
    } else {
        assert(t.drop_last() =~= s.drop_last().update(i, v));
        lemma_occupied_update(s.drop_last(), i, v);
    }
}

proof fn lemma_occupied_push<P>(s: Seq<Slot<P>>, v: Slot<P>)
    ensures
        occupied(s.push(v)) == occupied(s) + (if v is Free { 0nat } else { 1nat }),
{
    assert(s.push(v).drop_last() =~= s);
}

/// The key under which the free identifier `p` is kept.
spec fn free_key(p: usize) -> Key {
    Key { major: p as u128, minor: 0, pid: p }
}

/// `f` holds the identifiers of the free slots of `s`, each once. The slot
/// of the identifier zero is never given out and is not among them.
spec fn free_ok<P>(s: Seq<Slot<P>>, f: vstd::multiset::Multiset<Key>) -> bool {
    &&& forall|k: Key| #[trigger] f.count(k) <= 1
    &&& forall|k: Key| #[trigger]
        f.count(k) > 0 ==> k == free_key(k.pid) && 1 <= k.pid < s.len() && s[k.pid as int] is Free
    &&& forall|p: usize|
        1 <= p < s.len() && #[trigger] s[p as int] is Free ==> f.count(free_key(p)) > 0
}

/// Putting one used slot in the place of another leaves the free ones
/// what they were.
proof fn lemma_free_ok_update<P>(
    s: Seq<Slot<P>>,
    f: vstd::multiset::Multiset<Key>,
    i: int,
    v: Slot<P>,
)
    requires
        free_ok(s, f),
        0 <= i < s.len(),
        !(s[i] is Free),
        !(v is Free),
    ensures
        free_ok(s.update(i, v), f),
{
    let t = s.update(i, v);
    assert forall|k: Key| #[trigger] f.count(k) > 0 implies k == free_key(k.pid) && 1 <= k.pid
        < t.len() && t[k.pid as int] is Free by {
        assert(s[k.pid as int] is Free);
    }
    assert forall|p: usize| 1 <= p < t.len() && #[trigger] t[p as int] is Free implies f.count(
        free_key(p),
    ) > 0 by {
        assert(s[p as int] is Free);
    }
}

/// Takes the slot at `i` out and leaves it free.
fn take_slot<P>(slots: &mut Vec<Slot<P>>, i: usize) -> (r: Slot<P>)
    requires
        i < old(slots).len(),
    ensures
        r == old(slots)@[i as int],
        final(slots)@ == old(slots)@.update(i as int, Slot::Free),
{
    let mut out = Slot::Free;
    core::mem::swap(&mut slots[i], &mut out);
    out
}

/// The key by which the process `pid` with entry `e` is ordered.
pub open spec fn entry_key<P>(pid: ProcessId, e: Entry<P>) -> Key {
    order_key(pid, e.priority, e.runtime)
}

/// `pid` is ready in `m`.
pub open spec fn is_ready<P>(m: Map<ProcessId, Entry<P>>, pid: ProcessId) -> bool {
    m.contains_key(pid) && m[pid].state == ProcessState::Ready
}

/// `pid` is running in `m`.
pub open spec fn is_running<P>(m: Map<ProcessId, Entry<P>>, pid: ProcessId) -> bool {
    m.contains_key(pid) && (m[pid].state == ProcessState::Running || m[pid].state
        == ProcessState::Terminating)
}

/// `pid` is ready in `m` and chosen before every other ready process.
pub open spec fn is_best_ready<P>(m: Map<ProcessId, Entry<P>>, pid: ProcessId) -> bool {
    &&& is_ready(m, pid)
    &&& forall|q: ProcessId|
        is_ready(m, q) && q != pid ==> chosen_before(
            entry_key(pid, m[pid]),
            #[trigger] entry_key(q, m[q]),
        )
}

/// The entry of a process that was just added, ready or not.
pub open spec fn new_entry<P>(priority: Priority, payload: P, ready: bool) -> Entry<P> {
    Entry {
        priority,
        runtime: Span(0),
        state: if ready {
            ProcessState::Ready
        } else {
            ProcessState::Inactive
        },
        woken: false,
        payload: Some(payload),
    }
}

/// `after` is `before` with one process more: `pid`, which has the given
/// priority, has not run yet, and is ready or waits for its first wake.
pub open spec fn added<P>(
    before: Map<ProcessId, Entry<P>>,
    after: Map<ProcessId, Entry<P>>,
    pid: ProcessId,
    priority: Priority,
    ready: bool,
) -> bool {
    &&& !before.contains_key(pid)
    &&& after.contains_key(pid)
    &&& after.remove(pid) == before
    &&& after[pid].payload is Some
    &&& after[pid] == new_entry(priority, after[pid].payload->0, ready)
}

/// The entry of a process that was just added as ready.
pub open spec fn fresh_entry<P>(priority: Priority, payload: P) -> Entry<P> {
    new_entry(priority, payload, true)
}

/// What a wake for `pid` makes of `m`: an inactive process becomes ready, a
/// running one remembers the wake, and nothing else changes.
pub open spec fn marked_ready<P>(m: Map<ProcessId, Entry<P>>, pid: ProcessId) -> Map<
    ProcessId,
    Entry<P>,
> {
    if !m.contains_key(pid) {
        m
    } else {
        match m[pid].state {
            ProcessState::Inactive => m.insert(
                pid,
                Entry { state: ProcessState::Ready, ..m[pid] },
            ),
            ProcessState::Ready => m,
            _ => m.insert(pid, Entry { woken: true, ..m[pid] }),
        }
    }
}

/// The entry of a process that is handed out.
pub open spec fn handed_out<P>(e: Entry<P>) -> Entry<P> {
    Entry { state: ProcessState::Running, woken: false, payload: None, ..e }
}

/// Whether a process of identifier `pid` can be taken back into `m`.
pub open spec fn take_back_result<P>(m: Map<ProcessId, Entry<P>>, pid: ProcessId) -> Result<
    (),
    SchedulerError,
> {
    if is_running(m, pid) {
        Ok(())
    } else if m.contains_key(pid) {
        Err(SchedulerError::DuplicatePid)
    } else {
        Err(SchedulerError::UnknownPid)
    }
}

/// The entry with which a process goes back after a step of length
/// `duration`: its runtime grows by the duration, and it is ready if it
/// was rebuilt or woken during the step.
pub open spec fn taken_back<P>(e: Entry<P>, payload: P, restart: bool, duration: Span) -> Entry<
    P,
> {
    Entry {
        priority: e.priority,
        runtime: Span(saturating_sum(e.runtime@, duration@) as u64),
        state: if restart || e.woken {
            ProcessState::Ready
        } else {
            ProcessState::Inactive
        },
        woken: false,
        payload: Some(payload),
    }
}

/// What `m` becomes when the running process `pid` goes back with
/// `resolution`.
pub open spec fn reintegrated<P>(
    m: Map<ProcessId, Entry<P>>,
    pid: ProcessId,
    payload: P,
    resolution: Resolution,
    duration: Span,
) -> Map<ProcessId, Entry<P>> {
    match resolution {
        Resolution::Drop => m.remove(pid),
        Resolution::Suspend => m.insert(pid, taken_back(m[pid], payload, false, duration)),
        Resolution::Restart => m.insert(pid, taken_back(m[pid], payload, true, duration)),
    }
}

fn slot_is_free<P>(slot: &Slot<P>) -> (r: bool)
    ensures
        r == (*slot is Free),
{
    match slot {
        Slot::Free => true,
        _ => false,
    }
}

/// All processes of one worker.
pub struct Scheduler<P> {
    slots: Vec<Slot<P>>,
    ready: MinHeap,
    free: MinHeap,
    running: Option<usize>,
    count: usize,
}

impl<P> View for Scheduler<P> {
    type V = Map<ProcessId, Entry<P>>;

    closed spec fn view(&self) -> Map<ProcessId, Entry<P>> {
        Map::new(
            |pid: ProcessId| pid.0 < self.slots@.len() && !(self.slots@[pid.0 as int] is Free),
            |pid: ProcessId| slot_entry(self.slots@[pid.0 as int]),
        )
    }
}

impl<P> Scheduler<P> {
    /// The scheduler's own invariant.
    pub closed spec fn wf(&self) -> bool {
        let s = self.slots@;
        &&& s.len() >= 1
        &&& s[0] is Free
        &&& self.free.wf()
        &&& free_ok(s, self.free@)
        &&& self.count == occupied(s)
        &&& self.running matches Some(r) ==> r < s.len() && s[r as int] is Running
        &&& forall|i: int|
            0 <= i < s.len() && #[trigger] s[i] is Running ==> (self.running matches Some(r) && r
                == i)
        &&& forall|i: int|
            0 <= i < s.len() ==> (#[trigger] s[i] matches Slot::Present { record, .. }
                ==> record.id.0 == i)
        &&& self.ready.wf()
        &&& forall|k: Key| #[trigger] self.ready@.count(k) <= 1
        &&& forall|k: Key| #[trigger]
            self.ready@.count(k) > 0 ==> k.pid < s.len() && is_ready_slot(s[k.pid as int])
                && slot_key(s[k.pid as int]) == k
        &&& forall|i: int|
            0 <= i < s.len() && is_ready_slot(#[trigger] s[i]) ==> self.ready@.count(
                slot_key(s[i]),
            ) > 0
    }

    /// A scheduler without processes.
    pub fn new() -> (r: Self)
        ensures
            r.wf(),
            r@ == Map::<ProcessId, Entry<P>>::empty(),
    {
        let mut slots: Vec<Slot<P>> = Vec::new();
        slots.push(Slot::Free);
        let r = Scheduler {
            slots,
            ready: MinHeap::new(),
            free: MinHeap::new(),
            running: None,
            count: 0,
        };
        proof {
            broadcast use vstd::multiset::group_multiset_axioms;

            assert(r.slots@ =~= seq![Slot::<P>::Free]);
            reveal_with_fuel(occupied, 2);
            assert(r.slots@.drop_last() =~= Seq::<Slot<P>>::empty());
            assert(r@ =~= Map::<ProcessId, Entry<P>>::empty());
        }
        r
    }

    /// At most one process is handed out at any time.
    pub proof fn lemma_one_running(&self, p: ProcessId, q: ProcessId)
        requires
            self.wf(),
            is_running(self@, p),
            is_running(self@, q),
        ensures
            p == q,
    {
        assert(self.slots@[p.0 as int] is Running);
        assert(self.slots@[q.0 as int] is Running);
    }

    /// No process is ever known under the identifier zero.
    pub proof fn lemma_pids_nonzero(&self, p: ProcessId)
        requires
            self.wf(),
            self@.contains_key(p),
        ensures
            p.0 != 0,
    {
    }

    /// Whether the scheduler holds no process at all, handed out or not.
    pub fn is_empty(&self) -> (r: bool)
        requires
            self.wf(),
        ensures
            r == (forall|pid: ProcessId| !self@.contains_key(pid)),
    {
        proof {
            lemma_occupied_bound(self.slots@);
            if self.count != 0 {
                let i = choose|i: int| 0 <= i < self.slots@.len() && !(self.slots@[i] is Free);
                assert(self@.contains_key(ProcessId(i as usize)));
            }
        }
        self.count == 0
    }

    /// Whether some process is ready.
    pub fn has_ready(&self) -> (r: bool)
        requires
            self.wf(),
        ensures
            r == (exists|pid: ProcessId| is_ready(self@, pid)),
    {
        let r = !self.ready.is_empty();
        proof {
            if r {
                assert(self.ready@.len() > 0);
                let k = self.ready@.choose();
                assert(self.ready@.count(k) > 0) by {
                    broadcast use vstd::multiset::group_multiset_axioms;

                }
                assert(is_ready(self@, ProcessId(k.pid)));
            } else {
                assert forall|pid: ProcessId| !is_ready(self@, pid) by {
                    if is_ready(self@, pid) {
                        assert(is_ready_slot(self.slots@[pid.0 as int]));
                        let k = slot_key(self.slots@[pid.0 as int]);
                        assert(self.ready@.count(k) > 0);
                        assert(self.ready@.len() > 0) by {
                            broadcast use vstd::multiset::group_multiset_axioms;

                        }
                    }
                }
            }
        }
        r
    }

    /// The identifier of the process that is handed out, if one is.
    pub fn running(&self) -> (r: Option<ProcessId>)
        requires
            self.wf(),
        ensures
            r.is_some() ==> is_running(self@, r.unwrap()),
            r.is_none() ==> forall|pid: ProcessId| !is_running(self@, pid),
    {
        match self.running {
            Some(i) => {
                assert(self.slots@[i as int] is Running);
                Some(ProcessId(i))
            },
            None => None,
        }
    }
    /// The identifier that the next process to be added gets: the lowest
    /// one that is free.
    pub fn next_pid(&self) -> (pid: ProcessId)
        requires
            self.wf(),
        ensures
            pid.0 != 0,
            !self@.contains_key(pid),
            forall|q: ProcessId| 0 < q.0 < pid.0 ==> self@.contains_key(q),
    {
        broadcast use vstd::multiset::group_multiset_axioms;

        let least = self.free.peek();
        let i: usize = match least {
            Some(k) => k.pid,
            None => self.slots.len(),
        };
        proof {
            let o = self.slots@;
            let f = self.free@;
            assert forall|q: ProcessId| 0 < q.0 < i implies self@.contains_key(q) by {
                if o[q.0 as int] is Free {
                    let kq = free_key(q.0);
                    assert(f.count(kq) > 0);
                    if least.is_some() {
                        assert(key_le(least.unwrap(), kq));
                    }
                }
            }
            if least.is_some() {
                assert(f.count(least.unwrap()) > 0);
            }
        }
        ProcessId(i)
    }

    /// Installs a new process as ready, under the lowest identifier that is
    /// free, and returns that identifier.
    pub fn add_process(&mut self, priority: Priority, payload: P) -> (pid: ProcessId)
        requires
            old(self).wf(),
        ensures
            final(self).wf(),
            pid.0 != 0,
            !old(self)@.contains_key(pid),
            forall|q: ProcessId| 0 < q.0 < pid.0 ==> old(self)@.contains_key(q),
            final(self)@ == old(self)@.insert(pid, fresh_entry(priority, payload)),
    {
        self.add(priority, payload, true)
    }

    /// Installs a new process, ready or waiting for its first wake, under
    /// the lowest identifier that is free, and returns that identifier.
    pub fn add(&mut self, priority: Priority, payload: P, ready: bool) -> (pid: ProcessId)
        requires
            old(self).wf(),
        ensures
            final(self).wf(),
            pid.0 != 0,
            !old(self)@.contains_key(pid),
            forall|q: ProcessId| 0 < q.0 < pid.0 ==> old(self)@.contains_key(q),
            final(self)@ == old(self)@.insert(pid, new_entry(priority, payload, ready)),
    {
        broadcast use vstd::multiset::group_multiset_axioms;

        let popped = self.free.pop();
        let i: usize = match popped {
            Some(k) => k.pid,
            None => self.slots.len(),
        };
        proof {
            let o = old(self).slots@;
            let f = old(self).free@;
            assert forall|q: ProcessId| 0 < q.0 < i implies old(self)@.contains_key(q) by {
                if o[q.0 as int] is Free {
                    let kq = free_key(q.0);
                    assert(f.count(kq) > 0);
                    if popped.is_some() {
                        assert(key_le(popped.unwrap(), kq));
                    }
                }
            }
            if popped.is_some() {
                assert(f.count(popped.unwrap()) > 0);
            }
        }
        let record = ProcessRecord::new(ProcessId(i), priority, Span::zero(), payload);
        let key = record.key();
        let slot = Slot::Present { record, ready };
        proof {
            lemma_occupied_bound(self.slots@);
            if self.ready@.count(key) > 0 {
                assert(is_ready_slot(self.slots@[i as int]));
            }
        }
        if i == self.slots.len() {
            proof {
                lemma_occupied_push(self.slots@, slot);
            }
            self.slots.push(slot);
        } else {
            proof {
                lemma_occupied_update(self.slots@, i as int, slot);
            }
            self.slots.set(i, slot);
        }
        let n: usize = self.slots.len();
        proof {
            lemma_occupied_bound(self.slots@);
            assert(i < n);
            assert(occupied(self.slots@) == self.count + 1);
        }
        self.count = self.count + 1;
        if ready {
            self.ready.push(key);
        }
        proof {
            let s = self.slots@;
            let o = old(self).slots@;
            assert forall|j: int| 0 <= j < s.len() && j != i implies s[j] == o[j] by {}
            assert forall|k: Key| #[trigger]
                self.ready@.count(k) > 0 implies k.pid < s.len() && is_ready_slot(s[k.pid as int])
                && slot_key(s[k.pid as int]) == k by {
                if k != key || !ready {
                    assert(old(self).ready@.count(k) > 0);
                    assert(is_ready_slot(o[k.pid as int]));
                }
            }
            assert forall|j: int| 0 <= j < s.len() && is_ready_slot(#[trigger] s[j]) implies self.ready@.count(
                slot_key(s[j]),
            ) > 0 by {
                if j != i {
                    assert(is_ready_slot(o[j]));
                }
            }
            let f = old(self).free@;
            assert forall|k: Key| #[trigger] self.free@.count(k) > 0 implies k == free_key(k.pid)
                && 1 <= k.pid < s.len() && s[k.pid as int] is Free by {
                assert(f.count(k) > 0);
                assert(o[k.pid as int] is Free);
            }
            assert forall|p: usize|
                1 <= p < s.len() && #[trigger] s[p as int] is Free implies self.free@.count(
                free_key(p),
            ) > 0 by {
                assert(o[p as int] is Free);
                assert(f.count(free_key(p)) > 0);
            }
            assert(self@ =~= old(self)@.insert(ProcessId(i), new_entry(priority, payload, ready)));
        }
        ProcessId(i)
    }

    /// Records a wake for `pid`: an inactive process becomes ready, a
    /// process that is handed out becomes ready when it comes back, and a
    /// wake for any other identifier is discarded.
    pub fn mark_ready(&mut self, pid: ProcessId)
        requires
            old(self).wf(),
        ensures
            final(self).wf(),
            final(self)@ == marked_ready(old(self)@, pid),
    {
        broadcast use vstd::multiset::group_multiset_axioms;

        let i: usize = pid.0;
        if i >= self.slots.len() {
            assert(self@ =~= marked_ready(old(self)@, pid));
            return ;
        }
        let slot = take_slot(&mut self.slots, i);
        match slot {
            Slot::Free => {
                assert(self.slots@ =~= old(self).slots@);
                assert(self@ =~= marked_ready(old(self)@, pid));
            },
            Slot::Present { record, ready } => {
                if ready {
                    self.slots.set(i, Slot::Present { record, ready });
                    assert(self.slots@ =~= old(self).slots@);
                    assert(self@ =~= marked_ready(old(self)@, pid));
                } else {
                    let key = record.key();
                    let now = Slot::Present { record, ready: true };
                    proof {
                        lemma_occupied_update(old(self).slots@, i as int, now);
                        if self.ready@.count(key) > 0 {
                            assert(is_ready_slot(old(self).slots@[i as int]));
                        }
                    }
                    self.slots.set(i, now);
                    self.ready.push(key);
                    proof {
                        let s = self.slots@;
                        let o = old(self).slots@;
                        assert(s =~= o.update(i as int, now));
                        assert forall|k: Key| #[trigger]
                            self.ready@.count(k) > 0 implies k.pid < s.len() && is_ready_slot(
                            s[k.pid as int],
                        ) && slot_key(s[k.pid as int]) == k by {
                            if k != key {
                                assert(old(self).ready@.count(k) > 0);
                            }
                        }
                        assert forall|j: int|
                            0 <= j < s.len() && is_ready_slot(#[trigger] s[j]) implies self.ready@.count(
                            slot_key(s[j]),
                        ) > 0 by {
                            if j != i {
                                assert(is_ready_slot(o[j]));
                            }
                        }
                        lemma_free_ok_update(o, self.free@, i as int, s[i as int]);
                        assert(self@ =~= marked_ready(old(self)@, pid));
                    }
                }
            },
            Slot::Running { priority, runtime, woken } => {
                let now = Slot::Running { priority, runtime, woken: true };
                proof {
                    lemma_occupied_update(old(self).slots@, i as int, now);
                }
                self.slots.set(i, now);
                proof {
                    let s = self.slots@;
                    let o = old(self).slots@;
                    assert(s =~= o.update(i as int, now));
                    assert forall|k: Key| #[trigger]
                        self.ready@.count(k) > 0 implies k.pid < s.len() && is_ready_slot(
                        s[k.pid as int],
                    ) && slot_key(s[k.pid as int]) == k by {
                        assert(is_ready_slot(o[k.pid as int]));
                    }
                    assert forall|j: int|
                        0 <= j < s.len() && is_ready_slot(#[trigger] s[j]) implies self.ready@.count(
                        slot_key(s[j]),
                    ) > 0 by {
                        assert(is_ready_slot(o[j]));
                    }
                    lemma_free_ok_update(o, self.free@, i as int, s[i as int]);
                    assert(self@ =~= marked_ready(old(self)@, pid));
                }
            },
        }
    }
    proof fn lemma_ready_nonempty(&self)
        requires
            self.wf(),
        ensures
            self.ready@.len() > 0 <==> exists|pid: ProcessId| is_ready(self@, pid),
    {
        broadcast use vstd::multiset::group_multiset_axioms;

        if self.ready@.len() > 0 {
            let k = self.ready@.choose();
            assert(self.ready@.count(k) > 0);
            assert(is_ready(self@, ProcessId(k.pid)));
        }
        if exists|pid: ProcessId| is_ready(self@, pid) {
            let pid = choose|pid: ProcessId| is_ready(self@, pid);
            assert(is_ready_slot(self.slots@[pid.0 as int]));
            assert(self.ready@.count(slot_key(self.slots@[pid.0 as int])) > 0);
        }
    }

    /// Takes out the ready process that is chosen before all others and
    /// hands it to the caller to run. Nothing is handed out while another
    /// process is.
    pub fn next_ready(&mut self) -> (r: Option<ProcessRecord<P>>)
        requires
            old(self).wf(),
        ensures
            final(self).wf(),
            r.is_none() <==> (forall|pid: ProcessId| !is_ready(old(self)@, pid)) || (exists|
                pid: ProcessId,
            |
                is_running(old(self)@, pid)),
            r.is_none() ==> final(self)@ == old(self)@,
            r matches Some(rec) ==> {
                &&& is_best_ready(old(self)@, rec.id)
                &&& rec.priority == old(self)@[rec.id].priority
                &&& rec.runtime == old(self)@[rec.id].runtime
                &&& Some(rec.payload) == old(self)@[rec.id].payload
                &&& final(self)@ == old(self)@.insert(rec.id, handed_out(old(self)@[rec.id]))
            },
    {
        broadcast use vstd::multiset::group_multiset_axioms;

        proof {
            self.lemma_ready_nonempty();
        }
        match self.running {
            Some(r) => {
                assert(is_running(self@, ProcessId(r)));
                return None;
            },
            None => {},
        }
        assert forall|pid: ProcessId| !is_running(self@, pid) by {
            if is_running(self@, pid) {
                assert(self.slots@[pid.0 as int] is Running);
            }
        }
        let popped = self.ready.pop();
        let k = match popped {
            None => {
                return None;
            },
            Some(k) => k,
        };
        let i: usize = k.pid;
        let slot = take_slot(&mut self.slots, i);
        match slot {
            Slot::Present { record, ready } => {
                let now = Slot::Running {
                    priority: record.priority,
                    runtime: record.runtime,
                    woken: false,
                };
                proof {
                    lemma_occupied_update(old(self).slots@, i as int, now);
                }
                self.slots.set(i, now);
                self.running = Some(i);
                proof {
                    let s = self.slots@;
                    let o = old(self).slots@;
                    let m = old(self)@;
                    assert(s =~= o.update(i as int, now));
                    assert(record.id == ProcessId(i));
                    assert forall|j: int| 0 <= j < s.len() && #[trigger] s[j] is Running implies j
                        == i by {
                        if j != i {
                            assert(s[j] == o[j]);
                        }
                    }
                    assert forall|k2: Key| #[trigger]
                        self.ready@.count(k2) > 0 implies k2.pid < s.len() && is_ready_slot(
                        s[k2.pid as int],
                    ) && slot_key(s[k2.pid as int]) == k2 by {
                        assert(old(self).ready@.count(k2) > 0);
                    }
                    assert forall|j: int|
                        0 <= j < s.len() && is_ready_slot(#[trigger] s[j]) implies self.ready@.count(
                        slot_key(s[j]),
                    ) > 0 by {
                        assert(is_ready_slot(o[j]));
                        assert(old(self).ready@.count(slot_key(o[j])) > 0);
                    }
                    lemma_free_ok_update(o, self.free@, i as int, s[i as int]);
                    assert forall|q: ProcessId| is_ready(m, q) && q != record.id implies chosen_before(
                        entry_key(record.id, m[record.id]),
                        #[trigger] entry_key(q, m[q]),
                    ) by {
                        assert(is_ready_slot(o[q.0 as int]));
                        let kq = slot_key(o[q.0 as int]);
                        assert(old(self).ready@.count(kq) > 0);
                        assert(key_le(k, kq));
                    }
                    assert(self@ =~= m.insert(record.id, handed_out(m[record.id])));
                }
                Some(record)
            },
            _ => {
                assert(false);
                None
            },
        }
    }

    /// Takes back the process that was handed out, after a step that took
    /// `duration`. Its runtime grows by `duration`. With `Suspend` it waits
    /// for a wake, unless one arrived during the step; with `Restart` it is
    /// ready at once; with `Drop` it is removed and its identifier is free
    /// again. A process whose identifier is not handed out is refused.
    pub fn reintegrate(
        &mut self,
        process: ProcessRecord<P>,
        resolution: Resolution,
        duration: Span,
    ) -> (r: Result<(), SchedulerError>)
        requires
            old(self).wf(),
        ensures
            final(self).wf(),
            r == take_back_result(old(self)@, process.id),
            r.is_err() ==> final(self)@ == old(self)@,
            r.is_ok() ==> final(self)@ == reintegrated(
                old(self)@,
                process.id,
                process.payload,
                resolution,
                duration,
            ),
    {
        broadcast use vstd::multiset::group_multiset_axioms;

        let pid = process.id;
        let i: usize = pid.0;
        if i >= self.slots.len() {
            return Err(SchedulerError::UnknownPid);
        }
        let slot = take_slot(&mut self.slots, i);
        match slot {
            Slot::Free => {
                assert(self.slots@ =~= old(self).slots@);
                Err(SchedulerError::UnknownPid)
            },
            Slot::Present { record, ready } => {
                self.slots.set(i, Slot::Present { record, ready });
                assert(self.slots@ =~= old(self).slots@);
                Err(SchedulerError::DuplicatePid)
            },
            Slot::Running { priority, runtime, woken } => {
                let ghost o = old(self).slots@;
                let ghost m = old(self)@;
                match resolution {
                    Resolution::Drop => {
                        proof {
                            lemma_occupied_update(o, i as int, Slot::Free);
                        }
                        self.count = self.count - 1;
                        self.running = None;
                        proof {
                            if self.free@.count(free_key(i)) > 0 {
                                assert(o[i as int] is Free);
                            }
                        }
                        self.free.push(Key { major: i as u128, minor: 0, pid: i });
                        proof {
                            let s = self.slots@;
                            assert forall|k2: Key| #[trigger]
                                self.ready@.count(k2) > 0 implies k2.pid < s.len() && is_ready_slot(
                                s[k2.pid as int],
                            ) && slot_key(s[k2.pid as int]) == k2 by {
                                assert(is_ready_slot(o[k2.pid as int]));
                            }
                            assert forall|j: int|
                                0 <= j < s.len() && is_ready_slot(
                                    #[trigger] s[j],
                                ) implies self.ready@.count(slot_key(s[j])) > 0 by {
                                assert(is_ready_slot(o[j]));
                            }
                            let f = old(self).free@;
                            assert forall|k: Key| #[trigger]
                                self.free@.count(k) > 0 implies k == free_key(k.pid) && 1 <= k.pid
                                < s.len() && s[k.pid as int] is Free by {
                                if k != free_key(i) {
                                    assert(f.count(k) > 0);
                                    assert(o[k.pid as int] is Free);
                                }
                            }
                            assert forall|p: usize|
                                1 <= p < s.len() && #[trigger] s[p as int] is Free implies self.free@.count(
                                free_key(p),
                            ) > 0 by {
                                if p != i {
                                    assert(o[p as int] is Free);
                                    assert(f.count(free_key(p)) > 0);
                                }
                            }
                            assert(self@ =~= m.remove(pid));
                        }
                    },
                    _ => {
                        let restart = match resolution {
                            Resolution::Restart => true,
                            _ => false,
                        };
                        let ready = restart || woken;
                        let record = ProcessRecord::new(
                            pid,
                            priority,
                            runtime.saturating_add(duration),
                            process.payload,
                        );
                        let key = record.key();
                        let now = Slot::Present { record, ready };
                        proof {
                            lemma_occupied_update(o, i as int, now);
                            if self.ready@.count(key) > 0 {
                                assert(is_ready_slot(o[i as int]));
                            }
                        }
                        self.slots.set(i, now);
                        self.running = None;
                        if ready {
                            self.ready.push(key);
                        }
                        proof {
                            let s = self.slots@;
                            assert(s =~= o.update(i as int, now));
                            assert forall|k2: Key| #[trigger]
                                self.ready@.count(k2) > 0 implies k2.pid < s.len() && is_ready_slot(
                                s[k2.pid as int],
                            ) && slot_key(s[k2.pid as int]) == k2 by {
                                if k2 != key {
                                    assert(old(self).ready@.count(k2) > 0);
                                    assert(is_ready_slot(o[k2.pid as int]));
                                }
                            }
                            assert forall|j: int|
                                0 <= j < s.len() && is_ready_slot(
                                    #[trigger] s[j],
                                ) implies self.ready@.count(slot_key(s[j])) > 0 by {
                                if j != i {
                                    assert(is_ready_slot(o[j]));
                                }
                            }
                            lemma_free_ok_update(o, self.free@, i as int, s[i as int]);
                            assert(self@ =~= m.insert(
                                pid,
                                taken_back(m[pid], process.payload, restart, duration),
                            ));
                        }
                    },
                }
                Ok(())
            },
        }
    }

    /// The state of `pid`, if the scheduler knows it.
    pub fn state(&self, pid: ProcessId) -> (r: Option<ProcessState>)
        requires
            self.wf(),
        ensures
            r == if self@.contains_key(pid) {
                Some(self@[pid].state)
            } else {
                None
            },
    {
        if pid.0 >= self.slots.len() {
            return None;
        }
        match &self.slots[pid.0] {
            Slot::Free => None,
            Slot::Present { record, ready } => if *ready {
                Some(ProcessState::Ready)
            } else {
                Some(ProcessState::Inactive)
            },
            Slot::Running { .. } => Some(ProcessState::Running),
        }
    }

    /// The runtime that `pid` has accumulated, if the scheduler knows it.
    pub fn runtime(&self, pid: ProcessId) -> (r: Option<Span>)
        requires
            self.wf(),
        ensures
            r == if self@.contains_key(pid) {
                Some(self@[pid].runtime)
            } else {
                None
            },
    {
        if pid.0 >= self.slots.len() {
            return None;
        }
        match &self.slots[pid.0] {
            Slot::Free => None,
            Slot::Present { record, .. } => Some(record.runtime),
            Slot::Running { runtime, .. } => Some(*runtime),
        }
    }

    /// The priority of `pid`, if the scheduler knows it.
    pub fn priority(&self, pid: ProcessId) -> (r: Option<Priority>)
        requires
            self.wf(),
        ensures
            r == if self@.contains_key(pid) {
                Some(self@[pid].priority)
            } else {
                None
            },
    {
        if pid.0 >= self.slots.len() {
            return None;
        }
        match &self.slots[pid.0] {
            Slot::Free => None,
            Slot::Present { record, .. } => Some(record.priority),
            Slot::Running { priority, .. } => Some(*priority),
        }
    }
}

/// Whether `after` is what `m` becomes when the running process `pid` goes
/// back with `payload` after a step that ended with `outcome`. A process
/// that failed is either dropped or goes back ready, with whatever
/// computation its supervisor had made.
pub open spec fn step_finished<P: Process>(
    m: Map<ProcessId, Entry<P>>,
    after: Map<ProcessId, Entry<P>>,
    pid: ProcessId,
    payload: P,
    outcome: StepOutcome<P::Error>,
    duration: Span,
) -> bool {
    match outcome {
        StepOutcome::Pending => after == reintegrated(m, pid, payload, Resolution::Suspend, duration),
        StepOutcome::Complete => after == m.remove(pid),
        StepOutcome::Failed(_) => after == m.remove(pid) || restarted(m, after, pid, duration),
    }
}

/// `after` is what `m` becomes when the running process `pid` goes back
/// restarted, with some computation that was made anew.
pub open spec fn restarted<P>(
    m: Map<ProcessId, Entry<P>>,
    after: Map<ProcessId, Entry<P>>,
    pid: ProcessId,
    duration: Span,
) -> bool {
    &&& after.contains_key(pid)
    &&& after[pid].payload is Some
    &&& after == reintegrated(m, pid, after[pid].payload->0, Resolution::Restart, duration)
}

/// `after` is `before`, or `before` woken: made ready if it was inactive,
/// the wake remembered if it was handed out.
pub open spec fn woke_entry<P>(before: Entry<P>, after: Entry<P>) -> bool {
    ||| after == before
    ||| (before.state == ProcessState::Inactive && after == Entry {
        state: ProcessState::Ready,
        ..before
    })
    ||| (before.state != ProcessState::Inactive && before.state != ProcessState::Ready && after
        == Entry { woken: true, ..before })
}

/// `after` holds the processes of `before`, and nothing has happened to
/// them but wakes.
pub open spec fn only_wakes<P>(
    before: Map<ProcessId, Entry<P>>,
    after: Map<ProcessId, Entry<P>>,
) -> bool {
    &&& forall|pid: ProcessId| before.contains_key(pid) <==> after.contains_key(pid)
    &&& forall|pid: ProcessId| #[trigger]
        before.contains_key(pid) ==> woke_entry(before[pid], after[pid])
}

/// A wake for `pid` has taken effect in `m`: the process is ready or, if it
/// is handed out, will be when it comes back. It holds of every identifier
/// that `m` does not know.
pub open spec fn is_woken<P>(m: Map<ProcessId, Entry<P>>, pid: ProcessId) -> bool {
    m.contains_key(pid) ==> m[pid].state == ProcessState::Ready || (m[pid].state
        != ProcessState::Inactive && m[pid].woken)
}

/// No process of `m` is handed out.
pub open spec fn none_running<P>(m: Map<ProcessId, Entry<P>>) -> bool {
    forall|pid: ProcessId| !(#[trigger] is_running(m, pid))
}

/// Wakes hand no process out.
pub proof fn lemma_wakes_hand_none_out<P>(
    a: Map<ProcessId, Entry<P>>,
    b: Map<ProcessId, Entry<P>>,
)
    requires
        only_wakes(a, b),
        none_running(a),
    ensures
        none_running(b),
{
    assert forall|pid: ProcessId| !(#[trigger] is_running(b, pid)) by {
        if b.contains_key(pid) {
            assert(a.contains_key(pid));
            assert(!is_running(a, pid));
            assert(woke_entry(a[pid], b[pid]));
        }
    }
}

/// Adding a process hands none out.
pub proof fn lemma_add_hands_none_out<P>(
    m: Map<ProcessId, Entry<P>>,
    pid: ProcessId,
    priority: Priority,
    payload: P,
    ready: bool,
)
    requires
        none_running(m),
    ensures
        none_running(m.insert(pid, new_entry(priority, payload, ready))),
{
    let after = m.insert(pid, new_entry(priority, payload, ready));
    assert forall|q: ProcessId| !(#[trigger] is_running(after, q)) by {
        if q != pid {
            assert(!is_running(m, q));
        }
    }
}

/// What the wakes of `wakes`, taken in turn, make of `m`.
pub open spec fn after_wakes<P>(m: Map<ProcessId, Entry<P>>, wakes: Seq<ProcessId>) -> Map<
    ProcessId,
    Entry<P>,
>
    decreases wakes.len(),
{
    if wakes.len() == 0 {
        m
    } else {
        marked_ready(after_wakes(m, wakes.drop_last()), wakes.last())
    }
}

/// A wake changes nothing but the process it is for, and leaves that one
/// woken.
pub proof fn lemma_mark_ready_wakes<P>(m: Map<ProcessId, Entry<P>>, pid: ProcessId)
    ensures
        only_wakes(m, marked_ready(m, pid)),
        is_woken(marked_ready(m, pid), pid),
{
}

/// Wakes after wakes are wakes.
pub proof fn lemma_only_wakes_transitive<P>(
    a: Map<ProcessId, Entry<P>>,
    b: Map<ProcessId, Entry<P>>,
    c: Map<ProcessId, Entry<P>>,
)
    requires
        only_wakes(a, b),
        only_wakes(b, c),
    ensures
        only_wakes(a, c),
{
    assert forall|pid: ProcessId| #[trigger] a.contains_key(pid) implies woke_entry(
        a[pid],
        c[pid],
    ) by {
        assert(b.contains_key(pid));
        assert(woke_entry(a[pid], b[pid]));
        assert(woke_entry(b[pid], c[pid]));
    }
}

/// A process that is woken stays so under further wakes.
pub proof fn lemma_woken_stays<P>(
    a: Map<ProcessId, Entry<P>>,
    b: Map<ProcessId, Entry<P>>,
    pid: ProcessId,
)
    requires
        only_wakes(a, b),
        is_woken(a, pid),
    ensures
        is_woken(b, pid),
{
    if a.contains_key(pid) {
        assert(woke_entry(a[pid], b[pid]));
    }
}

/// A second wake for the same process changes nothing: however many wakes
/// arrive for it, the process is made ready once.
pub proof fn lemma_mark_ready_idempotent<P>(m: Map<ProcessId, Entry<P>>, pid: ProcessId)
    ensures
        marked_ready(marked_ready(m, pid), pid) == marked_ready(m, pid),
{
    assert(marked_ready(marked_ready(m, pid), pid) =~= marked_ready(m, pid));
}

/// Wakes for a process that was dropped are discarded: whatever wakes
/// arrive, for it or for others, the scheduler does not know the process
/// again, so none is ready or handed out under its identifier.
pub proof fn lemma_no_stale_pid<P>(m: Map<ProcessId, Entry<P>>, wakes: Seq<ProcessId>, pid: ProcessId)
    requires
        !m.contains_key(pid),
    ensures
        !after_wakes(m, wakes).contains_key(pid),
        !is_ready(after_wakes(m, wakes), pid),
        !is_running(after_wakes(m, wakes), pid),
        only_wakes(m, after_wakes(m, wakes)),
    decreases wakes.len(),
{
    if wakes.len() > 0 {
        let before = after_wakes(m, wakes.drop_last());
        lemma_no_stale_pid(m, wakes.drop_last(), pid);
        lemma_mark_ready_wakes(before, wakes.last());
        lemma_only_wakes_transitive(m, before, after_wakes(m, wakes));
    }
}

/// A process that completed is gone: the scheduler does not know its
/// identifier until it is given out again.
pub proof fn lemma_complete_is_gone<P: Process>(
    m: Map<ProcessId, Entry<P>>,
    after: Map<ProcessId, Entry<P>>,
    pid: ProcessId,
    payload: P,
    duration: Span,
)
    requires
        step_finished(m, after, pid, payload, StepOutcome::<P::Error>::Complete, duration),
    ensures
        !after.contains_key(pid),
{
}

/// With equal runtime the process of higher priority is chosen first.
pub proof fn lemma_priority_decides(
    a: ProcessId,
    b: ProcessId,
    high: Priority,
    low: Priority,
    runtime: Span,
)
    requires
        crate::priority::rank_of(high) > crate::priority::rank_of(low),
    ensures
        chosen_before(order_key(a, high, runtime), order_key(b, low, runtime)),
{
    let r = runtime@;
    let wh = crate::priority::weight_of(high);
    let wl = crate::priority::weight_of(low);
    assert(wh < wl);
    assert(r * wh <= r * wl) by (nonlinear_arith)
        requires
            wh < wl,
            r >= 0,
    ;
    assert(r * wl <= u64::MAX * 64) by (nonlinear_arith)
        requires
            wl <= 64,
            r <= u64::MAX,
    ;
}

/// With equal priority the process of less runtime is chosen first.
pub proof fn lemma_runtime_decides(
    a: ProcessId,
    b: ProcessId,
    priority: Priority,
    less: Span,
    more: Span,
)
    requires
        less@ < more@,
    ensures
        chosen_before(order_key(a, priority, less), order_key(b, priority, more)),
{
    let w = crate::priority::weight_of(priority);
    assert(less@ * w < more@ * w) by (nonlinear_arith)
        requires
            less@ < more@,
            w >= 4,
    ;
    assert(more@ * w <= u64::MAX * 64) by (nonlinear_arith)
        requires
            w <= 64,
            more@ <= u64::MAX,
    ;
}

/// The runtime of a process after steps of the lengths `steps`, starting
/// from `start`.
pub open spec fn accumulated(start: nat, steps: Seq<Span>) -> nat
    decreases steps.len(),
{
    if steps.len() == 0 {
        start
    } else {
        saturating_sum(accumulated(start, steps.drop_last()), steps.last()@)
    }
}

/// The sum of the lengths `steps`.
pub open spec fn total(steps: Seq<Span>) -> nat
    decreases steps.len(),
{
    if steps.len() == 0 {
        0
    } else {
        total(steps.drop_last()) + steps.last()@
    }
}

/// The runtime of a process never shrinks, and it is the sum of the
/// lengths of its steps, held at the largest length that can be
/// represented.
pub proof fn lemma_runtime_is_sum(steps: Seq<Span>)
    ensures
        accumulated(0, steps) == if total(steps) > u64::MAX {
            u64::MAX as nat
        } else {
            total(steps)
        },
        steps.len() > 0 ==> accumulated(0, steps) >= accumulated(0, steps.drop_last()),
    decreases steps.len(),
{
    if steps.len() > 0 {
        lemma_runtime_is_sum(steps.drop_last());
    }
}

impl<P: Process> Scheduler<P> {
    /// Takes back the process that was handed out, after a step that took
    /// `duration` and ended with `outcome`. A pending process waits for a
    /// wake, unless one arrived during the step. A complete process is
    /// dropped and its identifier freed. For a failed process the
    /// supervisor is consulted: restarted, the process is ready at once;
    /// stopped, it is dropped. A process whose identifier is not handed out
    /// is refused, and its supervisor is not consulted.
    pub fn finish_step(
        &mut self,
        process: ProcessRecord<P>,
        outcome: StepOutcome<P::Error>,
        duration: Span,
    ) -> (r: Result<(), SchedulerError>)
        requires
            old(self).wf(),
        ensures
            final(self).wf(),
            r == take_back_result(old(self)@, process.id),
            r.is_err() ==> final(self)@ == old(self)@,
            r.is_ok() ==> step_finished(
                old(self)@,
                final(self)@,
                process.id,
                process.payload,
                outcome,
                duration,
            ),
    {
        match self.state(process.id) {
            Some(ProcessState::Running) => {},
            Some(_) => {
                return Err(SchedulerError::DuplicatePid);
            },
            None => {
                return Err(SchedulerError::UnknownPid);
            },
        }
        let mut taken = process;
        let resolution = match outcome {
            StepOutcome::Pending => Resolution::Suspend,
            StepOutcome::Complete => Resolution::Drop,
            StepOutcome::Failed(error) => match taken.payload.on_failure(error) {
                Recovery::Restarted => Resolution::Restart,
                Recovery::Stopped => Resolution::Drop,
            },
        };
        self.reintegrate(taken, resolution, duration)
    }
}

} // verus!
