//! The deadline registry of a worker: which process asked to be woken
//! when.

use crate::heap::{key_le, Key, MinHeap};
use crate::pid::ProcessId;
use crate::time::{Span, Timestamp};
use vstd::prelude::*;

verus! {

/// The key under which the deadline of `pid` at `deadline` is kept.
pub open spec fn deadline_key(deadline: Timestamp, pid: ProcessId) -> Key {
    Key { major: deadline.0 as u128, minor: 0, pid: pid.0 }
}

/// `d` is in `s` and no deadline of `s` is earlier; among those at the same
/// time it is the one of the lowest identifier.
pub open spec fn is_earliest(s: Set<(Timestamp, ProcessId)>, d: (Timestamp, ProcessId)) -> bool {
    &&& s.contains(d)
    &&& forall|e: (Timestamp, ProcessId)| #[trigger]
        s.contains(e) ==> d.0@ < e.0@ || (d.0 == e.0 && d.1.0 <= e.1.0)
}

/// How long a worker may wait for the deadline `next` when it is `now`:
/// until the deadline, and not at all if it has passed.
pub open spec fn time_until(next: Timestamp, now: Timestamp) -> Span {
    if next@ > now@ {
        Span((next@ - now@) as u64)
    } else {
        Span(0)
    }
}

/// The deadlines that processes have registered, the earliest first.
pub struct DeadlineRegistry {
    heap: MinHeap,
}

impl View for DeadlineRegistry {
    type V = Set<(Timestamp, ProcessId)>;

    closed spec fn view(&self) -> Set<(Timestamp, ProcessId)> {
        Set::new(|d: (Timestamp, ProcessId)| self.heap@.count(deadline_key(d.0, d.1)) > 0)
    }
}

impl DeadlineRegistry {
    /// The number of registrations held, repeated ones counted.
    pub closed spec fn size(&self) -> nat {
        self.heap@.len()
    }

    /// The registry's own invariant.
    pub closed spec fn wf(&self) -> bool {
        &&& self.heap.wf()
        &&& forall|k: Key| #[trigger]
            self.heap@.count(k) > 0 ==> k.minor == 0 && k.major <= u64::MAX
    }

    /// A registry without deadlines.
    pub fn new() -> (r: Self)
        ensures
            r.wf(),
            r@ == Set::<(Timestamp, ProcessId)>::empty(),
    {
        let r = DeadlineRegistry { heap: MinHeap::new() };
        proof {
            broadcast use vstd::multiset::group_multiset_axioms;

            assert(r@ =~= Set::<(Timestamp, ProcessId)>::empty());
        }
        r
    }

    proof fn lemma_key_of(k: Key)
        requires
            k.minor == 0,
            k.major <= u64::MAX,
        ensures
            deadline_key(Timestamp(k.major as u64), ProcessId(k.pid)) == k,
    {
    }

    /// Registers that `pid` wants to be woken at `deadline`.
    pub fn add(&mut self, pid: ProcessId, deadline: Timestamp)
        requires
            old(self).wf(),
        ensures
            final(self).wf(),
            final(self)@ == old(self)@.insert((deadline, pid)),
    {
        broadcast use vstd::multiset::group_multiset_axioms;

        let key = Key { major: deadline.0 as u128, minor: 0, pid: pid.0 };
        self.heap.push(key);
        proof {
            assert forall|d: (Timestamp, ProcessId)| self@.contains(d) <==> old(self)@.insert(
                (deadline, pid),
            ).contains(d) by {
                if d != (deadline, pid) {
                    assert(deadline_key(d.0, d.1) != key);
                }
            }
            assert(self@ =~= old(self)@.insert((deadline, pid)));
        }
    }

    /// Whether no deadline is registered.
    pub fn is_empty(&self) -> (r: bool)
        requires
            self.wf(),
        ensures
            r == (self@ == Set::<(Timestamp, ProcessId)>::empty()),
    {
        broadcast use vstd::multiset::group_multiset_axioms;

        let r = self.heap.is_empty();
        proof {
            if r {
                assert(self@ =~= Set::<(Timestamp, ProcessId)>::empty());
            } else {
                let k = self.heap@.choose();
                assert(self.heap@.count(k) > 0);
                Self::lemma_key_of(k);
                assert(self@.contains((Timestamp(k.major as u64), ProcessId(k.pid))));
            }
        }
        r
    }

    /// The earliest deadline and the process that registered it, if any.
    pub fn next_deadline(&self) -> (r: Option<(Timestamp, ProcessId)>)
        requires
            self.wf(),
        ensures
            r.is_none() <==> self@ == Set::<(Timestamp, ProcessId)>::empty(),
            r matches Some(d) ==> is_earliest(self@, d),
    {
        broadcast use vstd::multiset::group_multiset_axioms;

        match self.heap.peek() {
            None => {
                assert(self@ =~= Set::<(Timestamp, ProcessId)>::empty());
                None
            },
            Some(k) => {
                let t = Timestamp(k.major as u64);
                proof {
                    Self::lemma_key_of(k);
                    let d = (t, ProcessId(k.pid));
                    assert(self@.contains(d));
                    assert forall|e: (Timestamp, ProcessId)| #[trigger]
                        self@.contains(e) implies d.0@ < e.0@ || (d.0 == e.0 && d.1.0 <= e.1.0) by {
                        assert(key_le(k, deadline_key(e.0, e.1)));
                    }
                    assert(is_earliest(self@, d));
                }
                Some((t, ProcessId(k.pid)))
            },
        }
    }

    /// Takes out the earliest deadline that has passed at `now`, if there is
    /// one, and gives the process that registered it.
    pub fn pop_expired(&mut self, now: Timestamp) -> (r: Option<(Timestamp, ProcessId)>)
        requires
            old(self).wf(),
        ensures
            final(self).wf(),
            r.is_none() <==> forall|d: (Timestamp, ProcessId)| #[trigger]
                old(self)@.contains(d) ==> d.0@ > now@,
            r.is_none() ==> final(self)@ == old(self)@,
            r matches Some(d) ==> d.0@ <= now@ && is_earliest(old(self)@, d) && final(self)@ == old(
                self,
            )@.remove(d),
            r.is_some() ==> final(self).size() < old(self).size(),
    {
        broadcast use vstd::multiset::group_multiset_axioms;

        let k = match self.heap.peek() {
            None => {
                return None;
            },
            Some(k) => k,
        };
        proof {
            Self::lemma_key_of(k);
        }
        let t = Timestamp(k.major as u64);
        let pid = ProcessId(k.pid);
        let ghost d = (t, pid);
        proof {
            assert(self@.contains(d));
            assert forall|e: (Timestamp, ProcessId)| #[trigger]
                self@.contains(e) implies d.0@ < e.0@ || (d.0 == e.0 && d.1.0 <= e.1.0) by {
                assert(key_le(k, deadline_key(e.0, e.1)));
            }
        }
        if t.0 > now.0 {
            return None;
        }
        let mut more = true;
        while more
            invariant
                self.wf(),
                forall|j: Key| j != k ==> self.heap@.count(j) == old(self).heap@.count(j),
                MinHeap::is_least(old(self).heap@, k),
                more ==> self.heap@.len() <= old(self).heap@.len(),
                !more ==> self.heap@.len() < old(self).heap@.len(),
                more ==> self.heap@.count(k) > 0,
                !more ==> self.heap@.count(k) == 0,
            decreases self.heap@.len(),
        {
            let ghost before = self.heap@;
            let popped = self.heap.pop();
            proof {
                let j = popped.unwrap();
                assert(key_le(j, k));
                assert(before.count(k) > 0);
                if j != k {
                    assert(old(self).heap@.count(j) > 0);
                    assert(MinHeap::is_least(old(self).heap@, k));
                    assert(key_le(k, j));
                }
            }
            more = match self.heap.peek() {
                None => false,
                Some(j) => {
                    proof {
                        if j != k && self.heap@.count(k) > 0 {
                            assert(key_le(j, k));
                            assert(old(self).heap@.count(j) > 0);
                            assert(key_le(k, j));
                        }
                    }
                    j.major == k.major && j.minor == k.minor && j.pid == k.pid
                },
            };
        }
        proof {
            assert forall|e: (Timestamp, ProcessId)| self@.contains(e) <==> old(self)@.remove(
                d,
            ).contains(e) by {
                if e != d {
                    assert(deadline_key(e.0, e.1) != k);
                }
            }
            assert(self@ =~= old(self)@.remove(d));
        }
        Some((t, pid))
    }

    /// Takes the deadline of `pid` at `deadline` out, however often it was
    /// registered, and tells whether it was there.
    pub fn remove(&mut self, pid: ProcessId, deadline: Timestamp) -> (r: bool)
        requires
            old(self).wf(),
        ensures
            final(self).wf(),
            r == old(self)@.contains((deadline, pid)),
            final(self)@ == old(self)@.remove((deadline, pid)),
    {
        broadcast use vstd::multiset::group_multiset_axioms;

        let target = Key { major: deadline.0 as u128, minor: 0, pid: pid.0 };
        let mut kept: Vec<Key> = Vec::new();
        let mut found = false;
        proof {
            kept@.to_multiset_ensures();
            assert(kept@.to_multiset().len() == 0);
        }
        loop
            invariant
                old(self).wf(),
                self.wf(),
                forall|k: Key|
                    k != target ==> self.heap@.count(k) + #[trigger] kept@.to_multiset().count(k)
                        == old(self).heap@.count(k),
                kept@.to_multiset().count(target) == 0,
                self.heap@.count(target) <= old(self).heap@.count(target),
                found == (self.heap@.count(target) < old(self).heap@.count(target)),
            ensures
                self.heap@.len() == 0,
            decreases self.heap@.len(),
        {
            let ghost before = kept@;
            match self.heap.pop() {
                None => {
                    break ;
                },
                Some(k) => {
                    if k.major == target.major && k.minor == target.minor && k.pid == target.pid {
                        found = true;
                    } else {
                        kept.push(k);
                        proof {
                            vstd::seq_lib::to_multiset_build(before, k);
                        }
                    }
                },
            }
        }
        assert(forall|k: Key| #[trigger] self.heap@.count(k) == 0);
        loop
            invariant
                old(self).wf(),
                self.wf(),
                forall|k: Key|
                    k != target ==> self.heap@.count(k) + #[trigger] kept@.to_multiset().count(k)
                        == old(self).heap@.count(k),
                kept@.to_multiset().count(target) == 0,
                self.heap@.count(target) == 0,
            ensures
                kept@.len() == 0,
            decreases kept@.len(),
        {
            let ghost before = kept@;
            match kept.pop() {
                None => {
                    break ;
                },
                Some(k) => {
                    let ghost held = self.heap@;
                    proof {
                        assert(before =~= kept@.push(k));
                        vstd::seq_lib::to_multiset_build(kept@, k);
                        assert(before.to_multiset().count(k) > 0);
                        assert(k != target);
                        assert(held.count(k) + before.to_multiset().count(k) == old(
                            self,
                        ).heap@.count(k));
                        assert(old(self).heap@.count(k) > 0);
                    }
                    self.heap.push(k);
                    proof {
                        assert forall|j: Key| j != target implies self.heap@.count(j)
                            + #[trigger] kept@.to_multiset().count(j) == old(self).heap@.count(
                            j,
                        ) by {
                            assert(held.count(j) + before.to_multiset().count(j) == old(
                                self,
                            ).heap@.count(j));
                        }
                        assert forall|j: Key| #[trigger] self.heap@.count(j) > 0 implies j.minor
                            == 0 && j.major <= u64::MAX by {
                            if j != k {
                                assert(held.count(j) > 0);
                            } else {
                                assert(old(self).heap@.count(k) > 0);
                                assert(old(self).wf());
                            }
                        }
                    }
                },
            }
        }
        proof {
            kept@.to_multiset_ensures();
            assert(kept@.to_multiset().len() == 0);
            assert forall|k: Key| k != target implies self.heap@.count(k) == old(self).heap@.count(
                k,
            ) by {
                assert(kept@.to_multiset().count(k) == 0);
            }
            let d = (deadline, pid);
            assert forall|e: (Timestamp, ProcessId)| self@.contains(e) <==> old(self)@.remove(
                d,
            ).contains(e) by {
                if e != d {
                    assert(deadline_key(e.0, e.1) != target);
                }
            }
            assert(self@ =~= old(self)@.remove(d));
        }
        found
    }

    /// How long the worker may wait at `now` before a deadline passes:
    /// nothing if none is registered.
    pub fn next_timeout(&self, now: Timestamp) -> (r: Option<Span>)
        requires
            self.wf(),
        ensures
            r.is_none() <==> self@ == Set::<(Timestamp, ProcessId)>::empty(),
            r matches Some(span) ==> exists|d: (Timestamp, ProcessId)|
                is_earliest(self@, d) && span == time_until(d.0, now),
    {
        match self.next_deadline() {
            None => None,
            Some(d) => Some(d.0.saturating_since(now)),
        }
    }
}

} // verus!
