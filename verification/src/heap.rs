//! A binary min-heap of keys: the ordered collection behind the ready set and
//! the deadline registry.

use vstd::multiset::Multiset;
use vstd::prelude::*;

verus! {

/// What a heap orders by: `major` first, then `minor`, then `pid`.
#[derive(Clone, Copy, Debug, PartialEq, Eq, Structural)]
pub struct Key {
    pub major: u128,
    pub minor: u8,
    pub pid: usize,
}

/// `a` comes strictly before `b`.
pub open spec fn key_lt(a: Key, b: Key) -> bool {
    a.major < b.major || (a.major == b.major && (a.minor < b.minor || (a.minor == b.minor && a.pid
        < b.pid)))
}

/// `a` comes before `b` or is `b`.
pub open spec fn key_le(a: Key, b: Key) -> bool {
    a == b || key_lt(a, b)
}

/// Index of the parent of the node at index `i > 0`.
pub open spec fn parent(i: int) -> int {
    (i - 1) / 2
}

/// The node at `i` is not before its parent.
pub open spec fn ordered_at(s: Seq<Key>, i: int) -> bool {
    i > 0 ==> key_le(s[parent(i)], s[i])
}

/// Every node is ordered with its parent.
pub open spec fn is_heap(s: Seq<Key>) -> bool {
    forall|i: int| 0 <= i < s.len() ==> ordered_at(s, i)
}

/// Every node but `hole` is ordered with its parent, and the children of
/// `hole` are ordered with its parent.
spec fn heap_but_up(s: Seq<Key>, hole: int) -> bool {
    &&& forall|i: int| 0 <= i < s.len() && i != hole ==> ordered_at(s, i)
    &&& forall|c: int|
        0 < c < s.len() && parent(c) == hole && hole > 0 ==> key_le(s[parent(hole)], #[trigger] s[c])
}

/// Every node whose parent is not `hole` is ordered with its parent, and the
/// children of `hole` are ordered with its parent.
spec fn heap_but_down(s: Seq<Key>, hole: int) -> bool {
    &&& forall|i: int| 0 <= i < s.len() && parent(i) != hole ==> ordered_at(s, i)
    &&& forall|c: int|
        0 < c < s.len() && parent(c) == hole && hole > 0 ==> key_le(s[parent(hole)], #[trigger] s[c])
}

/// In a heap the root is before every other node.
proof fn lemma_root_is_least(s: Seq<Key>, i: int)
    requires
        is_heap(s),
        0 <= i < s.len(),
    ensures
        key_le(s[0], s[i]),
    decreases i,
{
    if i > 0 {
        lemma_root_is_least(s, parent(i));
        assert(ordered_at(s, i));
    }
}

/// Exchanging two entries keeps what the sequence holds.
proof fn lemma_swap_keeps_multiset(s: Seq<Key>, i: int, j: int)
    requires
        0 <= i < s.len(),
        0 <= j < s.len(),
    ensures
        s.update(i, s[j]).update(j, s[i]).to_multiset() == s.to_multiset(),
{
    broadcast use vstd::multiset::group_multiset_axioms;

    vstd::seq_lib::to_multiset_update(s, i, s[j]);
    vstd::seq_lib::to_multiset_update(s.update(i, s[j]), j, s[i]);
    s.to_multiset_ensures();
    assert(s.contains(s[i]));
    assert(s.contains(s[j]));
    assert(s.update(i, s[j]).update(j, s[i]).to_multiset() =~= s.to_multiset());
}

/// Whether `a` comes strictly before `b`.
pub fn key_before(a: &Key, b: &Key) -> (r: bool)
    ensures
        r == key_lt(*a, *b),
{
    a.major < b.major || (a.major == b.major && (a.minor < b.minor || (a.minor == b.minor && a.pid
        < b.pid)))
}

/// A collection of keys that hands out the least one first.
pub struct MinHeap {
    items: Vec<Key>,
}

impl View for MinHeap {
    type V = Multiset<Key>;

    closed spec fn view(&self) -> Multiset<Key> {
        self.items@.to_multiset()
    }
}

impl MinHeap {
    /// The heap order holds.
    pub closed spec fn wf(&self) -> bool {
        is_heap(self.items@)
    }

    /// `k` is in `m` and no key of `m` comes before it.
    pub open spec fn is_least(m: Multiset<Key>, k: Key) -> bool {
        &&& m.count(k) > 0
        &&& forall|j: Key| m.count(j) > 0 ==> key_le(k, j)
    }

    /// An empty heap.
    pub fn new() -> (h: MinHeap)
        ensures
            h.wf(),
            h@ == Multiset::<Key>::empty(),
    {
        let h = MinHeap { items: Vec::new() };
        proof {
            h.items@.to_multiset_ensures();
            assert(h@ =~= Multiset::<Key>::empty()) by {
                broadcast use vstd::multiset::group_multiset_axioms;

                assert(h@.len() == 0);
            }
        }
        h
    }

    /// The number of keys held.
    pub fn len(&self) -> (n: usize)
        ensures
            n == self@.len(),
    {
        proof {
            self.items@.to_multiset_ensures();
        }
        self.items.len()
    }

    /// Whether no key is held.
    pub fn is_empty(&self) -> (r: bool)
        ensures
            r == (self@.len() == 0),
    {
        proof {
            self.items@.to_multiset_ensures();
        }
        self.items.len() == 0
    }

    /// The least key, if any.
    pub fn peek(&self) -> (r: Option<Key>)
        requires
            self.wf(),
        ensures
            self@.len() == 0 <==> r.is_none(),
            r.is_some() ==> Self::is_least(self@, r.unwrap()),
    {
        proof {
            self.items@.to_multiset_ensures();
        }
        if self.items.len() == 0 {
            None
        } else {
            let k = self.items[0];
            proof {
                self.lemma_first_is_least();
            }
            Some(k)
        }
    }

    proof fn lemma_first_is_least(&self)
        requires
            self.wf(),
            self.items@.len() > 0,
        ensures
            Self::is_least(self@, self.items@[0]),
    {
        let s = self.items@;
        s.to_multiset_ensures();
        assert(s.contains(s[0]));
        assert forall|j: Key| self@.count(j) > 0 implies key_le(s[0], j) by {
            assert(s.contains(j));
            let i = choose|i: int| 0 <= i < s.len() && s[i] == j;
            lemma_root_is_least(s, i);
        }
    }

    /// Adds `k`.
    pub fn push(&mut self, k: Key)
        requires
            old(self).wf(),
        ensures
            final(self).wf(),
            final(self)@ == old(self)@.insert(k),
    {
        proof {
            self.items@.to_multiset_ensures();
        }
        self.items.push(k);
        let mut pos: usize = self.items.len() - 1;
        assert(heap_but_up(self.items@, pos as int)) by {
            assert forall|i: int| 0 <= i < self.items@.len() && i != pos implies ordered_at(
                self.items@,
                i,
            ) by {
                assert(ordered_at(old(self).items@, i));
            }
        }
        while pos > 0
            invariant
                pos < self.items@.len(),
                self.items@.to_multiset() == old(self)@.insert(k),
                heap_but_up(self.items@, pos as int),
            ensures
                is_heap(self.items@),
                self.items@.to_multiset() == old(self)@.insert(k),
            decreases pos,
        {
            let up: usize = (pos - 1) / 2;
            let child = self.items[pos];
            let above = self.items[up];
            if !key_before(&child, &above) {
                assert(ordered_at(self.items@, pos as int));
                break ;
            }
            let ghost before = self.items@;
            self.items.set(pos, above);
            self.items.set(up, child);
            proof {
                lemma_swap_keeps_multiset(before, pos as int, up as int);
                let after = self.items@;
                assert(after == before.update(pos as int, before[up as int]).update(
                    up as int,
                    before[pos as int],
                ));
                assert forall|i: int| 0 <= i < after.len() && i != up implies ordered_at(
                    after,
                    i,
                ) by {
                    if i > 0 {
                        let pi = parent(i);
                        if i == pos {
                        } else if pi == up {
                            assert(ordered_at(before, i));
                        } else if pi == pos {
                            assert(key_le(before[parent(pos as int)], before[i]));
                        } else {
                            assert(ordered_at(before, i));
                        }
                    }
                }
                assert forall|c: int|
                    0 < c < after.len() && parent(c) == up && up > 0 implies key_le(
                    after[parent(up as int)],
                    #[trigger] after[c],
                ) by {
                    assert(ordered_at(before, up as int));
                    if c != pos {
                        assert(ordered_at(before, c));
                    }
                }
            }
            pos = up;
        }
    }

    /// Takes the least key out, if any.
    pub fn pop(&mut self) -> (r: Option<Key>)
        requires
            old(self).wf(),
        ensures
            final(self).wf(),
            old(self)@.len() == 0 <==> r.is_none(),
            r.is_none() ==> final(self)@ == old(self)@,
            r.is_some() ==> Self::is_least(old(self)@, r.unwrap()) && final(self)@ == old(self)@.remove(
                r.unwrap(),
            ),
    {
        proof {
            self.items@.to_multiset_ensures();
        }
        let n: usize = self.items.len();
        if n == 0 {
            return None;
        }
        proof {
            self.lemma_first_is_least();
        }
        let least = self.items[0];
        let last = self.items[n - 1];
        let ghost start = self.items@;
        self.items.set(0, last);
        let _ = self.items.pop();
        proof {
            let swapped = start.update(0, start[n - 1]).update(n - 1, start[0]);
            lemma_swap_keeps_multiset(start, 0, n - 1);
            assert(self.items@ =~= swapped.remove(n - 1));
            vstd::seq_lib::to_multiset_remove(swapped, n - 1);
            assert forall|i: int| 0 <= i < self.items@.len() && parent(i) != 0 implies ordered_at(
                self.items@,
                i,
            ) by {
                assert(ordered_at(start, i));
            }
        }
        let m: usize = n - 1;
        let mut pos: usize = 0;
        while pos < m / 2
            invariant
                m == self.items@.len(),
                pos <= m,
                self.items@.to_multiset() == old(self)@.remove(least),
                heap_but_down(self.items@, pos as int),
            ensures
                is_heap(self.items@),
                self.items@.to_multiset() == old(self)@.remove(least),
            decreases m - pos,
        {
            let left: usize = 2 * pos + 1;
            let right: usize = left + 1;
            let mut low: usize = left;
            if right < m {
                let l = self.items[left];
                let r = self.items[right];
                if key_before(&r, &l) {
                    low = right;
                }
            }
            let here = self.items[pos];
            let below = self.items[low];
            if !key_before(&below, &here) {
                proof {
                    let s = self.items@;
                    assert forall|i: int| 0 <= i < s.len() implies ordered_at(s, i) by {
                        if i > 0 && parent(i) == pos {
                            assert(i == left || i == right);
                        }
                    }
                }
                break ;
            }
            let ghost before = self.items@;
            self.items.set(pos, below);
            self.items.set(low, here);
            proof {
                lemma_swap_keeps_multiset(before, pos as int, low as int);
                let after = self.items@;
                assert(after == before.update(pos as int, before[low as int]).update(
                    low as int,
                    before[pos as int],
                ));
                assert forall|i: int| 0 <= i < after.len() && parent(i) != low implies ordered_at(
                    after,
                    i,
                ) by {
                    if i > 0 {
                        let pi = parent(i);
                        if pi == pos {
                            assert(i == left || i == right);
                        } else if i == pos {
                            assert(key_le(before[parent(pos as int)], before[low as int]));
                        } else {
                            assert(ordered_at(before, i));
                        }
                    }
                }
                assert forall|c: int|
                    0 < c < after.len() && parent(c) == low && low > 0 implies key_le(
                    after[parent(low as int)],
                    #[trigger] after[c],
                ) by {
                    assert(ordered_at(before, c));
                }
            }
            pos = low;
        }
        proof {
            if pos >= m / 2 {
                let s = self.items@;
                assert forall|i: int| 0 <= i < s.len() implies ordered_at(s, i) by {
                    if i > 0 && parent(i) == pos {
                        assert(false);
                    }
                }
            }
        }
        Some(least)
    }
}

} // verus!
