//! A first-in, first-out queue with constant-time append: the chain of
//! nodes lives in an arena (a vector of slots), the links are slot indices,
//! and the tail is a cursor — the index of the last node — kept current on
//! every structural change and cleared exactly when the chain empties.
//!
//! A freed slot is remembered on a free list and reused by a later append,
//! so a node's storage is released or recycled as soon as it is removed.
//! Because the arena owns every node, teardown is the vector's own
//! (iterative) teardown: no recursion proportional to the queue's length.
//!
//! The structural invariant [`List::wf`] carries a ghost sequence of the
//! slot indices of the live chain, front to back: the head marker, every
//! `next` link, and the tail cursor are all tied to it, and the emptiness
//! of the chain, of the head marker, and of the tail cursor coincide.

use vstd::prelude::*;

verus! {

struct Node<T> {
    elem: T,
    next: Option<usize>,
}

/// A first-in, first-out queue: append at the tail, remove at the head.
pub struct List<T> {
    slots: Vec<Option<Node<T>>>,
    head: Option<usize>,
    tail: Option<usize>,
    free: Vec<usize>,
    chain: Ghost<Seq<usize>>,
}

impl<T> List<T> {
    /// The slot indices of the live chain, front to back.
    spec fn ch(&self) -> Seq<usize> {
        self.chain@
    }

    /// Every chain entry is a distinct in-range slot holding a node.
    spec fn chain_slots_ok(&self) -> bool {
        let ch = self.ch();
        &&& forall|k: int|
            0 <= k < ch.len() ==> (#[trigger] ch[k]) < self.slots@.len()
                && self.slots@[ch[k] as int] is Some
        &&& forall|k1: int, k2: int|
            0 <= k1 < k2 < ch.len() ==> #[trigger] ch[k1] != #[trigger] ch[k2]
    }

    /// Every free-list entry is a distinct in-range empty slot.
    spec fn free_slots_ok(&self) -> bool {
        let fr = self.free@;
        &&& forall|k: int|
            0 <= k < fr.len() ==> (#[trigger] fr[k]) < self.slots@.len()
                && self.slots@[fr[k] as int] is None
        &&& forall|k1: int, k2: int|
            0 <= k1 < k2 < fr.len() ==> #[trigger] fr[k1] != #[trigger] fr[k2]
    }

    /// Each node's `next` link names the following chain entry, the last
    /// node's `next` is clear, and the head marker and the tail cursor name
    /// the first and last entries — all three empty exactly when the chain
    /// is.
    spec fn links_ok(&self) -> bool {
        let ch = self.ch();
        &&& forall|k: int|
            0 <= k < ch.len() - 1 ==> (#[trigger] self.slots@[ch[k] as int]).unwrap().next
                == Some(ch[k + 1])
        &&& ch.len() > 0 ==> self.slots@[ch.last() as int].unwrap().next is None
        &&& self.head == (if ch.len() == 0 { Option::<usize>::None } else { Some(ch[0]) })
        &&& self.tail == (if ch.len() == 0 { Option::<usize>::None } else { Some(ch.last()) })
    }

    /// The structural invariant: every operation requires and preserves it.
    pub closed spec fn wf(&self) -> bool {
        &&& self.chain_slots_ok()
        &&& self.free_slots_ok()
        &&& self.links_ok()
    }
}

impl<T> View for List<T> {
    type V = Seq<T>;

    /// The elements of the queue, front (next to leave) first.
    closed spec fn view(&self) -> Seq<T> {
        Seq::new(self.ch().len(), |k: int| self.slots@[self.ch()[k] as int].unwrap().elem)
    }
}

impl<T> List<T> {
    /// An empty queue.
    pub fn new() -> (s: Self)
        ensures
            s.wf(),
            s@ == Seq::<T>::empty(),
    {
        List {
            slots: Vec::new(),
            head: None,
            tail: None,
            free: Vec::new(),
            chain: Ghost(Seq::empty()),
        }
    }

    /// Stores `node` in an empty slot — a recycled one when the free list
    /// has one, a fresh one otherwise — and returns its index.
    fn place(&mut self, node: Node<T>) -> (idx: usize)
        requires
            old(self).wf(),
        ensures
            final(self).chain_slots_ok(),
            final(self).free_slots_ok(),
            final(self).head == old(self).head,
            final(self).tail == old(self).tail,
            final(self).ch() == old(self).ch(),
            idx < final(self).slots@.len(),
            !old(self).ch().contains(idx),
            final(self).slots@.len() >= old(self).slots@.len(),
            final(self).slots@[idx as int] == Some(node),
            forall|i: int|
                0 <= i < old(self).slots@.len() && i != idx
                    ==> final(self).slots@[i] == #[trigger] old(self).slots@[i],
    {
        match self.free.pop() {
            Some(f) => {
                self.slots[f] = Some(node);
                assert(!old(self).ch().contains(f)) by {
                    if old(self).ch().contains(f) {
                        let k = choose|k: int|
                            0 <= k < old(self).ch().len() && old(self).ch()[k] == f;
                        assert(old(self).slots@[f as int] is Some);
                    }
                }
                f
            }
            None => {
                let idx = self.slots.len();
                self.slots.push(Some(node));
                assert(!old(self).ch().contains(idx));
                idx
            }
        }
    }

    /// Appends `v` at the tail. The new node is linked as the successor of
    /// the previous last node (or installed as the head of an empty queue),
    /// and the tail cursor moves to it in the same operation.
    pub fn push(&mut self, v: T)
        requires
            old(self).wf(),
        ensures
            final(self).wf(),
            final(self)@ == old(self)@.push(v),
    {
        let idx = self.place(Node { elem: v, next: None });
        match self.tail {
            None => {
                self.head = Some(idx);
            }
            Some(t) => {
                match &mut self.slots[t] {
                    Some(tnode) => {
                        tnode.next = Some(idx);
                    }
                    None => {}
                }
            }
        }
        self.tail = Some(idx);
        proof {
            self.chain@ = self.chain@.push(idx);
        }
        assert(self@ =~= old(self)@.push(v));
    }

    /// Removes and returns the head element; `None` exactly when the queue
    /// is empty, which leaves the queue unchanged. When the last element
    /// leaves, the tail cursor is cleared in the same operation, never left
    /// naming a freed slot.
    pub fn pop(&mut self) -> (r: Option<T>)
        requires
            old(self).wf(),
        ensures
            final(self).wf(),
            match r {
                None => old(self)@.len() == 0 && final(self)@ == old(self)@,
                Some(v) => old(self)@.len() > 0 && v == old(self)@[0]
                    && final(self)@ == old(self)@.drop_first(),
            },
    {
        match self.head {
            None => None,
            Some(h) => {
                let mut taken: Option<Node<T>> = None;
                std::mem::swap(&mut taken, &mut self.slots[h]);
                match taken {
                    None => vstd::pervasive::unreached(),
                    Some(node) => {
                        self.head = node.next;
                        if node.next.is_none() {
                            self.tail = None;
                        }
                        self.free.push(h);
                        proof {
                            self.chain@ = self.chain@.drop_first();
                        }
                        assert(self@ =~= old(self)@.drop_first());
                        Some(node.elem)
                    }
                }
            }
        }
    }

    /// The tail cursor is in its cleared state: it names no slot.
    pub closed spec fn tail_cleared(&self) -> bool {
        self.tail is None
    }

    /// However a well-formed queue reached its current state — after any
    /// pushes and pops — its tail cursor is cleared exactly when the queue
    /// is empty: an emptied queue keeps no stale cursor toward a freed
    /// slot, and a queue holding elements always has its cursor set.
    pub proof fn tail_cleared_iff_empty(&self)
        requires
            self.wf(),
        ensures
            self.tail_cleared() <==> self@.len() == 0,
    {
    }

    /// A read-only view of the head element; `None` exactly when the queue
    /// is empty. The queue is not changed.
    pub fn peek(&self) -> (r: Option<&T>)
        requires
            self.wf(),
        ensures
            match r {
                None => self@.len() == 0,
                Some(p) => self@.len() > 0 && *p == self@[0],
            },
    {
        match self.head {
            None => None,
            Some(h) => match &self.slots[h] {
                Some(node) => Some(&node.elem),
                None => vstd::pervasive::unreached(),
            },
        }
    }

    /// A mutable view of the head element; `None` exactly when the queue is
    /// empty. Writing through the returned reference replaces the head
    /// element and changes nothing else.
    pub fn peek_mut(&mut self) -> (r: Option<&mut T>)
        requires
            old(self).wf(),
        ensures
            final(self).wf(),
            match r {
                None => old(self)@.len() == 0 && final(self)@ == old(self)@,
                Some(p) => old(self)@.len() > 0 && *p == old(self)@[0]
                    && final(self)@ =~= old(self)@.update(0, *final(p)),
            },
    {
        match self.head {
            None => None,
            Some(h) => match &mut self.slots[h] {
                Some(node) => Some(&mut node.elem),
                None => vstd::pervasive::unreached(),
            },
        }
    }

    /// A read-only iterator over the elements, front to back. Each call
    /// starts a fresh traversal; the queue is not changed.
    pub fn iter(&self) -> (it: Iter<'_, T>)
        requires
            self.wf(),
        ensures
            it.wf(),
            it@ == self@,
    {
        Iter { list: self, cur: self.head, at: Ghost(0) }
    }

    /// A mutable iterator over the elements, front to back: each element
    /// can be replaced in place, one at a time, through the references the
    /// iterator yields.
    pub fn iter_mut(&mut self) -> (it: IterMut<'_, T>)
        requires
            old(self).wf(),
        ensures
            it.wf(),
            it@ == old(self)@,
    {
        let cur = self.head;
        IterMut { list: self, cur, at: Ghost(0) }
    }

    /// Consumes the queue; the iterator hands the elements out front to
    /// back, exactly as repeated `pop` calls would.
    pub fn into_iter(self) -> (it: IntoIter<T>)
        requires
            self.wf(),
        ensures
            it.wf(),
            it@ == self@,
    {
        IntoIter { list: self }
    }
}

/// A read-only traversal of a queue, front to back.
pub struct Iter<'a, T> {
    list: &'a List<T>,
    cur: Option<usize>,
    at: Ghost<int>,
}

impl<'a, T> Iter<'a, T> {
    /// The traversal stands at position `at` of a well-formed queue's
    /// chain, and `cur` is the slot index of the node there.
    pub closed spec fn wf(&self) -> bool {
        &&& self.list.wf()
        &&& 0 <= self.at@ <= self.list.ch().len()
        &&& self.cur == (if self.at@ == self.list.ch().len() {
            Option::<usize>::None
        } else {
            Some(self.list.ch()[self.at@])
        })
    }
}

impl<'a, T> View for Iter<'a, T> {
    type V = Seq<T>;

    /// The elements this iterator has yet to yield, in order.
    closed spec fn view(&self) -> Seq<T> {
        self.list@.skip(self.at@)
    }
}

impl<'a, T> Iter<'a, T> {
    /// Yields a reference to the next remaining element, or `None` once all
    /// elements have been yielded.
    pub fn next(&mut self) -> (r: Option<&'a T>)
        requires
            old(self).wf(),
        ensures
            final(self).wf(),
            match r {
                None => old(self)@.len() == 0 && final(self)@ == old(self)@,
                Some(p) => old(self)@.len() > 0 && *p == old(self)@[0]
                    && final(self)@ == old(self)@.drop_first(),
            },
    {
        match self.cur {
            None => None,
            Some(c) => match &self.list.slots[c] {
                Some(node) => {
                    self.cur = node.next;
                    proof {
                        self.at@ = self.at@ + 1;
                    }
                    assert(self@ =~= old(self)@.drop_first());
                    Some(&node.elem)
                }
                None => vstd::pervasive::unreached(),
            },
        }
    }
}

/// A mutable traversal of a queue, front to back. Each call of `next`
/// yields an exclusive reference to one element; the reference is given up
/// before the next call, so no two yielded references are ever live at
/// once.
pub struct IterMut<'a, T> {
    list: &'a mut List<T>,
    cur: Option<usize>,
    at: Ghost<int>,
}

impl<'a, T> IterMut<'a, T> {
    /// The traversal stands at position `at` of a well-formed queue's
    /// chain, and `cur` is the slot index of the node there.
    pub closed spec fn wf(&self) -> bool {
        &&& self.list.wf()
        &&& 0 <= self.at@ <= self.list.ch().len()
        &&& self.cur == (if self.at@ == self.list.ch().len() {
            Option::<usize>::None
        } else {
            Some(self.list.ch()[self.at@])
        })
    }
}

impl<'a, T> View for IterMut<'a, T> {
    type V = Seq<T>;

    /// The elements this iterator has yet to yield, in order.
    closed spec fn view(&self) -> Seq<T> {
        self.list@.skip(self.at@)
    }
}

impl<'a, T> IterMut<'a, T> {
    /// Yields an exclusive reference to the next remaining element, or
    /// `None` once all elements have been yielded. Writing through the
    /// yielded reference replaces that element in the queue and changes
    /// nothing else.
    pub fn next(&mut self) -> (r: Option<&mut T>)
        requires
            old(self).wf(),
        ensures
            final(self).wf(),
            match r {
                None => old(self)@.len() == 0 && final(self)@ == old(self)@,
                Some(p) => old(self)@.len() > 0 && *p == old(self)@[0]
                    && final(self)@ == old(self)@.drop_first(),
            },
    {
        match self.cur {
            None => None,
            Some(c) => match &mut self.list.slots[c] {
                Some(node) => {
                    let nx = node.next;
                    let p = &mut node.elem;
                    self.cur = nx;
                    proof {
                        self.at@ = self.at@ + 1;
                    }
                    Some(p)
                }
                None => vstd::pervasive::unreached(),
            },
        }
    }
}

/// A consuming traversal of a queue, front to back.
pub struct IntoIter<T> {
    list: List<T>,
}

impl<T> IntoIter<T> {
    /// The underlying queue is well formed.
    pub closed spec fn wf(&self) -> bool {
        self.list.wf()
    }
}

impl<T> View for IntoIter<T> {
    type V = Seq<T>;

    /// The elements this iterator has yet to yield, in order.
    closed spec fn view(&self) -> Seq<T> {
        self.list@
    }
}

impl<T> IntoIter<T> {
    /// Removes and returns the next remaining element, or `None` once the
    /// underlying queue is exhausted.
    pub fn next(&mut self) -> (r: Option<T>)
        requires
            old(self).wf(),
        ensures
            final(self).wf(),
            match r {
                None => old(self)@.len() == 0 && final(self)@ == old(self)@,
                Some(v) => old(self)@.len() > 0 && v == old(self)@[0]
                    && final(self)@ == old(self)@.drop_first(),
            },
    {
        self.list.pop()
    }
}

} // verus!
