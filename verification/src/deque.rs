//! A doubly linked list over an arena, with insertion and removal at both
//! ends. Every node carries a backward (`pre`) and a forward (`next`) link,
//! both slot indices into the arena, and the two directions are kept
//! consistent: each node's `next` names the node whose `pre` names it back.
//!
//! Holding the nodes in an arena gives every node a single owner (the
//! arena) while both neighbours can still name it, so the mutual-ownership
//! cycle that two counted references to each other would create cannot
//! arise, and teardown is the vector's own (iterative) teardown: no
//! recursion proportional to the list's length. A removed node's slot is
//! recycled through a free list.
//!
//! The structural invariant [`List::wf`] carries a ghost sequence of the
//! slot indices of the live chain, front to back; the head and tail
//! handles, every link in both directions, and the emptiness of all of
//! them are tied to it.

use vstd::prelude::*;

verus! {

struct Node<T> {
    elem: T,
    pre: Option<usize>,
    next: Option<usize>,
}

/// A double-ended list: elements enter and leave at either end.
pub struct List<T> {
    slots: Vec<Option<Node<T>>>,
    head: Option<usize>,
    tail: Option<usize>,
    free: Vec<usize>,
    chain: Ghost<Seq<usize>>,
}

impl<T> List<T> {
    /// The slot indices of the live chain, front to back.
    spec fn ch(&self) -> Seq<usize> {
        self.chain@
    }

    /// Every chain entry is a distinct in-range slot holding a node.
    spec fn chain_slots_ok(&self) -> bool {
        let ch = self.ch();
        &&& forall|k: int|
            0 <= k < ch.len() ==> (#[trigger] ch[k]) < self.slots@.len()
                && self.slots@[ch[k] as int] is Some
        &&& forall|k1: int, k2: int|
            0 <= k1 < k2 < ch.len() ==> #[trigger] ch[k1] != #[trigger] ch[k2]
    }

    /// Every free-list entry is a distinct in-range empty slot.
    spec fn free_slots_ok(&self) -> bool {
        let fr = self.free@;
        &&& forall|k: int|
            0 <= k < fr.len() ==> (#[trigger] fr[k]) < self.slots@.len()
                && self.slots@[fr[k] as int] is None
        &&& forall|k1: int, k2: int|
            0 <= k1 < k2 < fr.len() ==> #[trigger] fr[k1] != #[trigger] fr[k2]
    }

    /// Both link directions follow the chain: each node's `next` names its
    /// successor and its `pre` its predecessor, the first node's `pre` and
    /// the last node's `next` are clear, and the head and tail handles name
    /// the two ends — all empty exactly when the chain is.
    spec fn links_ok(&self) -> bool {
        let ch = self.ch();
        &&& forall|k: int|
            0 <= k < ch.len() - 1 ==> (#[trigger] self.slots@[ch[k] as int]).unwrap().next
                == Some(ch[k + 1])
        &&& forall|k: int|
            1 <= k < ch.len() ==> (#[trigger] self.slots@[ch[k] as int]).unwrap().pre == Some(
                ch[k - 1],
            )
        &&& ch.len() > 0 ==> self.slots@[ch.last() as int].unwrap().next is None
        &&& ch.len() > 0 ==> self.slots@[ch[0] as int].unwrap().pre is None
        &&& self.head == (if ch.len() == 0 { Option::<usize>::None } else { Some(ch[0]) })
        &&& self.tail == (if ch.len() == 0 { Option::<usize>::None } else { Some(ch.last()) })
    }

    /// The structural invariant: every operation requires and preserves it.
    pub closed spec fn wf(&self) -> bool {
        &&& self.chain_slots_ok()
        &&& self.free_slots_ok()
        &&& self.links_ok()
    }
}

impl<T> View for List<T> {
    type V = Seq<T>;

    /// The elements of the list, front to back.
    closed spec fn view(&self) -> Seq<T> {
        Seq::new(self.ch().len(), |k: int| self.slots@[self.ch()[k] as int].unwrap().elem)
    }
}

impl<T> List<T> {
    /// An empty list.
    pub fn new() -> (s: Self)
        ensures
            s.wf(),
            s@ == Seq::<T>::empty(),
    {
        List {
            slots: Vec::new(),
            head: None,
            tail: None,
            free: Vec::new(),
            chain: Ghost(Seq::empty()),
        }
    }

    /// Stores `node` in an empty slot — a recycled one when the free list
    /// has one, a fresh one otherwise — and returns its index.
    fn place(&mut self, node: Node<T>) -> (idx: usize)
        requires
            old(self).wf(),
        ensures
            final(self).chain_slots_ok(),
            final(self).free_slots_ok(),
            final(self).head == old(self).head,
            final(self).tail == old(self).tail,
            final(self).ch() == old(self).ch(),
            idx < final(self).slots@.len(),
            !old(self).ch().contains(idx),
            final(self).slots@.len() >= old(self).slots@.len(),
            final(self).slots@[idx as int] == Some(node),
            forall|i: int|
                0 <= i < old(self).slots@.len() && i != idx
                    ==> final(self).slots@[i] == #[trigger] old(self).slots@[i],
    {
        match self.free.pop() {
            Some(f) => {
                self.slots[f] = Some(node);
                assert(!old(self).ch().contains(f)) by {
                    if old(self).ch().contains(f) {
                        let k = choose|k: int|
                            0 <= k < old(self).ch().len() && old(self).ch()[k] == f;
                        assert(old(self).slots@[f as int] is Some);
                    }
                }
                f
            }
            None => {
                let idx = self.slots.len();
                self.slots.push(Some(node));
                assert(!old(self).ch().contains(idx));
                idx
            }
        }
    }

    /// Both end handles are in their cleared state: they name no slot.
    pub closed spec fn handles_cleared(&self) -> bool {
        self.head is None && self.tail is None
    }

    /// However a well-formed list reached its current state — after any
    /// insertions and removals at either end — its head and tail handles
    /// are cleared exactly when the list is empty: an emptied list keeps no
    /// stale handle toward a freed slot, and a list holding elements always
    /// has both handles set.
    pub proof fn handles_cleared_iff_empty(&self)
        requires
            self.wf(),
        ensures
            self.handles_cleared() <==> self@.len() == 0,
    {
    }

    /// Inserts `v` at the front. The new node's `next` becomes the former
    /// head, the former head's `pre` names the new node back, and the head
    /// handle moves to the new node (which is also the tail when the list
    /// was empty).
    pub fn push_front(&mut self, v: T)
        requires
            old(self).wf(),
        ensures
            final(self).wf(),
            final(self)@ == seq![v] + old(self)@,
    {
        let h0 = self.head;
        let idx = self.place(Node { elem: v, pre: None, next: h0 });
        match h0 {
            None => {
                self.tail = Some(idx);
            }
            Some(h) => {
                match &mut self.slots[h] {
                    Some(hnode) => {
                        hnode.pre = Some(idx);
                    }
                    None => {}
                }
            }
        }
        self.head = Some(idx);
        proof {
            self.chain@ = seq![idx] + self.chain@;
        }
        assert(self@ =~= seq![v] + old(self)@);
    }

    /// Removes and returns the front element; `None` exactly when the list
    /// is empty, which leaves the list unchanged. The second node, when
    /// there is one, has its `pre` cleared and becomes the head; when the
    /// only node leaves, the tail handle is cleared as well.
    pub fn pop_front(&mut self) -> (r: Option<T>)
        requires
            old(self).wf(),
        ensures
            final(self).wf(),
            match r {
                None => old(self)@.len() == 0 && final(self)@ == old(self)@,
                Some(v) => old(self)@.len() > 0 && v == old(self)@[0]
                    && final(self)@ == old(self)@.drop_first(),
            },
    {
        match self.head {
            None => None,
            Some(h) => {
                let mut taken: Option<Node<T>> = None;
                std::mem::swap(&mut taken, &mut self.slots[h]);
                match taken {
                    None => vstd::pervasive::unreached(),
                    Some(node) => {
                        self.head = node.next;
                        match node.next {
                            None => {
                                self.tail = None;
                            }
                            Some(nh) => {
                                match &mut self.slots[nh] {
                                    Some(n2) => {
                                        n2.pre = None;
                                    }
                                    None => {}
                                }
                            }
                        }
                        self.free.push(h);
                        proof {
                            self.chain@ = self.chain@.drop_first();
                        }
                        assert(self@ =~= old(self)@.drop_first());
                        Some(node.elem)
                    }
                }
            }
        }
    }

    /// Inserts `v` at the back. The new node's `pre` becomes the former
    /// tail, the former tail's `next` names the new node, and the tail
    /// handle moves to the new node (which is also the head when the list
    /// was empty).
    pub fn push_back(&mut self, v: T)
        requires
            old(self).wf(),
        ensures
            final(self).wf(),
            final(self)@ == old(self)@.push(v),
    {
        let t0 = self.tail;
        let idx = self.place(Node { elem: v, pre: t0, next: None });
        match t0 {
            None => {
                self.head = Some(idx);
            }
            Some(t) => {
                match &mut self.slots[t] {
                    Some(tnode) => {
                        tnode.next = Some(idx);
                    }
                    None => {}
                }
            }
        }
        self.tail = Some(idx);
        proof {
            self.chain@ = self.chain@.push(idx);
        }
        assert(self@ =~= old(self)@.push(v));
    }

    /// Removes and returns the back element; `None` exactly when the list
    /// is empty, which leaves the list unchanged. The next-to-last node,
    /// when there is one, has its `next` cleared and becomes the tail; when
    /// the only node leaves, the head handle is cleared as well.
    pub fn pop_back(&mut self) -> (r: Option<T>)
        requires
            old(self).wf(),
        ensures
            final(self).wf(),
            match r {
                None => old(self)@.len() == 0 && final(self)@ == old(self)@,
                Some(v) => old(self)@.len() > 0 && v == old(self)@.last()
                    && final(self)@ == old(self)@.drop_last(),
            },
    {
        match self.tail {
            None => None,
            Some(t) => {
                let mut taken: Option<Node<T>> = None;
                std::mem::swap(&mut taken, &mut self.slots[t]);
                match taken {
                    None => vstd::pervasive::unreached(),
                    Some(node) => {
                        self.tail = node.pre;
                        match node.pre {
                            None => {
                                self.head = None;
                            }
                            Some(nt) => {
                                match &mut self.slots[nt] {
                                    Some(n2) => {
                                        n2.next = None;
                                    }
                                    None => {}
                                }
                            }
                        }
                        self.free.push(t);
                        proof {
                            self.chain@ = self.chain@.drop_last();
                        }
                        assert(self@ =~= old(self)@.drop_last());
                        Some(node.elem)
                    }
                }
            }
        }
    }
}

} // verus!
