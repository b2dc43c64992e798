//! A first-in, first-out queue over a singly linked chain of boxed nodes,
//! with no stored tail: every append re-derives the tail by borrowing its
//! way down the chain, and the borrow ends when the append does. Nothing
//! else ever refers to the tail, so the chain needs no well-formedness
//! invariant — the price is that an append walks the whole chain.

use vstd::prelude::*;

verus! {

struct Node<T> {
    elem: T,
    next: Option<Box<Node<T>>>,
}

/// The elements reachable from `link`, front (head) first.
spec fn link_view<T>(link: Option<Box<Node<T>>>) -> Seq<T>
    decreases link,
{
    match link {
        None => Seq::empty(),
        Some(node) => seq![node.elem] + link_view(node.next),
    }
}

/// Appends `v` behind the last node reachable from `link` (or installs it
/// as the node `link` names, when `link` is the end of the chain).
fn append_last<T>(link: &mut Option<Box<Node<T>>>, v: T)
    ensures
        link_view(*final(link)) == link_view(*old(link)).push(v),
    decreases *old(link),
{
    match link {
        None => {
            *link = Some(Box::new(Node { elem: v, next: None }));
        }
        Some(node) => {
            append_last(&mut node.next, v);
        }
    }
    assert(link_view(*link) =~= link_view(*old(link)).push(v));
}

/// A first-in, first-out queue: append at the tail, remove at the head.
pub struct List<T> {
    head: Option<Box<Node<T>>>,
}

impl<T> View for List<T> {
    type V = Seq<T>;

    closed spec fn view(&self) -> Seq<T> {
        link_view(self.head)
    }
}

impl<T> List<T> {
    /// An empty queue.
    pub fn new() -> (s: Self)
        ensures
            s@ == Seq::<T>::empty(),
    {
        List { head: None }
    }

    /// Appends `v` at the tail. The tail is found afresh by a borrow that
    /// lives only for this call; if the queue is empty, the new node
    /// becomes the head.
    pub fn push(&mut self, v: T)
        ensures
            final(self)@ == old(self)@.push(v),
    {
        append_last(&mut self.head, v);
    }

    /// Removes and returns the head element; `None` exactly when the queue
    /// is empty, which leaves the queue (and so also its tail) unchanged.
    pub fn pop(&mut self) -> (r: Option<T>)
        ensures
            match r {
                None => old(self)@.len() == 0 && final(self)@ == old(self)@,
                Some(v) => old(self)@.len() > 0 && v == old(self)@[0]
                    && final(self)@ == old(self)@.drop_first(),
            },
    {
        match self.head.take() {
            None => None,
            Some(node) => {
                let boxed = *node;
                self.head = boxed.next;
                assert(link_view(self.head) =~= link_view(old(self).head).drop_first());
                Some(boxed.elem)
            }
        }
    }
}

} // verus!
