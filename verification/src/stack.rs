//! A last-in, first-out list over a singly linked chain of boxed nodes.
//!
//! Every node is owned exclusively by its predecessor's `next` link (the
//! first node by the list's `head`), so the chain needs no well-formedness
//! invariant: any value of the type is a valid list. The view of a list is
//! the sequence of its elements from the head down, so index 0 is the most
//! recently pushed element.

use vstd::prelude::*;

verus! {

struct Node<T> {
    elem: T,
    next: Option<Box<Node<T>>>,
}

/// The elements reachable from `link`, front (head) first.
spec fn link_view<T>(link: Option<Box<Node<T>>>) -> Seq<T>
    decreases link,
{
    match link {
        None => Seq::empty(),
        Some(node) => seq![node.elem] + link_view(node.next),
    }
}

/// A last-in, first-out list: elements enter and leave at the head.
pub struct List<T> {
    head: Option<Box<Node<T>>>,
}

impl<T> View for List<T> {
    type V = Seq<T>;

    closed spec fn view(&self) -> Seq<T> {
        link_view(self.head)
    }
}

impl<T> List<T> {
    /// An empty list.
    pub fn new() -> (s: Self)
        ensures
            s@ == Seq::<T>::empty(),
    {
        List { head: None }
    }

    /// Adds `v` at the head; every element already present moves one
    /// position toward the back.
    pub fn push(&mut self, v: T)
        ensures
            final(self)@ == seq![v] + old(self)@,
    {
        let next = self.head.take();
        let node = Box::new(Node { elem: v, next });
        self.head = Some(node);
    }

    /// Removes and returns the head element; `None` exactly when the list
    /// is empty, which leaves the list unchanged.
    pub fn pop(&mut self) -> (r: Option<T>)
        ensures
            match r {
                None => old(self)@.len() == 0 && final(self)@ == old(self)@,
                Some(v) => old(self)@.len() > 0 && v == old(self)@[0]
                    && final(self)@ == old(self)@.drop_first(),
            },
    {
        match self.head.take() {
            None => None,
            Some(node) => {
                let boxed = *node;
                self.head = boxed.next;
                assert(link_view(self.head) =~= link_view(old(self).head).drop_first());
                Some(boxed.elem)
            }
        }
    }

    /// A read-only view of the head element; `None` exactly when the list
    /// is empty.
    pub fn peek(&self) -> (r: Option<&T>)
        ensures
            match r {
                None => self@.len() == 0,
                Some(p) => self@.len() > 0 && *p == self@[0],
            },
    {
        match self.head {
            None => None,
            Some(ref node) => Some(&node.elem),
        }
    }

    /// A mutable view of the head element; `None` exactly when the list is
    /// empty. Writing through the returned reference replaces the head
    /// element and nothing else.
    pub fn peek_mut(&mut self) -> (r: Option<&mut T>)
        ensures
            match r {
                None => old(self)@.len() == 0 && final(self)@ == old(self)@,
                Some(p) => old(self)@.len() > 0 && *p == old(self)@[0]
                    && final(self)@ =~= old(self)@.update(0, *final(p)),
            },
    {
        match &mut self.head {
            None => None,
            Some(node) => Some(&mut node.elem),
        }
    }

    /// Consumes the list; the iterator hands the elements out from the head
    /// down, exactly as repeated `pop` calls would.
    pub fn into_iter(self) -> (it: IntoIter<T>)
        ensures
            it@ == self@,
    {
        IntoIter(self)
    }

    /// A read-only iterator over the elements, from the head down. The list
    /// is not changed.
    pub fn iter(&self) -> (it: Iter<'_, T>)
        ensures
            it@ == self@,
    {
        match self.head {
            None => Iter { cur: None },
            Some(ref node) => Iter { cur: Some(&**node) },
        }
    }
}

/// A read-only traversal of a list, from the head down.
pub struct Iter<'a, T> {
    cur: Option<&'a Node<T>>,
}

impl<'a, T> View for Iter<'a, T> {
    type V = Seq<T>;

    /// The elements this iterator has yet to yield, in order.
    closed spec fn view(&self) -> Seq<T> {
        match self.cur {
            None => Seq::empty(),
            Some(node) => seq![node.elem] + link_view(node.next),
        }
    }
}

impl<'a, T> Iter<'a, T> {
    /// Yields a reference to the next remaining element, or `None` once all
    /// elements have been yielded.
    pub fn next(&mut self) -> (r: Option<&'a T>)
        ensures
            match r {
                None => old(self)@.len() == 0 && final(self)@ == old(self)@,
                Some(p) => old(self)@.len() > 0 && *p == old(self)@[0]
                    && final(self)@ == old(self)@.drop_first(),
            },
    {
        match self.cur {
            None => None,
            Some(node) => {
                self.cur = match node.next {
                    None => None,
                    Some(ref next) => Some(&**next),
                };
                assert(self@ =~= old(self)@.drop_first());
                Some(&node.elem)
            }
        }
    }
}

/// A consuming traversal of a list, from the head down.
pub struct IntoIter<T>(List<T>);

impl<T> View for IntoIter<T> {
    type V = Seq<T>;

    /// The elements this iterator has yet to yield, in order.
    closed spec fn view(&self) -> Seq<T> {
        self.0@
    }
}

impl<T> IntoIter<T> {
    /// Removes and returns the next remaining element, or `None` once the
    /// underlying list is exhausted.
    pub fn next(&mut self) -> (r: Option<T>)
        ensures
            match r {
                None => old(self)@.len() == 0 && final(self)@ == old(self)@,
                Some(v) => old(self)@.len() > 0 && v == old(self)@[0]
                    && final(self)@ == old(self)@.drop_first(),
            },
    {
        self.0.pop()
    }
}

impl<T> Drop for List<T> {
    /// Teardown detaches and releases the nodes one at a time, in a loop,
    /// rather than letting the chain drop recursively.
    fn drop(&mut self)
        opens_invariants none
        no_unwind
    {
        loop
            decreases self@.len(),
        {
            let mut cur: Option<Box<Node<T>>> = None;
            std::mem::swap(&mut cur, &mut self.head);
            match cur {
                None => {
                    break;
                }
                Some(node) => {
                    let boxed = *node;
                    self.head = boxed.next;
                }
            }
        }
    }
}

} // verus!
