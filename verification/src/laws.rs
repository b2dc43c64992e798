//! Laws that relate whole sequences of list operations, stated over the
//! views that the operations' own contracts use.
//!
//! Every list in this crate describes its operations against a `Seq` view:
//! appending at the tail takes the view `s` to `s.push(v)`, inserting at
//! the front takes it to `seq![v] + s`, and removing at the front yields
//! `s[0]` and leaves `s.drop_first()` (removing at the back yields
//! `s.last()` and leaves `s.drop_last()`). The spec functions here chain
//! those single-step contracts over a whole run of calls, and the proof
//! functions state what such runs yield.

use vstd::prelude::*;

verus! {

/// The view of a list with contents `s` after appending the values of
/// `vs`, in order, at the tail — one `push` (or `push_back`) per value.
pub open spec fn after_pushes<T>(s: Seq<T>, vs: Seq<T>) -> Seq<T>
    decreases vs.len(),
{
    if vs.len() == 0 {
        s
    } else {
        after_pushes(s.push(vs[0]), vs.drop_first())
    }
}

/// The view of a list with contents `s` after inserting the values of
/// `vs`, in order, at the front — one `push_front` per value.
pub open spec fn after_front_pushes<T>(s: Seq<T>, vs: Seq<T>) -> Seq<T>
    decreases vs.len(),
{
    if vs.len() == 0 {
        s
    } else {
        after_front_pushes(seq![vs[0]] + s, vs.drop_first())
    }
}

/// The values handed out by removing elements at the front, one at a time,
/// until none remain — one `pop` (or `pop_front`) per element, each
/// yielding the view's first element and leaving the rest.
pub open spec fn drained<T>(s: Seq<T>) -> Seq<T>
    decreases s.len(),
{
    if s.len() == 0 {
        s
    } else {
        seq![s[0]] + drained(s.drop_first())
    }
}

/// Appending every value of `vs` at the tail of `s` yields `s + vs`.
proof fn lemma_after_pushes<T>(s: Seq<T>, vs: Seq<T>)
    ensures
        after_pushes(s, vs) == s + vs,
    decreases vs.len(),
{
    if vs.len() == 0 {
        assert(after_pushes(s, vs) =~= s + vs);
    } else {
        lemma_after_pushes(s.push(vs[0]), vs.drop_first());
        assert(s.push(vs[0]) + vs.drop_first() =~= s + vs);
    }
}

/// Inserting every value of `vs` at the front of `s` yields
/// `vs.reverse() + s`.
proof fn lemma_after_front_pushes<T>(s: Seq<T>, vs: Seq<T>)
    ensures
        after_front_pushes(s, vs) == vs.reverse() + s,
    decreases vs.len(),
{
    if vs.len() == 0 {
        assert(after_front_pushes(s, vs) =~= vs.reverse() + s);
    } else {
        lemma_after_front_pushes(seq![vs[0]] + s, vs.drop_first());
        assert(vs.drop_first().reverse() + (seq![vs[0]] + s) =~= vs.reverse() + s);
    }
}

/// Removing at the front until nothing remains yields the elements in the
/// view's own order.
proof fn lemma_drained<T>(s: Seq<T>)
    ensures
        drained(s) == s,
    decreases s.len(),
{
    if s.len() == 0 {
    } else {
        lemma_drained(s.drop_first());
        assert(seq![s[0]] + s.drop_first() =~= s);
    }
}

/// First in, first out: appending the values `vs` at the tail of an empty
/// list and then removing at the front until nothing remains yields
/// exactly `vs`, in the order the values went in.
pub proof fn fifo_round_trip<T>(vs: Seq<T>)
    ensures
        drained(after_pushes(Seq::empty(), vs)) == vs,
{
    lemma_after_pushes(Seq::empty(), vs);
    assert(Seq::empty() + vs =~= vs);
    lemma_drained(vs);
}

/// Last in, first out from the front: inserting the values `vs` at the
/// front of an empty list and then removing at the front until nothing
/// remains yields exactly `vs` reversed — the value inserted last comes
/// out first.
pub proof fn lifo_round_trip<T>(vs: Seq<T>)
    ensures
        drained(after_front_pushes(Seq::empty(), vs)) == vs.reverse(),
{
    lemma_after_front_pushes(Seq::empty(), vs);
    assert(vs.reverse() + Seq::empty() =~= vs.reverse());
    lemma_drained(vs.reverse());
}

} // verus!
