//! A small family of verified linked-list containers, each exploring a
//! different strategy for owning a chain of nodes with head and tail access.
//!
//! - [`stack`]: a singly linked chain of exclusively owned nodes; push and
//!   pop both work at the head (last in, first out).
//! - [`borrowed_tail`]: a first-in, first-out queue over the same kind of
//!   chain; the tail is located by a transient borrow on every append.
//! - [`cursor_queue`]: a first-in, first-out queue whose nodes live in an
//!   arena and whose tail is a cursor (an index) kept current on every
//!   structural change, giving constant-time append.
//! - [`deque`]: a doubly linked list over an arena, with insertion and
//!   removal at both ends and both link directions kept consistent.
//!
//! Every operation carries a contract over a `Seq` view of the list, and
//! [`laws`] states and proves what whole runs of operations yield — for
//! instance, that values pushed at the tail and then removed at the front
//! come back out in the order they went in.

pub mod borrowed_tail;
pub mod cursor_queue;
pub mod deque;
pub mod laws;
pub mod stack;
