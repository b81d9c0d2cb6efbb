//! The lock-free FIFO channel that holds each direction's records.
//!
//! The queue itself is `crossbeam_queue::SegQueue`; its contents are named
//! by the spec function [`queue_rep`], and the few methods the bridge
//! calls are given contracts over that name. The queue mutates through a
//! shared reference — it is a concurrent type — but the wrappers take it
//! exclusively, so each contract can relate the contents before the call
//! to the contents after it.

use vstd::prelude::*;
use crossbeam_queue::SegQueue;

verus! {

#[verifier::external_type_specification]
#[verifier::external_body]
#[verifier::reject_recursive_types(T)]
pub struct ExSegQueue<T>(SegQueue<T>);

/// The records the queue holds, oldest first.
pub uninterp spec fn queue_rep(q: SegQueue<String>) -> Seq<Seq<char>>;

/// A fresh, empty queue.
///
/// Relies on `SegQueue::new`: it creates a queue with no elements.
#[verifier::external_body]
pub fn queue_new() -> (q: SegQueue<String>)
    ensures
        queue_rep(q) == Seq::<Seq<char>>::empty(),
{
    SegQueue::new()
}

/// Appends a record at the tail.
///
/// Relies on `SegQueue::push`: it pushes the element back to the tail and
/// keeps the order of the elements already queued.
#[verifier::external_body]
pub fn queue_push(q: &mut SegQueue<String>, s: String)
    ensures
        queue_rep(*final(q)) == queue_rep(*old(q)).push(s@),
{
    q.push(s)
}

/// Removes and returns the record at the head, oldest first, or reports
/// that the queue is empty.
///
/// Relies on `SegQueue::pop`: it pops the element at the head, and returns
/// `None` exactly when the queue is empty.
#[verifier::external_body]
pub fn queue_pop(q: &mut SegQueue<String>) -> (r: Option<String>)
    ensures
        queue_rep(*old(q)).len() == 0 ==> r is None && queue_rep(*final(q)) == queue_rep(*old(q)),
        queue_rep(*old(q)).len() > 0 ==> (r matches Some(s) && s@ == queue_rep(*old(q)).first()
            && queue_rep(*final(q)) == queue_rep(*old(q)).drop_first()),
{
    q.pop()
}

} // verus!
