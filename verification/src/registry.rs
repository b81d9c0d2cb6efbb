//! The shared state of the bridge: the two bounded FIFO channels, their
//! occupancy counters, and the loan tracker.

use vstd::prelude::*;
use crossbeam_queue::SegQueue;
use dashmap::DashSet;
use crate::MAX_QUEUE_DEPTH;
use crate::counter::SlotCounter;
use crate::extqueue::{queue_rep, queue_new, queue_push, queue_pop};
use crate::loans::{loan_rep, loans_new, loans_insert, loans_remove};
use crate::status::Status;
use crate::text::{inbound_record, ack_record, outbound_record, build_inbound_record,
    build_ack_record, build_outbound_record};

verus! {

/// The mathematical state of the registry: the records of each queue,
/// oldest first, the occupancy counters, and the handles on loan.
#[verifier::ext_equal]
pub struct RegistryView {
    pub incoming: Seq<Seq<char>>,
    pub incoming_count: nat,
    pub outbox: Seq<Seq<char>>,
    pub outbox_count: nat,
    pub loans: Set<usize>,
}

impl RegistryView {
    /// Each occupancy counter agrees with its queue and sits within the
    /// configured bound.
    pub open spec fn wf(self) -> bool {
        &&& self.incoming_count == self.incoming.len()
        &&& self.outbox_count == self.outbox.len()
        &&& self.incoming.len() <= MAX_QUEUE_DEPTH
        &&& self.outbox.len() <= MAX_QUEUE_DEPTH
    }

    /// The state right after initialization.
    pub open spec fn empty() -> RegistryView {
        RegistryView {
            incoming: Seq::empty(),
            incoming_count: 0,
            outbox: Seq::empty(),
            outbox_count: 0,
            loans: Set::empty(),
        }
    }
}

/// What an accepted, decoded submission does to the registry: reserve a
/// slot in each queue — all or nothing — then push the inbound record and
/// the acknowledgment.
pub open spec fn submit_outcome(r: RegistryView, id: u32, payload: Seq<char>) -> (RegistryView,
    Status) {
    if r.incoming_count >= MAX_QUEUE_DEPTH {
        (r, Status::QueueFull)
    } else if r.outbox_count >= MAX_QUEUE_DEPTH {
        (r, Status::QueueFull)
    } else {
        (
            RegistryView {
                incoming: r.incoming.push(inbound_record(id, payload)),
                incoming_count: r.incoming_count + 1,
                outbox: r.outbox.push(ack_record(payload)),
                outbox_count: r.outbox_count + 1,
                loans: r.loans,
            },
            Status::Success,
        )
    }
}

/// What popping the outbound queue does: the oldest record leaves and its
/// slot is given back; an empty queue stays as it is.
pub open spec fn pop_outbox_outcome(r: RegistryView) -> (RegistryView, Option<Seq<char>>) {
    if r.outbox.len() == 0 {
        (r, None)
    } else {
        (
            RegistryView {
                outbox: r.outbox.drop_first(),
                outbox_count: (r.outbox_count - 1) as nat,
                ..r
            },
            Some(r.outbox.first()),
        )
    }
}

/// What popping the inbound queue does, symmetrically.
pub open spec fn pop_incoming_outcome(r: RegistryView) -> (RegistryView, Option<Seq<char>>) {
    if r.incoming.len() == 0 {
        (r, None)
    } else {
        (
            RegistryView {
                incoming: r.incoming.drop_first(),
                incoming_count: (r.incoming_count - 1) as nat,
                ..r
            },
            Some(r.incoming.first()),
        )
    }
}

/// What the managed side's own notification does to the registry: reserve
/// an outbound slot, then push the record; at capacity nothing changes.
pub open spec fn outbound_send_outcome(r: RegistryView, id: u32, payload: Seq<char>) -> (
    RegistryView, bool) {
    if r.outbox_count >= MAX_QUEUE_DEPTH {
        (r, false)
    } else {
        (
            RegistryView {
                outbox: r.outbox.push(outbound_record(id, payload)),
                outbox_count: r.outbox_count + 1,
                ..r
            },
            true,
        )
    }
}

/// The registry: both queues, their counters, and the loan tracker.
pub struct GlobalRegistry {
    incoming_envoys: SegQueue<String>,
    incoming_count: SlotCounter,
    outbox: SegQueue<String>,
    outbox_count: SlotCounter,
    active_loans: DashSet<usize>,
}

impl View for GlobalRegistry {
    type V = RegistryView;

    closed spec fn view(&self) -> RegistryView {
        RegistryView {
            incoming: queue_rep(self.incoming_envoys),
            incoming_count: self.incoming_count@,
            outbox: queue_rep(self.outbox),
            outbox_count: self.outbox_count@,
            loans: loan_rep(self.active_loans),
        }
    }
}

impl GlobalRegistry {
    /// The registry's invariant.
    pub open spec fn wf(&self) -> bool {
        self@.wf()
    }

    /// A fresh registry: empty queues, zero counters, no loans.
    pub fn new() -> (r: GlobalRegistry)
        ensures
            r@ == RegistryView::empty(),
            r.wf(),
    {
        let r = GlobalRegistry {
            incoming_envoys: queue_new(),
            incoming_count: SlotCounter::new(),
            outbox: queue_new(),
            outbox_count: SlotCounter::new(),
            active_loans: loans_new(),
        };
        r
    }

    /// Commits one decoded submission: a slot is reserved in each queue —
    /// with the inbound reservation rolled back if the outbound one is
    /// refused, so a `QueueFull` leaves nothing behind — and then the
    /// inbound record and the acknowledgment are pushed.
    pub fn submit_message(&mut self, id: u32, payload: &str) -> (st: Status)
        requires
            old(self).wf(),
        ensures
            final(self).wf(),
            final(self)@ == submit_outcome(old(self)@, id, payload@).0,
            st == submit_outcome(old(self)@, id, payload@).1,
    {
        if !self.incoming_count.try_reserve(MAX_QUEUE_DEPTH) {
            return Status::QueueFull;
        }
        if !self.outbox_count.try_reserve(MAX_QUEUE_DEPTH) {
            self.incoming_count.release_slot();
            return Status::QueueFull;
        }
        let record = build_inbound_record(id, payload);
        queue_push(&mut self.incoming_envoys, record);
        let ack = build_ack_record(payload);
        queue_push(&mut self.outbox, ack);
        Status::Success
    }

    /// Pops the oldest outbound record, giving its slot back.
    pub fn pop_outbox(&mut self) -> (r: Option<String>)
        requires
            old(self).wf(),
        ensures
            final(self).wf(),
            final(self)@ == pop_outbox_outcome(old(self)@).0,
            r is Some <==> pop_outbox_outcome(old(self)@).1 is Some,
            r matches Some(s) ==> pop_outbox_outcome(old(self)@).1 == Some(s@),
    {
        let popped = queue_pop(&mut self.outbox);
        match popped {
            Some(s) => {
                self.outbox_count.release_slot();
                Some(s)
            },
            None => None,
        }
    }

    /// Pops the oldest inbound record, giving its slot back.
    pub fn pop_incoming(&mut self) -> (r: Option<String>)
        requires
            old(self).wf(),
        ensures
            final(self).wf(),
            final(self)@ == pop_incoming_outcome(old(self)@).0,
            r is Some <==> pop_incoming_outcome(old(self)@).1 is Some,
            r matches Some(s) ==> pop_incoming_outcome(old(self)@).1 == Some(s@),
    {
        let popped = queue_pop(&mut self.incoming_envoys);
        match popped {
            Some(s) => {
                self.incoming_count.release_slot();
                Some(s)
            },
            None => None,
        }
    }

    /// Enqueues one of the managed side's own notifications, reserving an
    /// outbound slot first; reports whether the record was committed.
    pub fn enqueue_outbound(&mut self, id: u32, payload: &str) -> (ok: bool)
        requires
            old(self).wf(),
        ensures
            final(self).wf(),
            final(self)@ == outbound_send_outcome(old(self)@, id, payload@).0,
            ok == outbound_send_outcome(old(self)@, id, payload@).1,
    {
        if !self.outbox_count.try_reserve(MAX_QUEUE_DEPTH) {
            return false;
        }
        let record = build_outbound_record(id, payload);
        queue_push(&mut self.outbox, record);
        true
    }

    /// Records a handle as on loan to the caller.
    pub fn insert_loan(&mut self, handle: usize)
        requires
            old(self).wf(),
        ensures
            final(self).wf(),
            final(self)@ == (RegistryView { loans: old(self)@.loans.insert(handle), ..old(self)@ }),
    {
        loans_insert(&mut self.active_loans, handle);
    }

    /// Takes a handle off loan; reports whether it was on loan at all.
    pub fn remove_loan(&mut self, handle: usize) -> (present: bool)
        requires
            old(self).wf(),
        ensures
            final(self).wf(),
            final(self)@ == (RegistryView { loans: old(self)@.loans.remove(handle), ..old(self)@ }),
            present == old(self)@.loans.contains(handle),
    {
        let present = loans_remove(&mut self.active_loans, handle);
        present
    }
}

} // verus!
