//! The safe face of the bridge: an explicitly constructed, exactly-once
//! initialized context, and the managed side's own operations on it.
//!
//! The context replaces ambient global state: every boundary operation
//! takes it explicitly, and initialization is the only way to make its
//! registry exist.

use vstd::prelude::*;
use crate::registry::{GlobalRegistry, RegistryView, outbound_send_outcome, pop_incoming_outcome,
    submit_outcome};
use crate::status::Status;

verus! {

/// Why a safe operation was refused.
#[derive(Debug, Clone, Copy, PartialEq, Eq, Structural)]
pub enum DiplomacyError {
    /// Initialization ran a second time; nothing changed.
    AlreadyInitialized,
    /// Constructing the registry failed. The verified initializer never
    /// produces this; the variant stands for the boundary convention.
    InitFailed,
    /// The operation ran before initialization.
    NotInitialized,
    /// The outbound queue is at `MAX_QUEUE_DEPTH`.
    QueueFull,
}

/// Whether a bridge state is well-formed: an initialized registry
/// satisfies the registry invariant.
pub open spec fn bridge_wf(v: Option<RegistryView>) -> bool {
    v matches Some(r) ==> r.wf()
}

/// What initialization does: the first call constructs the empty
/// registry; any later call reports `AlreadyInitialized` and changes
/// nothing.
pub open spec fn diplomat_init_outcome(v: Option<RegistryView>) -> (Option<RegistryView>, Result<
    (), DiplomacyError>) {
    match v {
        Some(_) => (v, Err(DiplomacyError::AlreadyInitialized)),
        None => (Some(RegistryView::empty()), Ok(())),
    }
}

/// What sending a managed-side notification does: before initialization
/// it is refused; afterwards it reserves an outbound slot and pushes the
/// record, or reports `QueueFull` and changes nothing.
pub open spec fn diplomat_send_outcome(v: Option<RegistryView>, id: u32, payload: Seq<char>) -> (
    Option<RegistryView>, Result<(), DiplomacyError>) {
    match v {
        None => (None, Err(DiplomacyError::NotInitialized)),
        Some(r) => {
            let (r2, ok) = outbound_send_outcome(r, id, payload);
            if ok {
                (Some(r2), Ok(()))
            } else {
                (Some(r), Err(DiplomacyError::QueueFull))
            }
        },
    }
}

/// What receiving does: before initialization there is nothing; afterwards
/// the oldest inbound record leaves, or `None` when the queue is empty.
pub open spec fn diplomat_receive_outcome(v: Option<RegistryView>) -> (Option<RegistryView>,
    Option<Seq<char>>) {
    match v {
        None => (None, None),
        Some(r) => {
            let (r2, m) = pop_incoming_outcome(r);
            (Some(r2), m)
        },
    }
}

/// The bridge context: the registry, once initialization has constructed
/// it. Its view is `None` before initialization and the registry's view
/// afterwards.
pub struct Diplomat {
    initialized: bool,
    registry: GlobalRegistry,
}

impl View for Diplomat {
    type V = Option<RegistryView>;

    closed spec fn view(&self) -> Option<RegistryView> {
        if self.initialized {
            Some(self.registry@)
        } else {
            None
        }
    }
}

impl Diplomat {
    /// The context's invariant.
    pub open spec fn wf(&self) -> bool {
        bridge_wf(self@)
    }

    /// A context on which no initialization has run yet.
    pub fn new() -> (d: Diplomat)
        ensures
            d@ is None,
            d.wf(),
    {
        Diplomat { initialized: false, registry: GlobalRegistry::new() }
    }

    /// Whether initialization has completed.
    pub fn is_initialized(&self) -> (b: bool)
        ensures
            b == (self@ is Some),
    {
        self.initialized
    }

    /// Initializes the registry exactly once.
    pub fn init(&mut self) -> (r: Result<(), DiplomacyError>)
        requires
            old(self).wf(),
        ensures
            final(self).wf(),
            final(self)@ == diplomat_init_outcome(old(self)@).0,
            r == diplomat_init_outcome(old(self)@).1,
    {
        if self.initialized {
            return Err(DiplomacyError::AlreadyInitialized);
        }
        self.registry = GlobalRegistry::new();
        self.initialized = true;
        Ok(())
    }

    /// Sends a notification from the managed side to the caller: the
    /// record `<id>:<payload>` is enqueued outbound, within the bound.
    pub fn send(&mut self, id: u32, payload: &str) -> (r: Result<(), DiplomacyError>)
        requires
            old(self).wf(),
        ensures
            final(self).wf(),
            final(self)@ == diplomat_send_outcome(old(self)@, id, payload@).0,
            r == diplomat_send_outcome(old(self)@, id, payload@).1,
    {
        if !self.initialized {
            return Err(DiplomacyError::NotInitialized);
        }
        if self.registry.enqueue_outbound(id, payload) {
            Ok(())
        } else {
            Err(DiplomacyError::QueueFull)
        }
    }

    /// Receives the oldest record the caller has submitted, if any.
    pub fn receive(&mut self) -> (r: Option<String>)
        requires
            old(self).wf(),
        ensures
            final(self).wf(),
            final(self)@ == diplomat_receive_outcome(old(self)@).0,
            r is Some <==> diplomat_receive_outcome(old(self)@).1 is Some,
            r matches Some(s) ==> diplomat_receive_outcome(old(self)@).1 == Some(s@),
    {
        if !self.initialized {
            return None;
        }
        self.registry.pop_incoming()
    }

    /// Commits one already validated and decoded submission: one inbound
    /// record and one acknowledgment, all or nothing.
    pub fn submit_decoded(&mut self, id: u32, payload: &str) -> (st: Status)
        requires
            old(self).wf(),
        ensures
            final(self).wf(),
            old(self)@ is None ==> final(self)@ == old(self)@ && st == Status::NotInitialized,
            old(self)@ matches Some(r) ==> final(self)@ == Some(submit_outcome(r, id, payload@).0)
                && st == submit_outcome(r, id, payload@).1,
    {
        if !self.initialized {
            return Status::NotInitialized;
        }
        self.registry.submit_message(id, payload)
    }

    /// Pops the oldest outbound record, if any.
    pub fn retrieve_outbound(&mut self) -> (r: Option<String>)
        requires
            old(self).wf(),
        ensures
            final(self).wf(),
            old(self)@ is None ==> final(self)@ == old(self)@ && r is None,
            old(self)@ matches Some(reg) ==> final(self)@ == Some(
                crate::registry::pop_outbox_outcome(reg).0,
            ) && (r is Some <==> crate::registry::pop_outbox_outcome(reg).1 is Some) && (
            r matches Some(s) ==> crate::registry::pop_outbox_outcome(reg).1 == Some(s@)),
    {
        if !self.initialized {
            return None;
        }
        self.registry.pop_outbox()
    }

    /// Records a handle as on loan to the caller.
    pub fn register_loan(&mut self, handle: usize)
        requires
            old(self).wf(),
        ensures
            final(self).wf(),
            old(self)@ is None ==> final(self)@ == old(self)@,
            old(self)@ matches Some(r) ==> final(self)@ == Some(
                (RegistryView { loans: r.loans.insert(handle), ..r }),
            ),
    {
        if self.initialized {
            self.registry.insert_loan(handle);
        }
    }

    /// Takes a handle off loan; reports whether it was on loan. Before
    /// initialization nothing is on loan and nothing changes.
    pub fn release_loan(&mut self, handle: usize) -> (present: bool)
        requires
            old(self).wf(),
        ensures
            final(self).wf(),
            old(self)@ is None ==> final(self)@ == old(self)@ && !present,
            old(self)@ matches Some(r) ==> final(self)@ == Some(
                (RegistryView { loans: r.loans.remove(handle), ..r }),
            ) && present == r.loans.contains(handle),
    {
        if !self.initialized {
            return false;
        }
        self.registry.remove_loan(handle)
    }
}

} // verus!
