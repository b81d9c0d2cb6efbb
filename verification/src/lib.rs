//! A safe message-exchange bridge for a foreign-function boundary.
//!
//! An untrusted caller pushes notifications into the managed side and pulls
//! acknowledgments back out. The managed side keeps full control over
//! capacity and buffer ownership: traffic is bounded by a per-queue
//! occupancy counter, and every buffer handed out is tracked in a loan set
//! so that a double release or a release of a foreign handle becomes a
//! detected no-op instead of memory corruption.
//!
//! The boundary operations validate the caller's input, decode it, enforce
//! capacity, and mutate the [`safe::Diplomat`] context; each one's effect
//! is stated as a transition on the context's mathematical view.

use vstd::prelude::*;
use vstd::utf8::{valid_utf8, decode_utf8};

pub mod counter;
pub mod extqueue;
pub mod laws;
pub mod loans;
pub mod registry;
pub mod safe;
pub mod status;
pub mod text;

use crate::registry::{RegistryView, submit_outcome, pop_outbox_outcome};
use crate::safe::Diplomat;
use crate::status::{Status, ReleaseVerdict};
use crate::text::decode_payload;

verus! {

/// Upper bound on the occupancy of each of the two queues.
pub const MAX_QUEUE_DEPTH: usize = 10_000;

/// The opaque value under which a buffer handed to the caller is tracked.
/// At the native boundary it is the buffer's address, which is never null
/// for a live allocation.
#[derive(Debug, Hash, PartialEq, Eq, Clone, Copy, Structural)]
pub struct EnvoyHandle(pub usize);

/// The bytes behind an optional payload reference.
pub open spec fn payload_bytes(p: Option<&[u8]>) -> Option<Seq<u8>> {
    match p {
        None => None,
        Some(b) => Some(b@),
    }
}

/// What initialization does at the boundary: the first call constructs
/// the empty registry, any later call reports `AlreadyInitialized` and
/// changes nothing.
pub open spec fn init_transition(v: Option<RegistryView>) -> (Option<RegistryView>, Status) {
    match v {
        Some(_) => (v, Status::AlreadyInitialized),
        None => (Some(RegistryView::empty()), Status::Success),
    }
}

/// What a submission does: it is validated — initialization first, then
/// the null check, the zero identifier, the decoding — and an accepted
/// one reserves a slot in each queue and pushes the inbound record and
/// the acknowledgment, all or nothing. Every rejection leaves the state
/// as it was.
pub open spec fn submit_transition(v: Option<RegistryView>, id: u32, payload: Option<Seq<u8>>) -> (
    Option<RegistryView>, Status) {
    match v {
        None => (None, Status::NotInitialized),
        Some(r) => match payload {
            None => (v, Status::NullPointer),
            Some(bytes) => if id == 0 {
                (v, Status::InvalidId)
            } else if !valid_utf8(bytes) {
                (v, Status::InvalidEncoding)
            } else {
                let (r2, st) = submit_outcome(r, id, decode_utf8(bytes));
                (Some(r2), st)
            },
        },
    }
}

/// What a retrieval does: the oldest outbound record leaves, its slot is
/// given back, and the handle under which the caller will hold the new
/// buffer goes on loan. An empty queue — or an uninitialized registry —
/// yields the empty sentinel and changes nothing.
pub open spec fn retrieve_transition(v: Option<RegistryView>, handle: usize) -> (
    Option<RegistryView>, Option<Seq<char>>) {
    match v {
        None => (None, None),
        Some(r) => {
            let (r2, m) = pop_outbox_outcome(r);
            match m {
                None => (Some(r2), None),
                Some(text) => (
                    Some(RegistryView { loans: r2.loans.insert(handle), ..r2 }),
                    Some(text),
                ),
            }
        },
    }
}

/// What a release does: a handle on loan leaves the loan set and its
/// buffer is to be freed exactly once; any other handle — already
/// released, or never issued — frees nothing and is reported as a
/// violation. The null handle is a no-op.
pub open spec fn release_transition(v: Option<RegistryView>, handle: usize) -> (
    Option<RegistryView>, ReleaseVerdict) {
    if handle == 0 {
        (v, ReleaseVerdict::NullHandle)
    } else {
        match v {
            None => (None, ReleaseVerdict::NotInitialized),
            Some(r) => if r.loans.contains(handle) {
                (
                    Some(RegistryView { loans: r.loans.remove(handle), ..r }),
                    ReleaseVerdict::Released,
                )
            } else {
                (v, ReleaseVerdict::Violation)
            },
        }
    }
}

/// Establishes the bridge: constructs the registry exactly once.
pub fn establish_relations(d: &mut Diplomat) -> (st: Status)
    requires
        old(d).wf(),
    ensures
        final(d).wf(),
        final(d)@ == init_transition(old(d)@).0,
        st == init_transition(old(d)@).1,
{
    match d.init() {
        Ok(()) => Status::Success,
        Err(_) => Status::AlreadyInitialized,
    }
}

/// Alternative name for [`establish_relations`].
pub fn init_ffi(d: &mut Diplomat) -> (st: Status)
    requires
        old(d).wf(),
    ensures
        final(d).wf(),
        final(d)@ == init_transition(old(d)@).0,
        st == init_transition(old(d)@).1,
{
    establish_relations(d)
}

/// Submits a caller notification: validates it, decodes the payload as
/// UTF-8 text, and commits the inbound record and its acknowledgment
/// within the capacity bound, all or nothing.
pub fn send_envoy(d: &mut Diplomat, id: u32, payload: Option<&[u8]>) -> (st: Status)
    requires
        old(d).wf(),
    ensures
        final(d).wf(),
        final(d)@ == submit_transition(old(d)@, id, payload_bytes(payload)).0,
        st == submit_transition(old(d)@, id, payload_bytes(payload)).1,
{
    if !d.is_initialized() {
        return Status::NotInitialized;
    }
    let bytes = match payload {
        None => {
            return Status::NullPointer;
        },
        Some(b) => b,
    };
    if id == 0 {
        return Status::InvalidId;
    }
    match decode_payload(bytes) {
        None => Status::InvalidEncoding,
        Some(text) => d.submit_decoded(id, text.as_str()),
    }
}

/// Retrieves the oldest outbound record, if any, and puts `handle` — the
/// value under which the caller will hold the transferred buffer — on
/// loan. The handle models the address of a live allocation, which is
/// never null.
pub fn receive_envoy(d: &mut Diplomat, handle: EnvoyHandle) -> (r: Option<String>)
    requires
        old(d).wf(),
        handle.0 != 0,
    ensures
        final(d).wf(),
        final(d)@ == retrieve_transition(old(d)@, handle.0).0,
        r is Some <==> retrieve_transition(old(d)@, handle.0).1 is Some,
        r matches Some(s) ==> retrieve_transition(old(d)@, handle.0).1 == Some(s@),
{
    let msg = d.retrieve_outbound();
    match msg {
        Some(s) => {
            d.register_loan(handle.0);
            Some(s)
        },
        None => None,
    }
}

/// Releases a handle: only a handle on loan frees its buffer, exactly
/// once; a double release or a foreign handle is a detected violation
/// that frees nothing.
pub fn free_envoy(d: &mut Diplomat, handle: EnvoyHandle) -> (v: ReleaseVerdict)
    requires
        old(d).wf(),
    ensures
        final(d).wf(),
        final(d)@ == release_transition(old(d)@, handle.0).0,
        v == release_transition(old(d)@, handle.0).1,
{
    if handle.0 == 0 {
        return ReleaseVerdict::NullHandle;
    }
    if !d.is_initialized() {
        return ReleaseVerdict::NotInitialized;
    }
    if d.release_loan(handle.0) {
        ReleaseVerdict::Released
    } else {
        ReleaseVerdict::Violation
    }
}

/// The crate's version, as the caller may display it.
pub fn praborrow_version() -> (s: &'static str)
    ensures
        s@ == "0.1.0"@,
{
    "0.1.0"
}

} // verus!
