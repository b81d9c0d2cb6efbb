//! The bridge's safety laws, proved over the boundary transitions.

use vstd::prelude::*;
use vstd::utf8::{valid_utf8, decode_utf8};
use crate::MAX_QUEUE_DEPTH;
use crate::registry::RegistryView;
use crate::safe::bridge_wf;
use crate::status::{Status, ReleaseVerdict};
use crate::text::{inbound_record, ack_record};
use crate::{submit_transition, retrieve_transition, release_transition};

verus! {

/// A submission is one the protocol accepts: a nonzero identifier and a
/// present, valid-text payload.
pub open spec fn valid_submission(id: u32, payload: Option<Seq<u8>>) -> bool {
    id != 0 && (payload matches Some(b) && valid_utf8(b))
}

/// Law: a submission that reports `Success` produces exactly one new
/// inbound record and exactly one new acknowledgment — each appended
/// once, at the tail of its queue — and touches nothing else.
pub proof fn lemma_submit_success_effect(v: Option<RegistryView>, id: u32, payload: Option<Seq<u8>>)
    ensures
        ({
            let (v2, st) = submit_transition(v, id, payload);
            st == Status::Success ==> {
                let text = decode_utf8(payload.unwrap());
                &&& v is Some
                &&& v2 is Some
                &&& v2.unwrap().incoming == v.unwrap().incoming.push(inbound_record(id, text))
                &&& v2.unwrap().incoming_count == v.unwrap().incoming_count + 1
                &&& v2.unwrap().outbox == v.unwrap().outbox.push(ack_record(text))
                &&& v2.unwrap().outbox_count == v.unwrap().outbox_count + 1
                &&& v2.unwrap().loans == v.unwrap().loans
            }
        }),
{
}

/// Law: a retrieval from an empty outbound queue — or before
/// initialization — yields the empty sentinel, never an error, and
/// changes nothing.
pub proof fn lemma_retrieve_empty_is_sentinel(v: Option<RegistryView>, handle: usize)
    requires
        v matches Some(r) ==> r.outbox.len() == 0,
    ensures
        retrieve_transition(v, handle).1 is None,
        retrieve_transition(v, handle).0 == v,
{
}

/// Law: every submission transition keeps the bridge well formed; in
/// particular neither occupancy counter ends above `MAX_QUEUE_DEPTH`.
pub proof fn lemma_submit_preserves_bound(v: Option<RegistryView>, id: u32, payload: Option<
    Seq<u8>>)
    requires
        bridge_wf(v),
    ensures
        bridge_wf(submit_transition(v, id, payload).0),
        submit_transition(v, id, payload).0 matches Some(r2) ==> r2.incoming_count
            <= MAX_QUEUE_DEPTH && r2.outbox_count <= MAX_QUEUE_DEPTH,
{
}

/// Law: once a queue holds `MAX_QUEUE_DEPTH` reserved slots, any further
/// submission — however valid — is refused with `QueueFull` and leaves
/// the state exactly as it was.
pub proof fn lemma_submit_at_capacity_refused(v: RegistryView, id: u32, payload: Option<Seq<u8>>)
    requires
        valid_submission(id, payload),
        v.incoming_count >= MAX_QUEUE_DEPTH || v.outbox_count >= MAX_QUEUE_DEPTH,
    ensures
        submit_transition(Some(v), id, payload).1 == Status::QueueFull,
        submit_transition(Some(v), id, payload).0 == Some(v),
{
}

/// The statuses that a sequence of submissions reports, applied oldest
/// first.
pub open spec fn submit_statuses(v: Option<RegistryView>, reqs: Seq<(u32, Option<Seq<u8>>)>) -> Seq<
    Status>
    decreases reqs.len(),
{
    if reqs.len() == 0 {
        Seq::empty()
    } else {
        let head = submit_transition(v, reqs.first().0, reqs.first().1);
        seq![head.1] + submit_statuses(head.0, reqs.drop_first())
    }
}

/// A sequence of submissions reports as many statuses as it has entries.
pub proof fn lemma_submit_statuses_len(v: Option<RegistryView>, reqs: Seq<(u32, Option<Seq<u8>>)>)
    ensures
        submit_statuses(v, reqs).len() == reqs.len(),
    decreases reqs.len(),
{
    if reqs.len() > 0 {
        let head = submit_transition(v, reqs.first().0, reqs.first().1);
        lemma_submit_statuses_len(head.0, reqs.drop_first());
    }
}

/// Law: a sequence of valid submissions that never exceeds the configured
/// maximum — it fits in the room both queues have left — reports no
/// `QueueFull`: every one of them succeeds.
pub proof fn lemma_bounded_submits_succeed(v: RegistryView, reqs: Seq<(u32, Option<Seq<u8>>)>)
    requires
        forall|i: int|
            0 <= i < reqs.len() ==> valid_submission((#[trigger] reqs[i]).0, reqs[i].1),
        v.incoming_count + reqs.len() <= MAX_QUEUE_DEPTH,
        v.outbox_count + reqs.len() <= MAX_QUEUE_DEPTH,
    ensures
        forall|i: int|
            0 <= i < reqs.len() ==> #[trigger] submit_statuses(Some(v), reqs)[i] == Status::Success,
    decreases reqs.len(),
{
    if reqs.len() > 0 {
        let head = submit_transition(Some(v), reqs.first().0, reqs.first().1);
        assert(head.1 == Status::Success);
        let r1 = head.0.unwrap();
        lemma_bounded_submits_succeed(r1, reqs.drop_first());
        let rest = submit_statuses(head.0, reqs.drop_first());
        lemma_submit_statuses_len(head.0, reqs.drop_first());
        assert(submit_statuses(Some(v), reqs) =~= seq![head.1] + rest);
        assert forall|i: int| 0 <= i < reqs.len() implies #[trigger] submit_statuses(Some(v), reqs)[i]
            == Status::Success by {
            if i > 0 {
                assert(reqs.drop_first()[i - 1] == reqs[i]);
                assert(submit_statuses(Some(v), reqs)[i] == rest[i - 1]);
            }
        }
    }
}

/// Law: a retrieval that hands a record out puts its handle on loan, and
/// the release of that handle then frees — exactly once: afterwards the
/// loan is gone.
pub proof fn lemma_retrieve_then_release(v: Option<RegistryView>, handle: usize)
    requires
        handle != 0,
        retrieve_transition(v, handle).1 is Some,
    ensures
        ({
            let (v1, _) = retrieve_transition(v, handle);
            let (v2, verdict) = release_transition(v1, handle);
            &&& verdict == ReleaseVerdict::Released
            &&& v2 is Some
            &&& !v2.unwrap().loans.contains(handle)
        }),
{
}

/// Law: releasing a handle twice leaves the second release without
/// effect: the state stays as the first release left it, and — for a
/// non-null handle on an initialized bridge — the second release is
/// reported as a violation.
pub proof fn lemma_release_idempotent(v: Option<RegistryView>, handle: usize)
    ensures
        ({
            let (v1, _) = release_transition(v, handle);
            let (v2, verdict2) = release_transition(v1, handle);
            &&& v2 == v1
            &&& (handle != 0 && v1 is Some) ==> verdict2 == ReleaseVerdict::Violation
        }),
{
    let (v1, _) = release_transition(v, handle);
    if handle != 0 {
        if let Some(r) = v {
            if r.loans.contains(handle) {
                assert(!r.loans.remove(handle).contains(handle));
            }
        }
    }
}

/// Law: releasing a handle that is not on loan — never issued, or issued
/// and already released — changes nothing, and for a non-null handle on
/// an initialized bridge it is reported as a violation.
pub proof fn lemma_release_foreign_noop(v: Option<RegistryView>, handle: usize)
    requires
        v matches Some(r) ==> !r.loans.contains(handle),
    ensures
        release_transition(v, handle).0 == v,
        handle != 0 && v is Some ==> release_transition(v, handle).1 == ReleaseVerdict::Violation,
{
}

} // verus!
