//! The loan tracker: the set of handles whose buffers the caller holds.
//!
//! The set itself is `dashmap::DashSet`; what it holds is named by the
//! spec function [`loan_rep`], and the methods the bridge calls are given
//! contracts over that name. Membership in this set is the sole authority
//! for whether a buffer is still on loan and safe to free. The set
//! mutates through a shared reference — it is a concurrent type — but the
//! wrappers take it exclusively, so each contract can relate the contents
//! before the call to the contents after it.

use vstd::prelude::*;
use dashmap::DashSet;

verus! {

#[verifier::external_type_specification]
#[verifier::external_body]
#[verifier::reject_recursive_types(K)]
#[verifier::reject_recursive_types(S)]
pub struct ExDashSet<K, S>(DashSet<K, S>);

/// The handles the set holds.
pub uninterp spec fn loan_rep(s: DashSet<usize>) -> Set<usize>;

/// A fresh, empty loan set.
///
/// Relies on `DashSet::new`: it creates a set with no entries.
#[verifier::external_body]
pub fn loans_new() -> (s: DashSet<usize>)
    ensures
        loan_rep(s) == Set::<usize>::empty(),
{
    DashSet::new()
}

/// Records `handle` as on loan. Returns whether it was newly recorded.
///
/// Relies on `DashSet::insert`: it inserts the key and returns `true`
/// exactly when the key was not in the set.
#[verifier::external_body]
pub fn loans_insert(s: &mut DashSet<usize>, handle: usize) -> (fresh: bool)
    ensures
        loan_rep(*final(s)) == loan_rep(*old(s)).insert(handle),
        fresh == !loan_rep(*old(s)).contains(handle),
{
    s.insert(handle)
}

/// Takes `handle` off loan. Returns whether it was on loan.
///
/// Relies on `DashSet::remove`: it removes the key and returns it exactly
/// when the key was in the set.
#[verifier::external_body]
pub fn loans_remove(s: &mut DashSet<usize>, handle: usize) -> (present: bool)
    ensures
        loan_rep(*final(s)) == loan_rep(*old(s)).remove(handle),
        present == loan_rep(*old(s)).contains(handle),
{
    match s.remove(&handle) {
        Some(_) => true,
        None => false,
    }
}

} // verus!
