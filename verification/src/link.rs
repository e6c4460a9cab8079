//! Non-owning references from checked-out items back to their pool.
//!
//! The reference is a `std::sync::Weak`. Whether the state it refers to
//! still exists, and how many such references there are, changes under
//! every caller. Nothing in this file is proved, and nothing is claimed of
//! what the calls return.
use std::sync::Arc;
use std::sync::Weak;
use vstd::prelude::*;

verus! {

/// A reference to shared state that does not keep the state alive: a
/// `std::sync::Weak`, taken as an opaque value.
#[verifier::external_body]
#[verifier::reject_recursive_types(S)]
pub struct BackRef<S> {
    link: Weak<S>,
}

/// `Arc::downgrade`: a new non-owning reference to the state that `owner`
/// co-owns.
#[verifier::external_body]
pub(crate) fn back_ref<S>(owner: &Arc<S>) -> (link: BackRef<S>) {
    BackRef { link: Arc::downgrade(owner) }
}

/// `Weak::upgrade`: a co-owning reference to the state, or `None` where
/// every owner is gone.
#[verifier::external_body]
pub(crate) fn revive<S>(link: &BackRef<S>) -> (owner: Option<Arc<S>>) {
    link.link.upgrade()
}

/// `Arc::weak_count`: the number of non-owning references to the state that
/// existed at some moment during the call.
#[verifier::external_body]
pub(crate) fn back_refs<S>(owner: &Arc<S>) -> (count: usize) {
    Arc::weak_count(owner)
}

} // verus!
