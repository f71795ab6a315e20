//! The task waker of `std`, which the library stores and wakes but never
//! looks into.
use vstd::prelude::*;

verus! {

#[verifier::external_type_specification]
#[verifier::external_body]
pub struct ExWaker(std::task::Waker);

/// Wakes the task behind `waker` (`std::task::Waker::wake`), consuming it.
/// Nothing is claimed: scheduling the task is the runtime's business.
#[verifier::external_body]
pub fn wake(waker: std::task::Waker) {
    waker.wake()
}

/// Wakes the task behind `waker` without consuming it
/// (`std::task::Waker::wake_by_ref`). Nothing is claimed.
#[verifier::external_body]
pub fn wake_by_ref(waker: &std::task::Waker) {
    waker.wake_by_ref()
}

/// Another handle to the task behind `waker` (`Clone::clone` on
/// `std::task::Waker`). The handle is opaque, so nothing is claimed of it.
#[verifier::external_body]
pub fn clone_waker(waker: &std::task::Waker) -> (r: std::task::Waker) {
    waker.clone()
}

} // verus!
