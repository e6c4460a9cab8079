//! The bounded lock-free queue that holds the idle objects.
//!
//! The queue is shared by every handle of a pool and changed through `&self`
//! from any thread, so a call learns nothing lasting about its contents.
//! Nothing in this file is proved. Each function says which function of
//! `crossbeam_queue` it calls, and its contract claims only what that
//! function does whatever other threads are doing.
use crossbeam_queue::ArrayQueue;
use vstd::prelude::*;

verus! {

/// `crossbeam_queue::ArrayQueue`, taken as an opaque type.
#[verifier::external_type_specification]
#[verifier::external_body]
#[verifier::reject_recursive_types(T)]
pub struct ExArrayQueue<T>(ArrayQueue<T>);

/// `ArrayQueue::new`: an empty queue with `slots` places.
///
/// The call panics when asked for no places, and when asked for so many that
/// their number plus one cannot be rounded up to a power of two; the
/// precondition excludes both. A buffer that cannot be allocated ends the
/// call as well; as for any allocation, that lies outside this contract.
/// Nothing is claimed of the queue that comes back.
#[verifier::external_body]
pub(crate) fn bounded<E>(slots: usize) -> (queue: ArrayQueue<E>)
    requires
        0 < slots <= isize::MAX,
{
    ArrayQueue::new(slots)
}

/// `ArrayQueue::push`: appends `element` if the queue has a free place.
///
/// Whether it has one depends on what other threads have done, so nothing
/// is claimed of when the call succeeds. Where it does not, the element that
/// comes back is the one that was offered.
#[verifier::external_body]
pub(crate) fn offer<E>(queue: &ArrayQueue<E>, element: E) -> (refused: Result<(), E>)
    ensures
        refused matches Err(back) ==> back == element,
{
    queue.push(element)
}

/// `ArrayQueue::pop`: removes the oldest element, if the queue holds any.
///
/// Whether an element comes out, and which, depends on what other threads
/// have done, so nothing is claimed of the answer. What comes out is an
/// element that was pushed before: a value of its type like any other.
#[verifier::external_body]
pub(crate) fn poll<E>(queue: &ArrayQueue<E>) -> (oldest: Option<E>) {
    queue.pop()
}

/// `ArrayQueue::len`: the number of elements that the queue held at some
/// moment during the call. Nothing is claimed of the number.
#[verifier::external_body]
pub(crate) fn occupied<E>(queue: &ArrayQueue<E>) -> (count: usize) {
    queue.len()
}

} // verus!
