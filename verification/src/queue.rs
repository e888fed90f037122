//! The bounded lock-free queue that interrupt handlers and wakers push to.
//!
//! The queue is shared: whoever holds a reference may push or pop at any
//! moment, an interrupt handler in the middle of any function. So no
//! function here says what the queue holds; each says only what is true of
//! its result whatever the others did. What can be said of a queue is the
//! capacity that it was made with.

use crossbeam_queue::ArrayQueue;
use std::sync::Arc;
use vstd::prelude::*;

verus! {

/// `crossbeam_queue::ArrayQueue`, carried through as an opaque value.
#[verifier::external_type_specification]
#[verifier::external_body]
#[verifier::reject_recursive_types(T)]
pub struct ExArrayQueue<T>(ArrayQueue<T>);

/// The number of task ids that a queue was made to hold. It never changes.
pub uninterp spec fn id_queue_capacity(queue: ArrayQueue<u64>) -> nat;

/// The number of bytes that a queue was made to hold. It never changes.
pub uninterp spec fn byte_queue_capacity(queue: ArrayQueue<u8>) -> nat;

/// `ArrayQueue::new` for a queue of task ids. It panics on a capacity of
/// zero, which is left out. Trusted: the queue holds as many ids as asked for.
#[verifier::external_body]
pub(crate) fn new_id_queue(cap: usize) -> (queue: ArrayQueue<u64>)
    requires
        cap > 0,
    ensures
        id_queue_capacity(queue) == cap,
{
    ArrayQueue::new(cap)
}

/// `ArrayQueue::new` for a queue of bytes. It panics on a capacity of zero,
/// which is left out. Trusted: the queue holds as many bytes as asked for.
#[verifier::external_body]
pub(crate) fn new_byte_queue(cap: usize) -> (queue: ArrayQueue<u8>)
    requires
        cap > 0,
    ensures
        byte_queue_capacity(queue) == cap,
{
    ArrayQueue::new(cap)
}

/// `ArrayQueue::push` either takes the value or, when the queue is full,
/// hands it back. Trusted: a value that comes back is the one that was given.
pub assume_specification<T>[ ArrayQueue::<T>::push ](queue: &ArrayQueue<T>, value: T) -> (pushed:
    Result<(), T>)
    ensures
        pushed matches Err(rejected) ==> rejected == value,
;

/// `ArrayQueue::pop` returns the oldest element, or `None` when the queue is
/// empty at that moment. Trusted to return; nothing is claimed of the result.
pub assume_specification<T>[ ArrayQueue::<T>::pop ](queue: &ArrayQueue<T>) -> (popped: Option<T>)
;

/// `ArrayQueue::is_empty` tells whether the queue was empty at that moment.
/// Trusted to return; nothing is claimed of the result.
pub assume_specification<T>[ ArrayQueue::<T>::is_empty ](queue: &ArrayQueue<T>) -> (empty: bool)
;

/// `Arc::clone` yields another handle to the same queue. Trusted: the new
/// handle stands for the queue that the given one stands for.
#[verifier::external_body]
pub(crate) fn share_queue(queue: &Arc<ArrayQueue<u64>>) -> (shared: Arc<ArrayQueue<u64>>)
    ensures
        shared == *queue,
{
    Arc::clone(queue)
}

} // verus!
