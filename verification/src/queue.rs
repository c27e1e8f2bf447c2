//! The envelope queue: an unbounded, lock-free, multi-producer FIFO shared
//! between every thread that enqueues telemetry and the single worker task
//! that drains it.
//!
//! The queue is crossbeam's segmented queue. All of its operations go
//! through a shared reference — that is what lets producers on any thread
//! push while the worker drains — so no contract can relate the contents
//! before and after a call: between any two operations another thread may
//! have pushed. What the pipeline guarantees about envelopes is therefore
//! stated where batches are plain values, in the worker and the transmitter.

use vstd::prelude::*;

use crate::contracts::Envelope;
use crossbeam_queue::SegQueue;

verus! {

#[verifier::external_type_specification]
#[verifier::external_body]
#[verifier::reject_recursive_types(T)]
pub struct ExSegQueue<T>(SegQueue<T>);

/// Relies on crossbeam_queue's `SegQueue::new`: a fresh, empty queue.
#[verifier::external_body]
pub fn queue_new() -> SegQueue<Envelope> {
    SegQueue::new()
}

/// Relies on crossbeam_queue's `SegQueue::push`: appends at the tail;
/// always succeeds.
#[verifier::external_body]
pub fn queue_push(queue: &SegQueue<Envelope>, envelope: Envelope) {
    queue.push(envelope)
}

/// Relies on crossbeam_queue's `SegQueue::pop`: removes the head, or
/// reports the queue empty.
#[verifier::external_body]
pub fn queue_pop(queue: &SegQueue<Envelope>) -> Option<Envelope> {
    queue.pop()
}

/// Relies on crossbeam_queue's `SegQueue::len`: the number of elements at
/// some moment of the call — advisory only, under concurrent pushes.
#[verifier::external_body]
pub fn queue_len(queue: &SegQueue<Envelope>) -> usize {
    queue.len()
}

/// Drains the queue into a batch: pops as many items as the queue reported
/// holding when the drain began, in queue order, stopping early if the queue
/// runs dry. Items pushed concurrently may land in this batch or stay for
/// the next drain; none are lost.
pub fn drain_all(queue: &SegQueue<Envelope>) -> Vec<Envelope> {
    let pending = queue_len(queue);
    let mut batch: Vec<Envelope> = Vec::new();
    let mut taken: usize = 0;
    while taken < pending
        invariant
            taken <= pending,
            batch@.len() <= taken,
        decreases pending - taken,
    {
        match queue_pop(queue) {
            Some(envelope) => batch.push(envelope),
            None => {
                return batch;
            },
        }
        taken = taken + 1;
    }
    batch
}

} // verus!
