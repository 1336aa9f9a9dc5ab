//! Trusted boundary around the `ringbuffer` crate's `AllocRingBuffer`,
//! which stores the most recent samples in a fixed-capacity ring.
//!
//! The ring's contents (oldest sample first) and the capacity it was
//! created with are named by two uninterpreted spec functions; every
//! wrapper states its effect over those names, as the crate's source
//! shows it.

use vstd::prelude::*;
use ringbuffer::AllocRingBuffer;
use ringbuffer::RingBuffer;

verus! {

#[verifier::external_type_specification]
#[verifier::external_body]
#[verifier::reject_recursive_types(T)]
pub struct ExAllocRingBuffer<T>(AllocRingBuffer<T>);

/// The samples the ring currently holds, oldest first.
pub uninterp spec fn ring_contents(rb: AllocRingBuffer<u32>) -> Seq<u32>;

/// The capacity the ring was created with; its length never exceeds this.
pub uninterp spec fn ring_bound(rb: AllocRingBuffer<u32>) -> nat;

/// Relies on `AllocRingBuffer::new`: an empty ring with exactly the given
/// capacity. The callee panics on a capacity of zero, so that is excluded.
#[verifier::external_body]
pub(crate) fn ring_new(capacity: usize) -> (rb: AllocRingBuffer<u32>)
    requires
        capacity > 0,
    ensures
        ring_contents(rb) == Seq::<u32>::empty(),
        ring_bound(rb) == capacity as nat,
{
    AllocRingBuffer::new(capacity)
}

/// Relies on `RingBuffer::enqueue` for `AllocRingBuffer`: appends one
/// sample at the newest end; when the ring is full the oldest sample is
/// evicted first, so the length never grows past the capacity.
#[verifier::external_body]
pub(crate) fn ring_push(rb: &mut AllocRingBuffer<u32>, v: u32)
    ensures
        ring_bound(*final(rb)) == ring_bound(*old(rb)),
        ring_contents(*old(rb)).len() < ring_bound(*old(rb)) ==> ring_contents(*final(rb))
            == ring_contents(*old(rb)).push(v),
        ring_contents(*old(rb)).len() >= ring_bound(*old(rb)) ==> ring_contents(*final(rb))
            == ring_contents(*old(rb)).drop_first().push(v),
{
    let _ = rb.enqueue(v);
}

/// Relies on `RingBuffer::to_vec` (iteration runs from the oldest held
/// sample to the newest): copies the ring's contents in that order.
#[verifier::external_body]
pub(crate) fn ring_to_vec(rb: &AllocRingBuffer<u32>) -> (v: Vec<u32>)
    ensures
        v@ == ring_contents(*rb),
{
    rb.to_vec()
}

} // verus!
