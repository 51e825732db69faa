//! What one worker thread does.

use crate::array::CounterArray;
use crate::counter::Counter;
use crate::schedule::slot_of;
use std::sync::atomic::Ordering;
use vstd::prelude::*;

verus! {

/// The index of the counter that worker `thread_id` adds to.
pub fn slot_index(thread_id: usize, len: usize) -> (slot: usize)
    requires
        len > 0,
    ensures
        slot == slot_of(thread_id as nat, len as nat),
        slot < len,
{
    thread_id % len
}

/// Runs worker `thread_id`: adds one to its counter `iterations` times, each
/// time with a relaxed atomic add.
pub fn run_worker<T: Counter>(counters: &CounterArray<T>, thread_id: usize, iterations: usize)
    requires
        counters@.len() > 0,
{
    let slot: usize = slot_index(thread_id, counters.counters.len());
    let counter = counters.counters[slot].slot();
    for _done in 0..iterations {
        counter.fetch_add(1, Ordering::Relaxed);
    }
}

} // verus!
