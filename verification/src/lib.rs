//! Per-thread counters in two memory layouts, for measuring false sharing.
//!
//! A [`CounterArray`] holds one counter per slot. With [`NonPaddedCounter`] the
//! counters lie eight bytes apart, so neighbours share a cache line; with
//! [`PaddedCounter`] each counter fills a line of its own. A worker is given a
//! thread id, takes the slot [`slot_of`] that id, and adds one to it a fixed
//! number of times with relaxed atomic adds.

pub mod array;
pub mod counter;
pub mod schedule;
pub mod worker;

pub use array::CounterArray;
pub use counter::{Counter, NonPaddedCounter, PaddedCounter, CACHE_LINE_SIZE};
pub use schedule::slot_of;
pub use worker::{run_worker, slot_index};
