//! The two counter layouts and the accessor they share.

use std::sync::atomic::AtomicU64;
use vstd::prelude::*;

verus! {

/// Bytes in one cache line of the target machine.
pub const CACHE_LINE_SIZE: usize = 64;

/// Bytes that follow the value of a [`PaddedCounter`] to fill its cache line.
pub const PADDING_SIZE: usize = CACHE_LINE_SIZE - 8;

/// A value that holds one 64-bit integer which many threads may add to.
///
/// All mutation goes through the atomic cell that [`Counter::slot`] hands out.
pub trait Counter {
    /// The atomic cell of this counter.
    spec fn cell(&self) -> AtomicU64;

    /// A reference to the atomic cell of this counter.
    fn slot(&self) -> (slot: &AtomicU64)
        ensures
            *slot == self.cell(),
    ;
}

/// A value of no bytes whose address is a multiple of [`CACHE_LINE_SIZE`]: a
/// struct that holds one starts on a cache-line boundary.
///
/// It holds an `elain::Align<64>`, a zero-sized type aligned to 64 bytes.
/// Nothing is claimed of it in any contract.
#[verifier::external_body]
struct LineAligned {
    marker: elain::Align<CACHE_LINE_SIZE>,
}

/// The one value of [`LineAligned`], made from `elain::Align::NEW`. The
/// contract claims nothing of it.
#[verifier::external_body]
fn line_aligned() -> (aligned: LineAligned) {
    LineAligned { marker: elain::Align::NEW }
}

/// A counter of eight bytes. Neighbours in an array share a cache line.
pub struct NonPaddedCounter {
    pub value: AtomicU64,
}

/// A counter that fills one cache line and starts on a line boundary: the
/// value, then bytes that are never read or written again.
pub struct PaddedCounter {
    pub value: AtomicU64,
    _padding: [u8; PADDING_SIZE],
    _aligned: LineAligned,
}

impl Default for NonPaddedCounter {
    /// A counter that holds zero: its cell is one that `AtomicU64::new` makes
    /// from 0.
    fn default() -> (counter: Self)
        ensures
            call_ensures(AtomicU64::new, (0u64,), counter.cell()),
    {
        NonPaddedCounter { value: AtomicU64::new(0) }
    }
}

impl Default for PaddedCounter {
    /// A counter that holds zero: its cell is one that `AtomicU64::new` makes
    /// from 0.
    fn default() -> (counter: Self)
        ensures
            call_ensures(AtomicU64::new, (0u64,), counter.cell()),
    {
        PaddedCounter {
            value: AtomicU64::new(0),
            _padding: [0; PADDING_SIZE],
            _aligned: line_aligned(),
        }
    }
}

impl Counter for NonPaddedCounter {
    open spec fn cell(&self) -> AtomicU64 {
        self.value
    }

    fn slot(&self) -> (slot: &AtomicU64) {
        &self.value
    }
}

impl Counter for PaddedCounter {
    closed spec fn cell(&self) -> AtomicU64 {
        self.value
    }

    fn slot(&self) -> (slot: &AtomicU64) {
        &self.value
    }
}

impl AsRef<AtomicU64> for NonPaddedCounter {
    fn as_ref(&self) -> (slot: &AtomicU64)
        ensures
            *slot == self.cell(),
    {
        &self.value
    }
}

impl AsRef<AtomicU64> for PaddedCounter {
    fn as_ref(&self) -> (slot: &AtomicU64)
        ensures
            *slot == self.cell(),
    {
        &self.value
    }
}

} // verus!
