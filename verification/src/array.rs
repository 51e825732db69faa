//! A fixed-length array of counters, one per slot.

use vstd::prelude::*;

verus! {

/// Counters in slot order. The length is fixed when the array is made.
pub struct CounterArray<T> {
    pub counters: Vec<T>,
}

impl<T> View for CounterArray<T> {
    type V = Seq<T>;

    open spec fn view(&self) -> Seq<T> {
        self.counters@
    }
}

impl<T: Default> CounterArray<T> {
    /// An array of `size` counters, each made by `T::default`: whatever
    /// `T::default` ensures of its result holds of every element.
    pub fn new(size: usize) -> (array: Self)
        ensures
            array@.len() == size,
            forall|slot: int|
                0 <= slot < size ==> call_ensures(T::default, (), #[trigger] array@[slot]),
    {
        let mut counters: Vec<T> = Vec::with_capacity(size);
        for filled in 0..size
            invariant
                counters@.len() == filled,
                forall|slot: int|
                    0 <= slot < filled ==> call_ensures(T::default, (), #[trigger] counters@[slot]),
        {
            counters.push(T::default());
        }
        CounterArray { counters }
    }
}

} // verus!
