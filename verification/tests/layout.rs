use cachepadded::{CounterArray, NonPaddedCounter, PaddedCounter, CACHE_LINE_SIZE};
use std::mem::{align_of, size_of};
use std::sync::atomic::Ordering;

fn address_of<T>(value: &T) -> usize {
    let printed = format!("{:p}", value);
    usize::from_str_radix(printed.trim_start_matches("0x"), 16).unwrap()
}

#[test]
fn cache_line_is_64_bytes() {
    assert_eq!(CACHE_LINE_SIZE, 64);
}

#[test]
fn non_padded_counter_is_eight_bytes() {
    assert_eq!(size_of::<NonPaddedCounter>(), 8);
    assert_eq!(align_of::<NonPaddedCounter>(), 8);
}

#[test]
fn padded_counter_fills_one_cache_line() {
    assert_eq!(size_of::<PaddedCounter>(), 64);
    assert_eq!(align_of::<PaddedCounter>(), 64);
}

#[test]
fn adjacent_padded_counters_are_one_line_apart() {
    for len in 2..9usize {
        let array = CounterArray::<PaddedCounter>::new(len);
        for slot in 0..len - 1 {
            let here = address_of(&array.counters[slot]);
            let next = address_of(&array.counters[slot + 1]);
            assert_eq!(next - here, 64);
            assert_eq!(here % 64, 0);
            assert_eq!(here / 64 + 1, next / 64);
        }
    }
}

#[test]
fn adjacent_non_padded_counters_share_a_line() {
    let array = CounterArray::<NonPaddedCounter>::new(2);
    let here = address_of(&array.counters[0]);
    let next = address_of(&array.counters[1]);
    assert_eq!(next - here, 8);
    assert!(next - here < 64);
}

#[test]
fn new_makes_the_requested_number_of_counters() {
    assert_eq!(CounterArray::<NonPaddedCounter>::new(0).counters.len(), 0);
    assert_eq!(CounterArray::<NonPaddedCounter>::new(1).counters.len(), 1);
    assert_eq!(CounterArray::<NonPaddedCounter>::new(32).counters.len(), 32);
    assert_eq!(CounterArray::<PaddedCounter>::new(0).counters.len(), 0);
    assert_eq!(CounterArray::<PaddedCounter>::new(4).counters.len(), 4);
}

#[test]
fn new_counters_hold_zero() {
    let bare = CounterArray::<NonPaddedCounter>::new(5);
    for counter in &bare.counters {
        assert_eq!(counter.value.load(Ordering::Relaxed), 0);
    }
    let padded = CounterArray::<PaddedCounter>::new(5);
    for counter in &padded.counters {
        assert_eq!(counter.value.load(Ordering::Relaxed), 0);
    }
}

#[test]
fn default_counters_hold_zero() {
    assert_eq!(NonPaddedCounter::default().value.load(Ordering::Relaxed), 0);
    assert_eq!(PaddedCounter::default().value.load(Ordering::Relaxed), 0);
}

#[test]
fn fresh_padded_array_of_three_holds_zero() {
    let array = CounterArray::<PaddedCounter>::new(3);
    assert_eq!(array.counters.len(), 3);
    for slot in 0..3 {
        assert_eq!(array.counters[slot].value.load(Ordering::Relaxed), 0);
        assert_eq!(array.counters[slot].as_ref().load(Ordering::Relaxed), 0);
    }
}
