//! Which worker adds to which slot, and how many adds each slot receives.
//!
//! A counter is an atomic cell, and what such a cell holds is not a value
//! that a contract can name. So a run is described here by the adds that each
//! slot receives: once every worker has finished and every atomic add has
//! taken effect, slot `s` holds `counts_after(..)[s]` modulo 2^64.

use vstd::prelude::*;

verus! {

/// The slot that worker `thread_id` adds to in an array of `len` counters.
pub open spec fn slot_of(thread_id: nat, len: nat) -> nat
    recommends
        len > 0,
{
    thread_id % len
}

/// The adds that each of `len` slots has received once the workers
/// `0 .. thread_count` have each added one to their slot `iterations` times.
pub open spec fn counts_after(len: nat, thread_count: nat, iterations: nat) -> Seq<nat>
    recommends
        thread_count > 0 ==> len > 0,
    decreases thread_count,
{
    if thread_count == 0 {
        Seq::new(len, |slot: int| 0nat)
    } else {
        let before = counts_after(len, (thread_count - 1) as nat, iterations);
        let slot = slot_of((thread_count - 1) as nat, len) as int;
        before.update(slot, before[slot] + iterations)
    }
}

/// The sum of all entries of `counts`.
pub open spec fn total(counts: Seq<nat>) -> nat
    decreases counts.len(),
{
    if counts.len() == 0 {
        0
    } else {
        total(counts.drop_last()) + counts.last()
    }
}

/// How many of the workers `0 .. thread_count` add to `slot`, in closed form:
/// every slot gets a worker in each full round over the array, and the first
/// `thread_count % len` slots get one more.
pub open spec fn workers_on(slot: nat, len: nat, thread_count: nat) -> nat
    recommends
        slot < len,
{
    if slot < thread_count % len {
        thread_count / len + 1
    } else {
        thread_count / len
    }
}

/// Adding `extra` to one entry adds `extra` to the total.
proof fn lemma_total_update(counts: Seq<nat>, slot: int, extra: nat)
    requires
        0 <= slot < counts.len(),
    ensures
        total(counts.update(slot, counts[slot] + extra)) == total(counts) + extra,
    decreases counts.len(),
{
    let updated = counts.update(slot, counts[slot] + extra);
    if slot == counts.len() - 1 {
        assert(updated.drop_last() =~= counts.drop_last());
    } else {
        lemma_total_update(counts.drop_last(), slot, extra);
        assert(updated.drop_last() =~= counts.drop_last().update(
            slot,
            counts.drop_last()[slot] + extra,
        ));
    }
}

/// An array of zeros has total zero.
proof fn lemma_total_zeros(len: nat)
    ensures
        total(Seq::new(len, |slot: int| 0nat)) == 0,
    decreases len,
{
    if len > 0 {
        lemma_total_zeros((len - 1) as nat);
        assert(Seq::new(len, |slot: int| 0nat).drop_last() =~= Seq::new(
            (len - 1) as nat,
            |slot: int| 0nat,
        ));
    }
}

/// How quotient and remainder by `len` move from `n` to `n + 1`.
proof fn lemma_next_worker(n: nat, len: nat)
    requires
        len > 0,
    ensures
        n % len < len,
        n % len + 1 < len ==> (n + 1) / len == n / len && (n + 1) % len == n % len + 1,
        n % len + 1 == len ==> (n + 1) / len == n / len + 1 && (n + 1) % len == 0,
{
    let n = n as int;
    let len = len as int;
    assert(n == len * (n / len) + n % len && 0 <= n % len < len) by (nonlinear_arith)
        requires
            len > 0,
    ;
    let q = n / len;
    let r = n % len;
    if r + 1 < len {
        assert((n + 1) / len == q && (n + 1) % len == r + 1) by (nonlinear_arith)
            requires
                n + 1 == len * q + (r + 1),
                0 <= r + 1 < len,
        ;
    } else {
        assert(len * (q + 1) == len * q + len) by (nonlinear_arith);
        assert((n + 1) / len == q + 1 && (n + 1) % len == 0) by (nonlinear_arith)
            requires
                n + 1 == len * (q + 1),
                len > 0,
        ;
    }
}

/// The counts always cover exactly the `len` slots of the array.
pub proof fn lemma_counts_len(len: nat, thread_count: nat, iterations: nat)
    requires
        thread_count > 0 ==> len > 0,
    ensures
        counts_after(len, thread_count, iterations).len() == len,
    decreases thread_count,
{
    if thread_count > 0 {
        lemma_counts_len(len, (thread_count - 1) as nat, iterations);
    }
}

/// No add is lost: over any non-empty array the counts add up to
/// `thread_count * iterations`, however the workers fall on the slots.
pub proof fn lemma_total_is_all_adds(len: nat, thread_count: nat, iterations: nat)
    requires
        len > 0,
    ensures
        total(counts_after(len, thread_count, iterations)) == thread_count * iterations,
    decreases thread_count,
{
    if thread_count == 0 {
        lemma_total_zeros(len);
    } else {
        let earlier = (thread_count - 1) as nat;
        let before = counts_after(len, earlier, iterations);
        lemma_total_is_all_adds(len, earlier, iterations);
        lemma_counts_len(len, earlier, iterations);
        lemma_next_worker(earlier, len);
        lemma_total_update(before, slot_of(earlier, len) as int, iterations);
        assert(earlier * iterations + iterations == thread_count * iterations)
            by (nonlinear_arith)
            requires
                earlier + 1 == thread_count,
        ;
    }
}

/// Each slot receives `iterations` adds from each worker that has it: the
/// count of `slot` is `workers_on(slot, len, thread_count) * iterations`.
pub proof fn lemma_count_of_slot(len: nat, thread_count: nat, iterations: nat, slot: nat)
    requires
        slot < len,
    ensures
        counts_after(len, thread_count, iterations)[slot as int] == workers_on(
            slot,
            len,
            thread_count,
        ) * iterations,
    decreases thread_count,
{
    if thread_count == 0 {
        assert(0nat % len == 0 && 0nat / len == 0) by (nonlinear_arith)
            requires
                len > 0,
        ;
        assert(0 * iterations == 0) by (nonlinear_arith);
    } else {
        let earlier = (thread_count - 1) as nat;
        lemma_count_of_slot(len, earlier, iterations, slot);
        lemma_counts_len(len, earlier, iterations);
        lemma_next_worker(earlier, len);
        let had = workers_on(slot, len, earlier);
        let has = workers_on(slot, len, thread_count);
        if slot_of(earlier, len) == slot {
            assert(had * iterations + iterations == has * iterations) by (nonlinear_arith)
                requires
                    has == had + 1,
            ;
        }
    }
}

/// A run without work leaves every counter at zero: with no worker, or with
/// workers that add nothing, each slot has received no add.
pub proof fn lemma_idle_run(len: nat, thread_count: nat, iterations: nat, slot: nat)
    requires
        thread_count == 0 || iterations == 0,
        slot < len,
    ensures
        counts_after(len, thread_count, iterations)[slot as int] == 0,
{
    if thread_count > 0 {
        lemma_count_of_slot(len, thread_count, iterations, slot);
        assert(workers_on(slot, len, thread_count) * 0 == 0) by (nonlinear_arith);
    }
}

/// With as many workers as slots, every slot has one worker and ends at
/// `iterations`.
pub proof fn lemma_one_worker_each(len: nat, iterations: nat, slot: nat)
    requires
        slot < len,
    ensures
        counts_after(len, len, iterations)[slot as int] == iterations,
{
    lemma_count_of_slot(len, len, iterations, slot);
    assert(len % len == 0 && len / len == 1) by (nonlinear_arith)
        requires
            len > 0,
    ;
    assert(1 * iterations == iterations) by (nonlinear_arith);
}

} // verus!
