//! The worker's busy loop: the computation that keeps one logical core
//! occupied.

use vstd::prelude::*;

verus! {

/// The busy loop runs while its counter is below this threshold. The counter
/// never gets anywhere near it (see [`lemma_busy_loop_never_exits`]), so the
/// loop never ends on its own.
pub const LOOP_EXIT: u64 = 10_000;

/// Once the counter passes this bound, the next step resets it to zero, which
/// keeps it forever below [`LOOP_EXIT`].
pub const RESET_LIMIT: u64 = 1_000;

/// One iteration of the busy loop: the counter advances by one and wraps back
/// to zero once it would pass [`RESET_LIMIT`].
pub open spec fn spec_busy_step(counter: int) -> int {
    if counter + 1 > RESET_LIMIT as int {
        0
    } else {
        counter + 1
    }
}

/// The counter after `steps` iterations of the busy loop, starting from
/// `counter`.
pub open spec fn spec_busy_run(counter: int, steps: nat) -> int
    decreases steps,
{
    if steps == 0 {
        counter
    } else {
        spec_busy_step(spec_busy_run(counter, (steps - 1) as nat))
    }
}

/// A worker never voluntarily returns: from any counter value the loop can
/// hold (at most [`RESET_LIMIT`]), any number of further iterations leaves
/// the counter at most [`RESET_LIMIT`] and so strictly below [`LOOP_EXIT`].
/// The loop condition therefore holds before every iteration, and the loop
/// ends only when the process is stopped from outside.
pub proof fn lemma_busy_loop_never_exits(counter: int, steps: nat)
    requires
        0 <= counter <= RESET_LIMIT,
    ensures
        0 <= spec_busy_run(counter, steps) <= RESET_LIMIT,
        spec_busy_run(counter, steps) < LOOP_EXIT,
    decreases steps,
{
    if steps > 0 {
        lemma_busy_loop_never_exits(counter, (steps - 1) as nat);
    }
}

/// One iteration of the busy loop, as executable code.
pub fn busy_step(counter: u64) -> (next: u64)
    ensures
        next == spec_busy_step(counter as int),
        next <= RESET_LIMIT,
{
    if counter >= RESET_LIMIT {
        0
    } else {
        counter + 1
    }
}

/// A bounded burst of the worker's busy loop: starting from one, the counter
/// is stepped `steps` times, as long as it stays below [`LOOP_EXIT`]. It
/// always does — the result is at most [`RESET_LIMIT`] — so the burst always
/// uses up all of `steps`: the loop condition never ends the loop. A worker
/// saturates its core by calling this again and again, forever; that
/// unbounded repetition has no termination argument, so it lives with the
/// thread plumbing in the binary, not here.
pub fn block_cpu(steps: u64) -> (counter: u64)
    ensures
        counter == spec_busy_run(1, steps as nat),
        counter <= RESET_LIMIT,
{
    let mut counter: u64 = 1;
    let mut done: u64 = 0;
    while done < steps && counter < LOOP_EXIT
        invariant
            done <= steps,
            counter <= RESET_LIMIT,
            counter == spec_busy_run(1, done as nat),
        decreases steps - done,
    {
        counter = busy_step(counter);
        done = done + 1;
    }
    counter
}

} // verus!
