use block_cpu::worker::{block_cpu, busy_step, LOOP_EXIT, RESET_LIMIT};

#[test]
fn busy_step_increments_below_the_reset_limit() {
    assert_eq!(busy_step(0), 1);
    assert_eq!(busy_step(1), 2);
    assert_eq!(busy_step(999), 1000);
}

#[test]
fn busy_step_resets_once_past_the_limit() {
    assert_eq!(busy_step(RESET_LIMIT), 0);
    assert_eq!(busy_step(5000), 0);
    assert_eq!(busy_step(u64::MAX), 0);
}

#[test]
fn block_cpu_counts_up_from_one() {
    assert_eq!(block_cpu(0), 1);
    assert_eq!(block_cpu(3), 4);
    assert_eq!(block_cpu(999), 1000);
}

#[test]
fn block_cpu_wraps_at_the_reset_limit() {
    // the counter runs 1, 2, ..., 1000, 0, 1, ... with period 1001
    assert_eq!(block_cpu(1000), 0);
    assert_eq!(block_cpu(1001), 1);
    assert_eq!(block_cpu(2002), 1);
}

#[test]
fn busy_loop_does_not_exit_within_millions_of_iterations() {
    // the loop condition compares the counter against LOOP_EXIT; after ten
    // million iterations the counter is still far below it, so the loop was
    // still running and ended only because the burst's step budget ran out
    let counter = block_cpu(10_000_000);
    assert!(counter <= RESET_LIMIT);
    assert!(counter < LOOP_EXIT);
}
