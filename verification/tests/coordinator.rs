use block_cpu::coordinator::{Action, Coordinator};

#[test]
fn one_worker_is_spawned_then_joined() {
    let mut c = Coordinator::new(1);
    assert_eq!(c.next_action(), Action::SpawnWorker);
    c.on_spawned();
    assert_eq!(c.spawned, 1);
    assert_eq!(c.next_action(), Action::JoinWorker);
}

#[test]
fn four_workers_mean_exactly_four_spawn_actions() {
    let mut c = Coordinator::new(4);
    let mut spawns: u8 = 0;
    while c.next_action() == Action::SpawnWorker {
        c.on_spawned();
        spawns += 1;
    }
    assert_eq!(spawns, 4);
    assert_eq!(c.spawned, 4);
    assert_eq!(c.next_action(), Action::JoinWorker);
}

#[test]
fn zero_workers_finish_immediately() {
    let c = Coordinator::new(0);
    assert_eq!(c.spawned, 0);
    assert_eq!(c.next_action(), Action::Finished);
}

#[test]
fn every_spawned_worker_is_joined_before_the_run_finishes() {
    let mut c = Coordinator::new(3);
    for _ in 0..3 {
        assert_eq!(c.next_action(), Action::SpawnWorker);
        c.on_spawned();
    }
    let mut joins: u8 = 0;
    while c.next_action() == Action::JoinWorker {
        c.on_joined();
        joins += 1;
    }
    assert_eq!(joins, 3);
    assert_eq!(c.joined, 3);
    assert_eq!(c.next_action(), Action::Finished);
}

#[test]
fn spawn_failure_at_the_third_of_five_aborts_with_two_started() {
    let mut c = Coordinator::new(5);
    c.on_spawned();
    c.on_spawned();
    // the third spawn fails
    c.on_spawn_failed();
    assert!(c.aborted);
    assert_eq!(c.spawned, 2);
    assert_eq!(c.next_action(), Action::ReportFailure);
    // the abort is final: no further spawn or join is ever directed
    assert_eq!(c.next_action(), Action::ReportFailure);
}

#[test]
fn a_failed_join_is_counted_like_a_clean_one() {
    let mut c = Coordinator::new(2);
    c.on_spawned();
    c.on_spawned();
    // the driver calls on_joined whatever the join returned; the run
    // still finishes once both workers are accounted for
    c.on_joined();
    c.on_joined();
    assert_eq!(c.next_action(), Action::Finished);
}
