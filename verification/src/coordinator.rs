//! The coordinator: the state machine that decides how many workers are
//! spawned, when every spawned worker is joined, and what happens when a
//! spawn fails.
//!
//! Creating and joining threads is outside work; the binary performs it and
//! reports each outcome back. The coordinator only decides: it hands out one
//! [`Action`] at a time, and the driver loop carries it out. Verification
//! then shows that the decisions are right for every requested count: exactly
//! `requested` spawn actions come before anything else, every spawned worker
//! is joined before the run is finished, and a spawn failure aborts the run
//! at once with an exact count of the workers already started.

use vstd::prelude::*;

verus! {

/// What the driver of a [`Coordinator`] must do next.
#[derive(Clone, Copy, Debug, PartialEq, Eq, Structural)]
pub enum Action {
    /// Start one more worker and report the outcome with
    /// [`Coordinator::on_spawned`] or [`Coordinator::on_spawn_failed`].
    SpawnWorker,
    /// Wait on one outstanding worker handle and report it with
    /// [`Coordinator::on_joined`]. Blocks indefinitely: a worker terminates
    /// only when the process is interrupted from outside.
    JoinWorker,
    /// A spawn failed: report how many workers were started and exit
    /// non-zero, tearing the started workers down with the process.
    ReportFailure,
    /// Every spawned worker has been joined; there is nothing left to do.
    Finished,
}

/// Tracks a single load-generation run: how many workers were requested, how
/// many have been spawned and joined so far, and whether a spawn failure has
/// aborted the run.
#[derive(Clone, Copy, Debug, PartialEq, Eq, Structural)]
pub struct Coordinator {
    /// How many workers this run was asked for. Fixed at creation.
    pub requested: u8,
    /// How many workers have been spawned so far.
    pub spawned: u8,
    /// How many spawned workers have been joined so far.
    pub joined: u8,
    /// Whether a spawn failure has aborted the run.
    pub aborted: bool,
}

/// A fresh coordinator for a run of `requested` workers.
pub open spec fn spec_new(requested: u8) -> Coordinator {
    Coordinator { requested, spawned: 0, joined: 0, aborted: false }
}

/// The state after one more worker was spawned.
pub open spec fn spec_on_spawned(c: Coordinator) -> Coordinator {
    Coordinator { spawned: (c.spawned + 1) as u8, ..c }
}

/// The state after a spawn failed.
pub open spec fn spec_on_spawn_failed(c: Coordinator) -> Coordinator {
    Coordinator { aborted: true, ..c }
}

/// The state after one more worker was joined.
pub open spec fn spec_on_joined(c: Coordinator) -> Coordinator {
    Coordinator { joined: (c.joined + 1) as u8, ..c }
}

/// The state after `count` workers were spawned, one after the other, into a
/// fresh coordinator for `requested` workers.
pub open spec fn spec_after_spawns(requested: u8, count: nat) -> Coordinator
    decreases count,
{
    if count == 0 {
        spec_new(requested)
    } else {
        spec_on_spawned(spec_after_spawns(requested, (count - 1) as nat))
    }
}

/// The state after `count` workers were joined, one after the other,
/// starting from `c`.
pub open spec fn spec_after_joins(c: Coordinator, count: nat) -> Coordinator
    decreases count,
{
    if count == 0 {
        c
    } else {
        spec_on_joined(spec_after_joins(c, (count - 1) as nat))
    }
}

impl Coordinator {
    /// Every state a run passes through keeps these bounds: no more workers
    /// spawned than requested, none joined that was not spawned, and an
    /// aborted run stopped short of its requested count.
    pub open spec fn wf(self) -> bool {
        &&& self.spawned <= self.requested
        &&& self.joined <= self.spawned
        &&& (self.aborted ==> self.spawned < self.requested)
    }

    /// The decision rule: spawn until every requested worker runs, then join
    /// every spawned worker, then finish — unless a spawn failure has aborted
    /// the run, which takes precedence over everything else.
    pub open spec fn spec_next_action(self) -> Action {
        if self.aborted {
            Action::ReportFailure
        } else if self.spawned < self.requested {
            Action::SpawnWorker
        } else if self.joined < self.spawned {
            Action::JoinWorker
        } else {
            Action::Finished
        }
    }

    /// Begin a run of `requested` workers. A request for zero workers is
    /// degenerate but valid: such a run is finished at once.
    pub fn new(requested: u8) -> (c: Coordinator)
        ensures
            c == spec_new(requested),
            c.wf(),
    {
        Coordinator { requested, spawned: 0, joined: 0, aborted: false }
    }

    /// What the driver must do next.
    pub fn next_action(&self) -> (a: Action)
        ensures
            a == self.spec_next_action(),
    {
        if self.aborted {
            Action::ReportFailure
        } else if self.spawned < self.requested {
            Action::SpawnWorker
        } else if self.joined < self.spawned {
            Action::JoinWorker
        } else {
            Action::Finished
        }
    }

    /// Record that one more worker was spawned.
    pub fn on_spawned(&mut self)
        requires
            old(self).wf(),
            !old(self).aborted,
            old(self).spawned < old(self).requested,
        ensures
            *final(self) == spec_on_spawned(*old(self)),
            final(self).wf(),
    {
        self.spawned = self.spawned + 1;
    }

    /// Record that a spawn failed. The run is aborted: no further worker is
    /// spawned or joined, and the one remaining action is to report the
    /// failure.
    pub fn on_spawn_failed(&mut self)
        requires
            old(self).wf(),
            !old(self).aborted,
            old(self).spawned < old(self).requested,
        ensures
            *final(self) == spec_on_spawn_failed(*old(self)),
            final(self).wf(),
            final(self).spec_next_action() == Action::ReportFailure,
    {
        self.aborted = true;
    }

    /// Record that one outstanding worker was waited on. A join that did not
    /// complete cleanly counts the same: the worker is gone either way, so
    /// the driver reports it and moves on rather than failing the run.
    pub fn on_joined(&mut self)
        requires
            old(self).wf(),
            !old(self).aborted,
            old(self).joined < old(self).spawned,
        ensures
            *final(self) == spec_on_joined(*old(self)),
            final(self).wf(),
    {
        self.joined = self.joined + 1;
    }
}

/// For every requested count, the coordinator directs exactly that many
/// spawn actions before anything else: after `count` of `requested` workers
/// were spawned, the next action is still a spawn while any are missing, and
/// the moment all are running the run moves to joining — no more spawns, and
/// no join before every requested worker runs.
pub proof fn lemma_spawns_exactly_requested(requested: u8, count: nat)
    requires
        count <= requested,
    ensures
        spec_after_spawns(requested, count).wf(),
        spec_after_spawns(requested, count).requested == requested,
        spec_after_spawns(requested, count).spawned == count,
        spec_after_spawns(requested, count).joined == 0,
        !spec_after_spawns(requested, count).aborted,
        count < requested ==> spec_after_spawns(requested, count).spec_next_action()
            == Action::SpawnWorker,
        count == requested && requested > 0 ==> spec_after_spawns(requested, count)
            .spec_next_action() == Action::JoinWorker,
    decreases count,
{
    if count > 0 {
        lemma_spawns_exactly_requested(requested, (count - 1) as nat);
    }
}

/// A run of zero workers is finished immediately: nothing is spawned and the
/// driver never blocks.
pub proof fn lemma_zero_workers_finish_immediately()
    ensures
        spec_new(0).spawned == 0,
        spec_new(0).spec_next_action() == Action::Finished,
{
}

/// The join phase accounts for every spawned worker: from any state with all
/// requested workers running, the next action stays a join until each one
/// has been waited on, and the run is finished exactly when the last handle
/// is joined — no worker handle is abandoned.
pub proof fn lemma_join_phase_waits_on_every_worker(c: Coordinator, count: nat)
    requires
        c.wf(),
        !c.aborted,
        c.spawned == c.requested,
        count <= c.spawned - c.joined,
    ensures
        spec_after_joins(c, count).wf(),
        spec_after_joins(c, count).spawned == c.spawned,
        spec_after_joins(c, count).joined == c.joined + count,
        count < c.spawned - c.joined ==> spec_after_joins(c, count).spec_next_action()
            == Action::JoinWorker,
        count == c.spawned - c.joined ==> spec_after_joins(c, count).spec_next_action()
            == Action::Finished,
    decreases count,
{
    if count > 0 {
        lemma_join_phase_waits_on_every_worker(c, (count - 1) as nat);
    }
}

/// A spawn failure aborts the run on the spot: the coordinator records
/// exactly how many workers had started, directs the driver to report the
/// failure, and never directs another spawn or a join.
pub proof fn lemma_spawn_failure_aborts_run(requested: u8, started: nat)
    requires
        started < requested,
    ensures
        ({
            let c = spec_on_spawn_failed(spec_after_spawns(requested, started));
            &&& c.wf()
            &&& c.aborted
            &&& c.spawned == started
            &&& c.spawned < c.requested
            &&& c.spec_next_action() == Action::ReportFailure
        }),
{
    lemma_spawns_exactly_requested(requested, started);
}

} // verus!
