//! All leases that are out at the same time.
//!
//! A process may change while a request uses it; what it is known by does not.
//! Here `ident` is whatever tells processes apart.

use vstd::prelude::*;
use vstd::set_lib::{lemma_int_range, lemma_len_subset, set_int_range};

use crate::laws::{
    acquire_outcome, acquire_run, first_seen_to, law_acquire_choice, law_acquire_keeps_tidy,
    law_release_keeps_tidy, law_restart_keeps_tidy, law_spawned_keeps_tidy,
    law_started_keeps_tidy, law_workers_within_pool, lemma_first_free, lemma_first_live,
};
use crate::slots::{leased_count, lemma_next_idle, running_count, WorkerSlot};
use crate::worker::{
    acquire_step, release_step, restart_step, AcquireEvent, AcquireStepModel, Lease, Poison,
    Ticket, WorkerModel,
};

verus! {

/// A supervisor, and the leases that have not ended.
pub struct Fleet<P> {
    pub worker: WorkerModel<P>,
    pub live: Seq<Lease<P>>,
}

/// What can happen to a supervisor and its leases.
pub enum FleetEvent<P> {
    /// A request calls for a worker. `alive` tells of each slot whether its
    /// process is found running, `clock` what the clock then shows; `started`
    /// is the process that is started where one is asked for, if that works.
    Acquire {
        ticket: Ticket,
        now: u128,
        alive: spec_fn(usize) -> bool,
        clock: spec_fn(usize) -> u128,
        started: Option<(P, u32)>,
    },
    /// A request uses its process, and may mark it for discard.
    Used { lease: int, proc: P, discard: bool },
    /// A lease ends, with its process still running or not.
    Release { lease: int, running: bool, poison: Poison },
    /// A response asks for a restart.
    Restart { poison: Poison },
    /// The first worker is seen to; `started` is the process that is started
    /// where one is asked for, if that works.
    EnsureStarted { poison: Poison, started: Option<(P, u32)> },
    /// The books change: ids, counts, and what was last said.
    Booked { worker: WorkerModel<P> },
}

impl<P> Fleet<P> {
    /// Whether `x` tells a process from all that the pool and the leases have.
    pub open spec fn is_fresh(self, ident: spec_fn(P) -> int, x: int) -> bool {
        &&& forall|i: int|
            0 <= i < self.live.len() ==> ident((#[trigger] self.live[i]).proc->0) != x
        &&& forall|k: int|
            0 <= k < self.worker.pool.len() && (#[trigger] self.worker.pool[k]).proc is Some
                ==> ident(self.worker.pool[k].proc->0) != x
    }

    /// What holds of the pool and the leases at all times: each lease has a
    /// process and its id, out of a slot of the pool that is marked as leased; no two
    /// leases have the same slot; and no two of the processes, in the pool or
    /// out of it, are the same.
    pub open spec fn inv(self, ident: spec_fn(P) -> int) -> bool {
        &&& self.worker.wf()
        &&& self.worker.tidy()
        &&& forall|i: int|
            0 <= i < self.live.len() ==> {
                &&& (#[trigger] self.live[i]).proc is Some
                &&& self.live[i].pid != 0
                &&& self.live[i].slot_idx < self.worker.pool.len()
                &&& self.worker.pool[self.live[i].slot_idx as int].leased
            }
        &&& forall|i: int, j: int|
            0 <= i < j < self.live.len() ==> {
                &&& (#[trigger] self.live[i]).slot_idx != (#[trigger] self.live[j]).slot_idx
                &&& ident(self.live[i].proc->0) != ident(self.live[j].proc->0)
            }
        &&& forall|i: int, k: int|
            0 <= i < self.live.len() && 0 <= k < self.worker.pool.len()
                && (#[trigger] self.worker.pool[k]).proc is Some ==> ident(
                (#[trigger] self.live[i]).proc->0,
            ) != ident(self.worker.pool[k].proc->0)
        &&& forall|j: int, k: int|
            0 <= j < k < self.worker.pool.len() && (#[trigger] self.worker.pool[j]).proc is Some && (
            #[trigger] self.worker.pool[k]).proc is Some ==> ident(self.worker.pool[j].proc->0)
                != ident(self.worker.pool[k].proc->0)
    }

    /// Whether `event` can happen: a process that is started has an id and is
    /// not one of those that are there, and one that is used stays what it is.
    pub open spec fn can(self, ident: spec_fn(P) -> int, event: FleetEvent<P>) -> bool {
        match event {
            FleetEvent::Acquire { started, .. } => started matches Some(w) ==> w.1 != 0
                && self.is_fresh(ident, ident(w.0)),
            FleetEvent::Used { lease, proc, .. } => {
                &&& 0 <= lease < self.live.len()
                &&& ident(proc) == ident(self.live[lease].proc->0)
            },
            FleetEvent::Release { lease, .. } => 0 <= lease < self.live.len(),
            FleetEvent::Restart { .. } => true,
            FleetEvent::EnsureStarted { started, .. } => started matches Some(w) ==> w.1 != 0
                && self.is_fresh(ident, ident(w.0)),
            FleetEvent::Booked { worker } => {
                &&& worker.wf()
                &&& worker.pool == self.worker.pool
                &&& worker.pool_size == self.worker.pool_size
            },
        }
    }

    /// The outcome of a call for a worker, and the lease that it gives.
    pub open spec fn acquired(self, outcome: (WorkerModel<P>, AcquireStepModel<P>)) -> Fleet<P> {
        Fleet {
            worker: outcome.0,
            live: match outcome.1 {
                AcquireStepModel::Leased(lease) => self.live.push(lease),
                _ => self.live,
            },
        }
    }

    /// The supervisor and its leases after `event`.
    pub open spec fn after(self, event: FleetEvent<P>) -> Fleet<P> {
        match event {
            FleetEvent::Acquire { ticket, now, alive, clock, started } => {
                let first = acquire_step(self.worker, ticket, AcquireEvent::Start, now);
                let outcome = acquire_run(first.0, ticket, first.1, alive, clock);
                match (outcome.1, started) {
                    (AcquireStepModel::Spawn { slot }, Some(w)) => self.acquired(
                        acquire_step(
                            outcome.0,
                            ticket,
                            AcquireEvent::Spawned { slot, worker: Ok(w) },
                            clock(slot),
                        ),
                    ),
                    _ => self.acquired(outcome),
                }
            },
            FleetEvent::Used { lease, proc, discard } => Fleet {
                live: self.live.update(
                    lease,
                    Lease { proc: Some(proc), discard, ..self.live[lease] },
                ),
                ..self
            },
            FleetEvent::Release { lease, running, poison } => Fleet {
                worker: release_step(self.worker, self.live[lease], running, poison).0,
                live: self.live.remove(lease),
            },
            FleetEvent::Restart { poison } => Fleet {
                worker: restart_step(self.worker, poison).0,
                ..self
            },
            FleetEvent::EnsureStarted { poison, started } => if poison.pool {
                self
            } else {
                Fleet { worker: first_seen_to(self.worker, started), ..self }
            },
            FleetEvent::Booked { worker } => Fleet { worker, ..self },
        }
    }

    /// Whether all of `events` can happen, one after the other.
    pub open spec fn can_all(self, ident: spec_fn(P) -> int, events: Seq<FleetEvent<P>>) -> bool
        decreases events.len(),
    {
        events.len() > 0 ==> {
            &&& self.can(ident, events[0])
            &&& self.after(events[0]).can_all(ident, events.drop_first())
        }
    }

    /// The supervisor and its leases after all of `events`.
    pub open spec fn after_all(self, events: Seq<FleetEvent<P>>) -> Fleet<P>
        decreases events.len(),
    {
        if events.len() == 0 {
            self
        } else {
            self.after(events[0]).after_all(events.drop_first())
        }
    }
}

/// To put the slots in place adds no process.
proof fn lemma_opened<P>(fleet: Fleet<P>, ident: spec_fn(P) -> int)
    requires
        fleet.inv(ident),
    ensures
        (Fleet { worker: fleet.worker.opened(), ..fleet }).inv(ident),
        forall|x: int|
            fleet.is_fresh(ident, x) ==> (Fleet { worker: fleet.worker.opened(), ..fleet }).is_fresh(
                ident,
                x,
            ),
{
}

/// A pool that has lost processes, or none, while the slots of the leases are
/// still leased, is as good as before.
proof fn lemma_fewer<P>(fleet: Fleet<P>, worker: WorkerModel<P>, ident: spec_fn(P) -> int)
    requires
        fleet.inv(ident),
        worker.wf(),
        worker.tidy(),
        worker.pool.len() == fleet.worker.pool.len(),
        forall|k: int|
            0 <= k < worker.pool.len() && (#[trigger] worker.pool[k]).proc is Some
                ==> worker.pool[k].proc == fleet.worker.pool[k].proc,
        forall|i: int|
            0 <= i < fleet.live.len() ==> worker.pool[(
            #[trigger] fleet.live[i]).slot_idx as int].leased,
    ensures
        (Fleet { worker, ..fleet }).inv(ident),
        forall|x: int| fleet.is_fresh(ident, x) ==> (Fleet { worker, ..fleet }).is_fresh(ident, x),
{
    let after = Fleet { worker, ..fleet };
    assert forall|x: int| fleet.is_fresh(ident, x) implies after.is_fresh(ident, x) by {
        assert forall|k: int|
            0 <= k < after.worker.pool.len() && (
            #[trigger] after.worker.pool[k]).proc is Some implies ident(
            after.worker.pool[k].proc->0,
        ) != x by {
            assert(fleet.worker.pool[k].proc is Some);
        }
    }
}

/// A new process may come into a slot that no lease has.
proof fn lemma_gain<P>(
    fleet: Fleet<P>,
    k: int,
    slot: WorkerSlot<P>,
    worker: WorkerModel<P>,
    ident: spec_fn(P) -> int,
)
    requires
        fleet.inv(ident),
        0 <= k < fleet.worker.pool.len(),
        slot.proc is Some,
        slot.tidy(),
        worker.wf(),
        worker.pool == fleet.worker.pool.update(k, slot),
        fleet.is_fresh(ident, ident(slot.proc->0)),
        forall|i: int| 0 <= i < fleet.live.len() ==> (#[trigger] fleet.live[i]).slot_idx != k,
    ensures
        (Fleet { worker, ..fleet }).inv(ident),
{
    let after = Fleet { worker, ..fleet };
    assert forall|j: int| 0 <= j < worker.pool.len() implies (#[trigger] worker.pool[j]).tidy() by {
        assert(fleet.worker.pool[j].tidy());
    }
}

/// A new lease may come, of a process and a slot that no other lease has.
proof fn lemma_push<P>(fleet: Fleet<P>, lease: Lease<P>, ident: spec_fn(P) -> int)
    requires
        fleet.inv(ident),
        lease.proc is Some,
        lease.pid != 0,
        lease.slot_idx < fleet.worker.pool.len(),
        fleet.worker.pool[lease.slot_idx as int].leased,
        fleet.is_fresh(ident, ident(lease.proc->0)),
        forall|i: int|
            0 <= i < fleet.live.len() ==> (#[trigger] fleet.live[i]).slot_idx != lease.slot_idx,
    ensures
        (Fleet { live: fleet.live.push(lease), ..fleet }).inv(ident),
{
}

/// A lease may go; its process is then a fresh one.
proof fn lemma_remove<P>(fleet: Fleet<P>, i: int, ident: spec_fn(P) -> int)
    requires
        fleet.inv(ident),
        0 <= i < fleet.live.len(),
    ensures
        (Fleet { live: fleet.live.remove(i), ..fleet }).inv(ident),
        (Fleet { live: fleet.live.remove(i), ..fleet }).is_fresh(
            ident,
            ident(fleet.live[i].proc->0),
        ),
        forall|j: int|
            0 <= j < fleet.live.remove(i).len() ==> (#[trigger] fleet.live.remove(i)[j]).slot_idx
                != fleet.live[i].slot_idx,
{
    let gone = fleet.live.remove(i);
    assert forall|j: int| 0 <= j < gone.len() implies #[trigger] gone[j] == fleet.live[if j < i {
        j
    } else {
        j + 1
    }] by {}
}

proof fn lemma_acquire_keeps<P>(fleet: Fleet<P>, ident: spec_fn(P) -> int, event: FleetEvent<P>)
    requires
        fleet.inv(ident),
        fleet.can(ident, event),
        event is Acquire,
    ensures
        fleet.after(event).inv(ident),
{
    if let FleetEvent::Acquire { ticket, now, alive, clock, started } = event {
        let m = fleet.worker;
        let base = m.opened();
        let out = acquire_outcome(base, ticket, now, alive, clock);
        law_acquire_choice(m, ticket, now, alive, clock);
        law_acquire_keeps_tidy(m, ticket, now, alive, clock);
        lemma_first_live(base.pool, alive, 0);
        lemma_first_free(base.pool, 0);
        lemma_opened(fleet, ident);
        let opened = Fleet { worker: base, ..fleet };
        assert forall|i: int| 0 <= i < opened.live.len() implies out.0.pool[(
        #[trigger] opened.live[i]).slot_idx as int].leased by {
            assert(base.pool[opened.live[i].slot_idx as int].leased);
        }
        lemma_fewer(opened, out.0, ident);
        let swept = Fleet { worker: out.0, ..fleet };
        match out.1 {
            AcquireStepModel::Leased(lease) => {
                let x = ident(lease.proc->0);
                let n = lease.slot_idx as int;
                assert(base.pool[n].is_idle());
                assert(swept.is_fresh(ident, x)) by {
                    assert forall|k: int|
                        0 <= k < out.0.pool.len() && (
                        #[trigger] out.0.pool[k]).proc is Some implies ident(
                        out.0.pool[k].proc->0,
                    ) != x by {
                        assert(base.pool[k].proc is Some);
                    }
                }
                lemma_push(swept, lease, ident);
            },
            AcquireStepModel::Spawn { slot } => {
                if let Some(w) = started {
                    let next = acquire_step(
                        out.0,
                        ticket,
                        AcquireEvent::Spawned { slot, worker: Ok(w) },
                        clock(slot),
                    );
                    assert(!base.pool[slot as int].leased);
                    assert(out.0.pool[slot as int].is_vacant());
                    law_spawned_keeps_tidy(out.0, slot, w.0, w.1, ticket, clock(slot));
                    lemma_fewer(swept, next.0, ident);
                    let lease = next.1->Leased_0;
                    let taken = Fleet { worker: next.0, ..fleet };
                    assert(swept.is_fresh(ident, ident(w.0)));
                    lemma_push(taken, lease, ident);
                }
            },
            _ => {},
        }
    }
}

/// What holds of the pool and the leases holds again after whatever can happen
/// to them.
pub proof fn law_fleet_step<P>(fleet: Fleet<P>, ident: spec_fn(P) -> int, event: FleetEvent<P>)
    requires
        fleet.inv(ident),
        fleet.can(ident, event),
    ensures
        fleet.after(event).inv(ident),
{
    let m = fleet.worker;
    let after = fleet.after(event);
    match event {
        FleetEvent::Acquire { .. } => {
            lemma_acquire_keeps(fleet, ident, event);
        },
        FleetEvent::Used { lease, proc, discard } => {
            assert forall|i: int| 0 <= i < after.live.len() implies {
                &&& (#[trigger] after.live[i]).slot_idx == fleet.live[i].slot_idx
                &&& after.live[i].proc is Some
                &&& ident(after.live[i].proc->0) == ident(fleet.live[i].proc->0)
            } by {
                assert(fleet.live[i].proc is Some);
            }
        },
        FleetEvent::Release { lease, running, poison } => {
            let ended = fleet.live[lease];
            let rest = Fleet { live: fleet.live.remove(lease), ..fleet };
            lemma_remove(fleet, lease, ident);
            law_release_keeps_tidy(m, ended, running, poison);
            let k = ended.slot_idx as int;
            assert(m.pool[k].tidy());
            if !poison.pool && running && !ended.discard {
                lemma_gain(rest, k, after.worker.pool[k], after.worker, ident);
            } else {
                lemma_fewer(rest, after.worker, ident);
            }
        },
        FleetEvent::Restart { poison } => {
            law_restart_keeps_tidy(m, poison);
            lemma_next_idle(m.pool, 0);
            lemma_fewer(fleet, after.worker, ident);
        },
        FleetEvent::EnsureStarted { poison, started } => {
            lemma_opened(fleet, ident);
            if !poison.pool && m.opened().pool[0].is_vacant() && started is Some {
                let opened = Fleet { worker: m.opened(), ..fleet };
                let (proc, pid) = started->0;
                law_started_keeps_tidy(m.opened(), proc, pid);
                lemma_gain(opened, 0, after.worker.pool[0], after.worker, ident);
            }
        },
        FleetEvent::Booked { worker } => {
            lemma_fewer(fleet, worker, ident);
        },
    }
}

proof fn lemma_fleet_run<P>(fleet: Fleet<P>, ident: spec_fn(P) -> int, events: Seq<FleetEvent<P>>)
    requires
        fleet.inv(ident),
        fleet.can_all(ident, events),
    ensures
        fleet.after_all(events).inv(ident),
        fleet.after_all(events).worker.pool_size == fleet.worker.pool_size,
    decreases events.len(),
{
    if events.len() > 0 {
        law_fleet_step(fleet, ident, events[0]);
        lemma_pool_size_kept(fleet, events[0], ident);
        lemma_fleet_run(fleet.after(events[0]), ident, events.drop_first());
    }
}

proof fn lemma_pool_size_kept<P>(fleet: Fleet<P>, event: FleetEvent<P>, ident: spec_fn(P) -> int)
    requires
        fleet.inv(ident),
        fleet.can(ident, event),
    ensures
        fleet.after(event).worker.pool_size == fleet.worker.pool_size,
{
    if let FleetEvent::Acquire { ticket, now, alive, clock, started } = event {
        law_acquire_choice(fleet.worker, ticket, now, alive, clock);
    }
}

/// Leases with different slots are no more than there are slots.
proof fn lemma_pigeonhole<P>(live: Seq<Lease<P>>, n: nat)
    requires
        forall|i: int| 0 <= i < live.len() ==> (#[trigger] live[i]).slot_idx < n,
        forall|i: int, j: int|
            0 <= i < j < live.len() ==> (#[trigger] live[i]).slot_idx != (
            #[trigger] live[j]).slot_idx,
    ensures
        live.len() <= n,
{
    let slots = Seq::new(live.len(), |i: int| live[i].slot_idx as int);
    assert(slots.no_duplicates());
    slots.unique_seq_to_set();
    let all = set_int_range(0, n as int);
    lemma_int_range(0, n as int);
    assert(slots.to_set().subset_of(all)) by {
        assert forall|x: int| slots.to_set().contains(x) implies all.contains(x) by {
            let i = choose|i: int| 0 <= i < slots.len() && slots[i] == x;
            assert(live[i].slot_idx < n);
        }
    }
    lemma_len_subset(slots.to_set(), all);
}

/// Whatever has happened since the supervisor was made, and in whatever order,
/// as long as each process that was started was a new one: the leases that have
/// not ended have slots of the pool and processes, no two of them the same slot
/// and no two the same process; there are never more leases than the pool has
/// workers, nor more workers in and out of it; and no lease has a process that
/// is also in the pool.
pub proof fn law_live_leases_distinct<P>(
    worker: WorkerModel<P>,
    ident: spec_fn(P) -> int,
    events: Seq<FleetEvent<P>>,
)
    requires
        worker.wf(),
        worker.pool.len() == 0,
        (Fleet { worker, live: Seq::empty() }).can_all(ident, events),
    ensures
        ({
            let fleet = Fleet { worker, live: Seq::empty() }.after_all(events);
            let pool = fleet.worker.pool;
            &&& fleet.inv(ident)
            &&& fleet.live.len() <= worker.pool_size
            &&& running_count(pool) + leased_count(pool) <= worker.pool_size
            &&& forall|i: int|
                0 <= i < fleet.live.len() ==> {
                    &&& (#[trigger] fleet.live[i]).slot_idx < worker.pool_size
                    &&& fleet.live[i].proc is Some
                }
            &&& forall|i: int, j: int|
                0 <= i < fleet.live.len() && 0 <= j < fleet.live.len() && i != j ==> {
                    &&& (#[trigger] fleet.live[i]).slot_idx != (#[trigger] fleet.live[j]).slot_idx
                    &&& ident(fleet.live[i].proc->0) != ident(fleet.live[j].proc->0)
                }
            &&& forall|i: int, k: int|
                0 <= i < fleet.live.len() && 0 <= k < pool.len() && (
                #[trigger] pool[k]).proc is Some ==> ident((#[trigger] fleet.live[i]).proc->0)
                    != ident(pool[k].proc->0)
        }),
{
    let start = Fleet { worker, live: Seq::empty() };
    lemma_fleet_run(start, ident, events);
    let fleet = start.after_all(events);
    law_workers_within_pool(fleet.worker);
    lemma_pigeonhole(fleet.live, fleet.worker.pool.len());
    assert forall|i: int, j: int|
        0 <= i < fleet.live.len() && 0 <= j < fleet.live.len() && i != j implies {
        &&& (#[trigger] fleet.live[i]).slot_idx != (#[trigger] fleet.live[j]).slot_idx
        &&& ident(fleet.live[i].proc->0) != ident(fleet.live[j].proc->0)
    } by {
        if i < j {
            assert(fleet.live[i].slot_idx != fleet.live[j].slot_idx);
        } else {
            assert(fleet.live[j].slot_idx != fleet.live[i].slot_idx);
        }
    }
}

/// A request that gets a worker gets a slot and a process that no lease has
/// which has not ended.
pub proof fn law_new_lease_differs<P>(
    fleet: Fleet<P>,
    ident: spec_fn(P) -> int,
    event: FleetEvent<P>,
    i: int,
)
    requires
        fleet.inv(ident),
        fleet.can(ident, event),
        event is Acquire,
        fleet.after(event).live.len() > fleet.live.len(),
        0 <= i < fleet.live.len(),
    ensures
        ({
            let lease = fleet.after(event).live.last();
            &&& lease.slot_idx < fleet.worker.pool_size
            &&& lease.proc is Some
            &&& lease.slot_idx != fleet.live[i].slot_idx
            &&& ident(lease.proc->0) != ident(fleet.live[i].proc->0)
        }),
{
    law_fleet_step(fleet, ident, event);
    lemma_pool_size_kept(fleet, event, ident);
    let after = fleet.after(event);
    let n = after.live.len() - 1;
    assert(after.live[i] == fleet.live[i]);
    assert(after.live[i].slot_idx != after.live[n].slot_idx);
}

} // verus!
