//! What holds of the supervisor as a whole.

use vstd::prelude::*;

use crate::error::IoFailureModel;
use crate::exchange::{talk_asks, talk_first, talk_next, ExchangeModel, PhaseModel, TalkEvent};
use crate::frame::Protocol;
use crate::pipe::{wait_timed_out, PollBits, WaitEvent};
use crate::slots::{
    first_current, known_pids, leased_count, lemma_next_idle, next_idle, next_vacant,
    running_count, WorkerSlot,
};
use crate::worker::{
    acquire_busy, acquire_from, acquire_lease, acquire_step, exchange_failed, new_call,
    release_step, restart_step, snapshot_of, wrap_dec, wrap_inc, AcquireEvent, AcquireStepModel,
    CurrentSnapshot, Lease, Poison, ReapModel, SnapshotModel, Ticket, WorkerModel,
};

verus! {

/// The id of the request that comes `k` requests after the one with the id
/// `first`.
pub open spec fn nth_id(first: u32, k: nat) -> u32
    decreases k,
{
    if k == 0 {
        first
    } else {
        wrap_inc(nth_id(first, (k - 1) as nat))
    }
}

/// Ids count up, and wrap around at 2^32.
pub proof fn law_request_ids_count_up(first: u32, k: nat)
    ensures
        nth_id(first, k) == (first + k) % 0x1_0000_0000,
    decreases k,
{
    if k > 0 {
        law_request_ids_count_up(first, (k - 1) as nat);
    }
}

/// The `k`th request of a supervisor has the id `k`, wrapping around at 2^32:
/// its id is the next one once `k - 1` requests have been asked, and a new
/// supervisor has 1 as the next.
pub proof fn law_kth_request_id<P>(
    m: WorkerModel<P>,
    k: nat,
    proto: Protocol,
    opcode: u16,
    payload: Seq<u8>,
    now: u128,
)
    requires
        m.next_id == 1,
        k > 0,
    ensures
        new_call(asked_times(m, (k - 1) as nat), proto, opcode, payload, now).frame.request_id == k
            % 0x1_0000_0000,
{
    lemma_asked_times(m, (k - 1) as nat);
    law_request_ids_count_up(1, (k - 1) as nat);
}

/// The books with `k` more requests asked.
pub open spec fn asked_times<P>(m: WorkerModel<P>, k: nat) -> WorkerModel<P>
    decreases k,
{
    if k == 0 {
        m
    } else {
        asked_times(m, (k - 1) as nat).asked()
    }
}

proof fn lemma_asked_times<P>(m: WorkerModel<P>, k: nat)
    ensures
        asked_times(m, k).next_id == nth_id(m.next_id, k),
    decreases k,
{
    if k > 0 {
        lemma_asked_times(m, (k - 1) as nat);
    }
}

/// Of any 2^32 requests in a row, no two have the same id.
pub proof fn law_request_ids_distinct(first: u32, i: nat, j: nat)
    requires
        i < j < i + 0x1_0000_0000,
    ensures
        nth_id(first, i) != nth_id(first, j),
{
    law_request_ids_count_up(first, i);
    law_request_ids_count_up(first, j);
}

/// A request that starts and stops waiting leaves the number of waiting
/// requests as it was.
pub proof fn law_wait_balanced(n: u32)
    ensures
        wrap_dec(wrap_inc(n)) == n,
        wrap_inc(wrap_dec(n)) == n,
{
}

/// The first slot from `from` on whose process is idle and still running; the
/// number of slots where there is none.
pub open spec fn first_live<P>(
    pool: Seq<WorkerSlot<P>>,
    alive: spec_fn(usize) -> bool,
    from: int,
) -> int
    decreases pool.len() - from,
{
    if from >= pool.len() {
        pool.len() as int
    } else if pool[from].is_idle() && alive(from as usize) {
        from
    } else {
        first_live(pool, alive, from + 1)
    }
}

/// The first slot from `from` on that is not leased; the number of slots where
/// there is none.
pub open spec fn first_free<P>(pool: Seq<WorkerSlot<P>>, from: int) -> int
    decreases pool.len() - from,
{
    if from >= pool.len() {
        pool.len() as int
    } else if !pool[from].leased {
        from
    } else {
        first_free(pool, from + 1)
    }
}

/// The slots with those before `upto` emptied whose process was idle.
pub open spec fn swept<P>(pool: Seq<WorkerSlot<P>>, upto: int) -> Seq<WorkerSlot<P>> {
    Seq::new(
        pool.len(),
        |k: int|
            if k < upto && pool[k].is_idle() {
                pool[k].emptied().forgotten()
            } else {
                pool[k]
            },
    )
}

/// How many more slots can be probed.
pub open spec fn probes_left<P>(m: WorkerModel<P>, step: AcquireStepModel<P>) -> int {
    match step {
        AcquireStepModel::Probe { slot, .. } => m.pool.len() - slot,
        _ => 0,
    }
}

/// The call of a request for a worker, from `step` on until it asks for
/// something else than a probe. `alive` tells of each slot whether its process
/// is found running, `clock` what the clock shows when that is reported.
pub open spec fn acquire_run<P>(
    m: WorkerModel<P>,
    ticket: Ticket,
    step: AcquireStepModel<P>,
    alive: spec_fn(usize) -> bool,
    clock: spec_fn(usize) -> u128,
) -> (WorkerModel<P>, AcquireStepModel<P>)
    decreases probes_left(m, step),
{
    match step {
        AcquireStepModel::Probe { slot, proc } => {
            if m.wf() && slot < m.pool.len() {
                let running = if alive(slot) {
                    Some(proc)
                } else {
                    None
                };
                let next = acquire_step(
                    m,
                    ticket,
                    AcquireEvent::Probed { slot, running },
                    clock(slot),
                );
                proof {
                    lemma_next_idle(
                        m.pool.update(slot as int, m.pool[slot as int].forgotten()),
                        slot + 1,
                    );
                }
                acquire_run(next.0, ticket, next.1, alive, clock)
            } else {
                (m, step)
            }
        },
        _ => (m, step),
    }
}

pub proof fn lemma_first_live<P>(pool: Seq<WorkerSlot<P>>, alive: spec_fn(usize) -> bool, from: int)
    requires
        0 <= from <= pool.len(),
    ensures
        from <= first_live(pool, alive, from) <= pool.len(),
        first_live(pool, alive, from) < pool.len() ==> {
            &&& pool[first_live(pool, alive, from)].is_idle()
            &&& alive(first_live(pool, alive, from) as usize)
        },
        forall|k: int|
            from <= k < first_live(pool, alive, from) && (#[trigger] pool[k]).is_idle() ==> !alive(
                k as usize,
            ),
    decreases pool.len() - from,
{
    if from < pool.len() && !(pool[from].is_idle() && alive(from as usize)) {
        lemma_first_live(pool, alive, from + 1);
    }
}

pub proof fn lemma_first_free<P>(pool: Seq<WorkerSlot<P>>, from: int)
    requires
        0 <= from <= pool.len(),
    ensures
        from <= first_free(pool, from) <= pool.len(),
        first_free(pool, from) < pool.len() ==> !pool[first_free(pool, from)].leased,
        forall|k: int| from <= k < first_free(pool, from) ==> (#[trigger] pool[k]).leased,
    decreases pool.len() - from,
{
    if from < pool.len() && pool[from].leased {
        lemma_first_free(pool, from + 1);
    }
}

/// The search for a live worker does not look at slots without an idle one.
proof fn lemma_first_live_skips<P>(
    pool: Seq<WorkerSlot<P>>,
    alive: spec_fn(usize) -> bool,
    from: int,
    to: int,
)
    requires
        0 <= from <= to <= pool.len(),
        forall|k: int| from <= k < to ==> !((#[trigger] pool[k]).is_idle() && alive(k as usize)),
    ensures
        first_live(pool, alive, from) == first_live(pool, alive, to),
    decreases to - from,
{
    if from < to {
        assert(!(pool[from].is_idle() && alive(from as usize)));
        lemma_first_live_skips(pool, alive, from + 1, to);
    }
}

/// What a call for a worker comes to with the slots of `m` in place: the first
/// idle worker that is still running is checked out, those found gone on the
/// way being forgotten; where there is none, the first slot that is not leased
/// is to be filled; where all are leased, the request waits, or gives up at
/// its deadline.
pub open spec fn acquire_outcome<P>(
    m: WorkerModel<P>,
    ticket: Ticket,
    now: u128,
    alive: spec_fn(usize) -> bool,
    clock: spec_fn(usize) -> u128,
) -> (WorkerModel<P>, AcquireStepModel<P>) {
    let live = first_live(m.pool, alive, 0);
    let free = first_free(m.pool, 0);
    if live < m.pool.len() {
        acquire_lease(
            WorkerModel {
                pool: swept(m.pool, live).update(live, m.pool[live].emptied()),
                ..m
            },
            live as usize,
            m.pool[live].proc->0,
            m.pool[live].pid,
            ticket,
            clock(live as usize),
        )
    } else if free < m.pool.len() {
        (
            WorkerModel { pool: swept(m.pool, m.pool.len() as int), ..m },
            AcquireStepModel::Spawn { slot: free as usize },
        )
    } else if now >= ticket.deadline {
        (m.timed_out(), acquire_busy(m, ticket))
    } else {
        (m, AcquireStepModel::Sleep { millis: 10 })
    }
}

/// Once no slot holds an idle process, the vacant slots are those that are not
/// leased.
proof fn lemma_free_is_vacant<P>(pool: Seq<WorkerSlot<P>>, other: Seq<WorkerSlot<P>>, from: int)
    requires
        0 <= from <= pool.len(),
        pool.len() == other.len(),
        forall|k: int| 0 <= k < pool.len() ==> !(#[trigger] pool[k]).is_idle(),
        forall|k: int| 0 <= k < pool.len() ==> (#[trigger] pool[k]).leased == other[k].leased,
    ensures
        next_vacant(pool, from) == first_free(other, from),
    decreases pool.len() - from,
{
    if from < pool.len() {
        assert(!pool[from].is_idle());
        assert(pool[from].leased == other[from].leased);
        lemma_free_is_vacant(pool, other, from + 1);
    }
}

/// The rest of a call for a worker. `base` holds the slots at its start; those
/// before `from` have been swept, and none of them had a live worker.
proof fn lemma_acquire_rest<P>(
    base: WorkerModel<P>,
    from: int,
    ticket: Ticket,
    now: u128,
    at: u128,
    alive: spec_fn(usize) -> bool,
    clock: spec_fn(usize) -> u128,
)
    requires
        base.wf(),
        0 <= from <= base.pool.len(),
        forall|k: int|
            0 <= k < from && (#[trigger] base.pool[k]).is_idle() ==> !alive(k as usize),
        at == now || exists|k: int| 0 <= k < from && (#[trigger] base.pool[k]).is_idle(),
    ensures
        ({
            let m = WorkerModel { pool: swept(base.pool, from), ..base };
            let first = acquire_from(m, from, ticket, at);
            acquire_run(first.0, ticket, first.1, alive, clock) == acquire_outcome(
                base,
                ticket,
                now,
                alive,
                clock,
            )
        }),
    decreases base.pool.len() - from,
{
    let n = base.pool.len() as int;
    let m = WorkerModel { pool: swept(base.pool, from), ..base };
    let first = acquire_from(m, from, ticket, at);
    let idle = next_idle(m.pool, from);
    lemma_next_idle(m.pool, from);
    lemma_first_live(base.pool, alive, 0);
    lemma_first_free(base.pool, 0);
    assert forall|k: int| from <= k < n implies m.pool[k] == #[trigger] base.pool[k] by {}
    if idle < n {
        assert(m.pool[idle] == base.pool[idle]);
        assert forall|k: int| 0 <= k < idle implies !((#[trigger] base.pool[k]).is_idle()
            && alive(k as usize)) by {
            if k >= from {
                assert(m.pool[k] == base.pool[k]);
            }
        }
        lemma_first_live_skips(base.pool, alive, 0, idle);
        let slot = idle as usize;
        let proc = base.pool[idle].proc->0;
        let m1 = first.0;
        assert(first.1 == AcquireStepModel::<P>::Probe { slot, proc });
        let running = if alive(slot) {
            Some(proc)
        } else {
            None
        };
        let next = acquire_step(m1, ticket, AcquireEvent::Probed { slot, running }, clock(slot));
        assert(acquire_run(m1, ticket, first.1, alive, clock) == acquire_run(
            next.0,
            ticket,
            next.1,
            alive,
            clock,
        ));
        if alive(slot) {
            assert(m1.pool =~= swept(base.pool, idle).update(idle, base.pool[idle].emptied())) by {
                assert forall|k: int| 0 <= k < n implies m1.pool[k] == swept(
                    base.pool,
                    idle,
                ).update(idle, base.pool[idle].emptied())[k] by {
                    if from <= k < idle {
                        assert(m.pool[k] == base.pool[k]);
                    }
                }
            }
            assert(acquire_run(next.0, ticket, next.1, alive, clock) == next);
        } else {
            assert(!(base.pool[idle].is_idle() && alive(idle as usize)));
            let m2 = m1.with_slot(idle, m1.pool[idle].forgotten());
            assert(m2.pool =~= swept(base.pool, idle + 1)) by {
                assert forall|k: int| 0 <= k < n implies m2.pool[k] == swept(
                    base.pool,
                    idle + 1,
                )[k] by {
                    if from <= k < idle {
                        assert(m.pool[k] == base.pool[k]);
                    }
                }
            }
            assert(base.pool[idle].is_idle());
            lemma_acquire_rest(base, idle + 1, ticket, now, clock(slot), alive, clock);
            assert(next == acquire_from(m2, idle + 1, ticket, clock(slot)));
        }
    } else {
        assert forall|k: int| 0 <= k < n implies !((#[trigger] base.pool[k]).is_idle()
            && alive(k as usize)) by {
            if k >= from {
                assert(m.pool[k] == base.pool[k]);
            }
        }
        lemma_first_live_skips(base.pool, alive, 0, n);
        assert forall|k: int| 0 <= k < n implies !(#[trigger] m.pool[k]).is_idle() by {
            if k >= from {
                assert(m.pool[k] == base.pool[k]);
            }
        }
        lemma_free_is_vacant(m.pool, base.pool, 0);
        assert(m.pool =~= swept(base.pool, n)) by {
            assert forall|k: int| 0 <= k < n implies m.pool[k] == swept(base.pool, n)[k] by {
                if k >= from {
                    assert(m.pool[k] == base.pool[k]);
                    assert(!m.pool[k].is_idle());
                }
            }
        }
        assert(acquire_run(first.0, ticket, first.1, alive, clock) == first);
        if first_free(base.pool, 0) >= n {
            assert forall|k: int| 0 <= k < n implies m.pool[k] == base.pool[k] by {
                assert(base.pool[k].leased);
            }
            assert(m.pool =~= base.pool);
            assert(at == now) by {
                if at != now {
                    let k = choose|k: int|
                        0 <= k < from && (#[trigger] base.pool[k]).is_idle();
                    assert(base.pool[k].leased);
                }
            }
        }
    }
}

/// A request gets the first idle worker that is still running. Where none is,
/// a worker is started for the first slot that no request has. Where requests
/// have all slots, the request waits, and gives up at its deadline.
pub proof fn law_acquire_choice<P>(
    m: WorkerModel<P>,
    ticket: Ticket,
    now: u128,
    alive: spec_fn(usize) -> bool,
    clock: spec_fn(usize) -> u128,
)
    requires
        m.wf(),
    ensures
        ({
            let first = acquire_step(m, ticket, AcquireEvent::Start, now);
            acquire_run(first.0, ticket, first.1, alive, clock) == acquire_outcome(
                m.opened(),
                ticket,
                now,
                alive,
                clock,
            )
        }),
{
    let base = m.opened();
    assert(swept(base.pool, 0) =~= base.pool);
    lemma_acquire_rest(base, 0, ticket, now, now, alive, clock);
}

/// A request is made to wait, or given up, only while requests have all slots:
/// a worker that comes back, and one that is discarded, makes room.
pub proof fn law_busy_only_when_all_leased<P>(
    m: WorkerModel<P>,
    ticket: Ticket,
    now: u128,
    alive: spec_fn(usize) -> bool,
    clock: spec_fn(usize) -> u128,
)
    requires
        m.wf(),
    ensures
        ({
            let step = acquire_outcome(m.opened(), ticket, now, alive, clock).1;
            (step is Sleep || step is Failed) <==> forall|k: int|
                0 <= k < m.opened().pool.len() ==> (#[trigger] m.opened().pool[k]).leased
        }),
{
    let pool = m.opened().pool;
    lemma_first_live(pool, alive, 0);
    lemma_first_free(pool, 0);
}

/// A request never gets a worker that another request has: it is leased from a
/// slot that was not leased, or started for one, and whatever the outcome, the
/// slots of other requests stay as they are.
pub proof fn law_acquire_exclusive<P>(
    m: WorkerModel<P>,
    ticket: Ticket,
    now: u128,
    alive: spec_fn(usize) -> bool,
    clock: spec_fn(usize) -> u128,
    k: int,
)
    requires
        m.wf(),
        0 <= k < m.pool.len(),
        m.pool[k].leased,
    ensures
        ({
            let outcome = acquire_outcome(m.opened(), ticket, now, alive, clock);
            &&& outcome.0.pool[k] == m.pool[k]
            &&& outcome.1 matches AcquireStepModel::Leased(lease) ==> lease.slot_idx != k
            &&& outcome.1 matches AcquireStepModel::Spawn { slot } ==> slot != k
        }),
{
    lemma_first_live(m.pool, alive, 0);
    lemma_first_free(m.pool, 0);
}

/// A slot that a request has stays as it is while other leases end and while
/// idle workers are restarted.
pub proof fn law_lease_undisturbed<P>(
    m: WorkerModel<P>,
    lease: Lease<P>,
    alive: bool,
    poison: Poison,
    k: int,
)
    requires
        m.wf(),
        0 <= k < m.pool.len(),
        m.pool[k].leased,
        lease.slot_idx != k,
    ensures
        release_step(m, lease, alive, poison).0.pool[k] == m.pool[k],
        restart_step(m, poison).0.pool[k] == m.pool[k],
{
    lemma_next_idle(m.pool, 0);
}

/// What a worker was before it was checked out, it is again once it comes back
/// healthy: the lease leaves no trace in the pool.
pub proof fn law_release_undoes_lease<P>(
    m: WorkerModel<P>,
    i: usize,
    ticket: Ticket,
    now: u128,
    poison: Poison,
)
    requires
        m.wf(),
        !poison.pool,
        i < m.pool.len(),
        m.pool[i as int].is_idle(),
        m.pool[i as int].tidy(),
    ensures
        ({
            let slot = m.pool[i as int];
            let out = acquire_lease(
                m.with_slot(i as int, slot.emptied()),
                i,
                slot.proc->0,
                slot.pid,
                ticket,
                now,
            );
            &&& out.1 matches AcquireStepModel::Leased(lease)
            &&& release_step(out.0, lease, true, poison) == (m, None::<ReapModel<P>>)
        }),
{
    let slot = m.pool[i as int];
    let out = acquire_lease(
        m.with_slot(i as int, slot.emptied()),
        i,
        slot.proc->0,
        slot.pid,
        ticket,
        now,
    );
    let lease = out.1->Leased_0;
    let back = release_step(out.0, lease, true, poison).0;
    assert(back.pool =~= m.pool);
}

/// A worker that is discarded, or that died, is reaped and leaves its slot
/// vacant, so that the next request that comes to the slot has a fresh worker
/// started. Only a discarded one counts as a restart.
pub proof fn law_discard_vacates<P>(
    m: WorkerModel<P>,
    lease: Lease<P>,
    alive: bool,
    poison: Poison,
)
    requires
        m.wf(),
        !poison.pool,
        lease.slot_idx < m.pool.len(),
        m.pool[lease.slot_idx as int].leased,
        m.pool[lease.slot_idx as int].tidy(),
        lease.proc is Some,
        lease.discard || !alive,
    ensures
        ({
            let (after, reap) = release_step(m, lease, alive, poison);
            &&& after.pool[lease.slot_idx as int] == WorkerSlot::<P>::untouched()
            &&& reap == Some(
                ReapModel { proc: lease.proc->0, reason: "discarded worker"@ },
            )
            &&& after.restart_count == if lease.discard {
                wrap_inc(m.restart_count)
            } else {
                m.restart_count
            }
        }),
{
}

/// The slots are as they should be again after every call for a worker,
/// whether it is reused, started, refused or waited for.
pub proof fn law_acquire_keeps_tidy<P>(
    m: WorkerModel<P>,
    ticket: Ticket,
    now: u128,
    alive: spec_fn(usize) -> bool,
    clock: spec_fn(usize) -> u128,
)
    requires
        m.wf(),
        m.tidy(),
    ensures
        acquire_outcome(m.opened(), ticket, now, alive, clock).0.wf(),
        acquire_outcome(m.opened(), ticket, now, alive, clock).0.tidy(),
{
    let base = m.opened();
    let out = acquire_outcome(base, ticket, now, alive, clock).0;
    lemma_first_live(base.pool, alive, 0);
    assert forall|k: int| 0 <= k < out.pool.len() implies (#[trigger] out.pool[k]).tidy() by {
        assert(base.pool[k].tidy());
    }
}

/// Checking a fresh worker out for a vacant slot leaves the slots as they
/// should be.
pub proof fn law_spawned_keeps_tidy<P>(
    m: WorkerModel<P>,
    slot: usize,
    proc: P,
    pid: u32,
    ticket: Ticket,
    now: u128,
)
    requires
        m.wf(),
        m.tidy(),
        slot < m.pool.len(),
        m.pool[slot as int].is_vacant(),
    ensures
        acquire_lease(m, slot, proc, pid, ticket, now).0.tidy(),
{
}

/// The end of a lease leaves the slots as they should be, whatever became of
/// the worker, whose process has an id.
pub proof fn law_release_keeps_tidy<P>(
    m: WorkerModel<P>,
    lease: Lease<P>,
    alive: bool,
    poison: Poison,
)
    requires
        m.wf(),
        m.tidy(),
        lease.slot_idx < m.pool.len() ==> m.pool[lease.slot_idx as int].leased,
        lease.pid != 0,
    ensures
        release_step(m, lease, alive, poison).0.tidy(),
{
}

/// To restart an idle worker leaves the slots as they should be.
pub proof fn law_restart_keeps_tidy<P>(m: WorkerModel<P>, poison: Poison)
    requires
        m.wf(),
        m.tidy(),
    ensures
        restart_step(m, poison).0.tidy(),
{
    lemma_next_idle(m.pool, 0);
}

/// To take in the first worker, for a slot that is vacant, leaves the slots as
/// they should be: its process has an id.
pub proof fn law_started_keeps_tidy<P>(m: WorkerModel<P>, proc: P, pid: u32)
    requires
        m.wf(),
        m.tidy(),
        m.pool.len() > 0,
        m.pool[0].is_vacant(),
        pid != 0,
    ensures
        m.with_first(proc, pid).tidy(),
{
}

/// The books once the first worker has been seen to: `started` is the process
/// that is started where one is asked for, if that works.
pub open spec fn first_seen_to<P>(m: WorkerModel<P>, started: Option<(P, u32)>) -> WorkerModel<P> {
    match started {
        Some((proc, pid)) if m.opened().pool[0].is_vacant() => m.opened().with_first(proc, pid),
        _ => m.opened(),
    }
}

/// Once the first worker has been seen to, and no request has its slot, the
/// pool has all its slots, the first of them has a process and its id, and that
/// id is the one that is shown first. The process is the one that was there, and
/// then nothing has changed, or else a new one; all other slots are as before.
/// To see to it again changes nothing.
pub proof fn law_first_worker_started<P>(m: WorkerModel<P>, proc: P, pid: u32, now: u128)
    requires
        m.wf(),
        m.tidy(),
        m.pool.len() > 0 ==> !m.pool[0].leased,
        pid != 0,
    ensures
        ({
            let after = first_seen_to(m, Some((proc, pid)));
            let shown = snapshot_of(after, Poison { pool: false, state: false }, now);
            &&& after.wf()
            &&& after.tidy()
            &&& after.pool.len() == after.pool_size == m.pool_size
            &&& after.pool[0].is_idle()
            &&& after.pool[0].pid != 0
            &&& m.pool.len() > 0 && m.pool[0].proc is Some ==> after == m
            &&& m.pool.len() == 0 || m.pool[0].proc is None ==> after.pool[0].proc == Some(proc)
                && after.pool[0].pid == pid
            &&& forall|k: int|
                1 <= k < after.pool.len() ==> #[trigger] after.pool[k] == if m.pool.len() == 0 {
                    WorkerSlot::untouched()
                } else {
                    m.pool[k]
                }
            &&& shown.pids.len() > 0
            &&& shown.pids[0] == after.pool[0].pid
            &&& shown.pid == after.pool[0].pid
            &&& shown.workers_running >= 1
            &&& forall|again: Option<(P, u32)>|
                #[trigger] first_seen_to(after, again) == after
        }),
{
    let after = first_seen_to(m, Some((proc, pid)));
    let opened = m.opened();
    assert(opened.tidy());
    if opened.pool[0].is_vacant() {
        law_started_keeps_tidy(opened, proc, pid);
    }
    assert(after.pool[0].tidy());
    lemma_filter_first(after.pool, |s: WorkerSlot<P>| s.pid != 0);
    lemma_filter_first(after.pool, |s: WorkerSlot<P>| s.proc is Some);
}

/// A first worker that could not be started leaves no trace but the slots: a
/// new supervisor shows no process, no request and no failure.
pub proof fn law_failed_start_leaves_no_trace<P>(m: WorkerModel<P>, poison: Poison, now: u128)
    requires
        m.wf(),
        m.pool.len() == 0,
    ensures
        ({
            let after = first_seen_to(m, None);
            let shown = snapshot_of(after, poison, now);
            &&& after == (WorkerModel { pool: after.pool, ..m })
            &&& after.pool.len() == m.pool_size
            &&& forall|k: int|
                0 <= k < after.pool.len() ==> #[trigger] after.pool[k]
                    == WorkerSlot::<P>::untouched()
            &&& shown == snapshot_of(m, poison, now)
            &&& shown.pids == Seq::<u32>::empty()
            &&& shown.pid == 0
            &&& shown.workers_running == 0
            &&& shown.active_requests == 0
            &&& shown.current_request is None
        }),
{
    let none = Seq::<WorkerSlot<P>>::empty();
    assert(m.pool =~= none);
    lemma_shows_nothing(none);
    lemma_shows_nothing(first_seen_to(m, None).pool);
}

/// Slots that were never touched show nothing.
proof fn lemma_shows_nothing<P>(pool: Seq<WorkerSlot<P>>)
    requires
        forall|k: int| 0 <= k < pool.len() ==> #[trigger] pool[k] == WorkerSlot::<P>::untouched(),
    ensures
        known_pids(pool) == Seq::<u32>::empty(),
        running_count(pool) == 0,
        leased_count(pool) == 0,
        first_current(pool) is None,
    decreases pool.len(),
{
    lemma_filter_none(pool, |s: WorkerSlot<P>| s.pid != 0);
    lemma_filter_none(pool, |s: WorkerSlot<P>| s.proc is Some);
    lemma_filter_none(pool, |s: WorkerSlot<P>| s.leased);
    if pool.len() > 0 {
        assert(!pool[0].leased);
        lemma_shows_nothing(pool.drop_first());
    }
}

/// Each idle worker is among the processes that are shown.
pub proof fn law_idle_workers_shown<P>(m: WorkerModel<P>, k: int, state: bool, now: u128)
    requires
        m.tidy(),
        0 <= k < m.pool.len(),
        m.pool[k].is_idle(),
    ensures
        m.pool[k].pid != 0,
        snapshot_of(m, Poison { pool: false, state }, now).pids.contains(m.pool[k].pid),
{
    let known = m.pool.filter(|s: WorkerSlot<P>| s.pid != 0);
    assert(m.pool[k].tidy());
    m.pool.lemma_filter_contains(|s: WorkerSlot<P>| s.pid != 0, k);
    let i = choose|i: int| 0 <= i < known.len() && known[i] == m.pool[k];
    assert(known_pids(m.pool)[i] == m.pool[k].pid);
}

/// What passes a test and is first is first among what passes.
proof fn lemma_filter_first<A>(s: Seq<A>, test: spec_fn(A) -> bool)
    requires
        s.len() > 0,
        test(s[0]),
    ensures
        s.filter(test).len() > 0,
        s.filter(test)[0] == s[0],
    decreases s.len(),
{
    reveal(Seq::filter);
    if s.len() > 1 {
        lemma_filter_first(s.drop_last(), test);
    } else {
        assert(s.drop_last() =~= Seq::empty());
        assert(s.drop_last().filter(test) =~= Seq::empty());
    }
}

/// Where nothing passes a test, nothing is left.
proof fn lemma_filter_none<A>(s: Seq<A>, test: spec_fn(A) -> bool)
    requires
        forall|i: int| 0 <= i < s.len() ==> !test(#[trigger] s[i]),
    ensures
        s.filter(test) == Seq::<A>::empty(),
    decreases s.len(),
{
    reveal(Seq::filter);
    if s.len() > 0 {
        assert forall|i: int| 0 <= i < s.drop_last().len() implies !test(
            #[trigger] s.drop_last()[i],
        ) by {
            assert(!test(s[i]));
        }
        assert(!test(s[s.len() - 1]));
        lemma_filter_none(s.drop_last(), test);
    }
}

/// A request whose worker comes too late: time spent on waiting for a worker is
/// not given back. Asked at `asked`, it has run out of its time at `now`, so
/// nothing is written to the worker, the exchange fails for want of time, and
/// that is counted and noted.
pub proof fn law_waiting_is_not_given_back<P>(
    m: WorkerModel<P>,
    proto: Protocol,
    opcode: u16,
    payload: Seq<u8>,
    bits: PollBits,
    asked: u128,
    now: u128,
    poison: Poison,
)
    requires
        m.deadline_at(asked) <= u128::MAX,
        payload.len() <= u32::MAX,
        now >= asked + m.request_timeout * 1_000_000_000,
    ensures
        ({
            let call = new_call(m, proto, opcode, payload, asked);
            let first = talk_first(proto, call);
            let look = TalkEvent::Wait(WaitEvent::Start);
            let books = exchange_failed(m.asked(), wait_timed_out(), poison);
            &&& talk_asks(first, look)
            &&& talk_next(first, bits, look, now).phase == PhaseModel::Over(
                ExchangeModel::WriteFailed(wait_timed_out()),
            )
            &&& books.timeout_count == wrap_inc(m.timeout_count)
            &&& !poison.state ==> books.last_error == Some(wait_timed_out().message)
            &&& wait_timed_out().message == "worker ipc response timed out"@
        }),
{
}

/// Two looks at a supervisor with nothing between them show the same, but for
/// how long the current request has taken.
pub proof fn law_snapshot_stable<P>(m: WorkerModel<P>, poison: Poison, now: u128, later: u128)
    ensures
        ({
            let a = snapshot_of(m, poison, now);
            let b = snapshot_of(m, poison, later);
            &&& b == (SnapshotModel { current_request: b.current_request, ..a })
            &&& a.current_request is Some == b.current_request is Some
            &&& a.current_request matches Some(c) ==> b.current_request == Some(
                CurrentSnapshot {
                    elapsed_ms: b.current_request->0.elapsed_ms,
                    ..c
                },
            )
            &&& a.current_request is Some && now <= later ==> a.current_request->0.elapsed_ms
                <= b.current_request->0.elapsed_ms
        }),
{
}

/// A poisoned lock hides what it guards, and nothing else: that of the pool the
/// processes and the requests, that of what was last said both texts.
pub proof fn law_snapshot_poisoned<P>(m: WorkerModel<P>, poison: Poison, now: u128)
    ensures
        ({
            let shown = snapshot_of(m, poison, now);
            let whole = snapshot_of(m, Poison { pool: false, state: false }, now);
            &&& shown == (SnapshotModel {
                pids: shown.pids,
                pid: shown.pid,
                workers_running: shown.workers_running,
                active_requests: shown.active_requests,
                current_request: shown.current_request,
                last_error: shown.last_error,
                last_restart_reason: shown.last_restart_reason,
                ..whole
            })
            &&& poison.pool ==> {
                &&& shown.pids == Seq::<u32>::empty()
                &&& shown.pid == 0
                &&& shown.workers_running == 0
                &&& shown.active_requests == 0
                &&& shown.current_request is None
            }
            &&& poison.state ==> shown.last_error is None && shown.last_restart_reason is None
            &&& !poison.pool ==> {
                &&& shown.pids == whole.pids
                &&& shown.pid == whole.pid
                &&& shown.workers_running == whole.workers_running
                &&& shown.active_requests == whole.active_requests
                &&& shown.current_request == whole.current_request
            }
            &&& !poison.state ==> {
                &&& shown.last_error == whole.last_error
                &&& shown.last_restart_reason == whole.last_restart_reason
            }
        }),
{
    reveal(Seq::filter);
    if poison.pool {
        assert(known_pids(Seq::<WorkerSlot<P>>::empty()) =~= Seq::<u32>::empty());
    }
}

/// Nothing is noted under a poisoned lock: neither a failed exchange, nor the
/// end of a lease, nor a restart changes what was last said. What is counted is
/// counted all the same.
pub proof fn law_poisoned_notes_nothing<P>(
    m: WorkerModel<P>,
    e: IoFailureModel,
    lease: Lease<P>,
    alive: bool,
    pool: bool,
)
    ensures
        ({
            let poison = Poison { pool, state: true };
            let sound = Poison { pool, state: false };
            let failed = exchange_failed(m, e, poison);
            let released = release_step(m, lease, alive, poison).0;
            let restarted = restart_step(m, poison).0;
            &&& failed.last_error == m.last_error
            &&& failed.last_restart_reason == m.last_restart_reason
            &&& failed.timeout_count == exchange_failed(m, e, sound).timeout_count
            &&& released.last_error == m.last_error
            &&& released.last_restart_reason == m.last_restart_reason
            &&& released.restart_count == release_step(m, lease, alive, sound).0.restart_count
            &&& released.pool == release_step(m, lease, alive, sound).0.pool
            &&& restarted.last_error == m.last_error
            &&& restarted.last_restart_reason == m.last_restart_reason
            &&& restarted.restart_count == restart_step(m, sound).0.restart_count
            &&& restarted.pool == restart_step(m, sound).0.pool
        }),
{
}

/// Workers in the pool and workers out of it are never more than the pool has
/// slots.
pub proof fn law_workers_within_pool<P>(m: WorkerModel<P>)
    requires
        m.wf(),
        m.tidy(),
    ensures
        running_count(m.pool) + leased_count(m.pool) <= m.pool_size,
{
    lemma_counts(m.pool);
}

proof fn lemma_counts<P>(pool: Seq<WorkerSlot<P>>)
    requires
        forall|k: int| 0 <= k < pool.len() ==> (#[trigger] pool[k]).tidy(),
    ensures
        running_count(pool) + leased_count(pool) <= pool.len(),
    decreases pool.len(),
{
    reveal(Seq::filter);
    if pool.len() > 0 {
        assert forall|k: int| 0 <= k < pool.drop_last().len() implies (
        #[trigger] pool.drop_last()[k]).tidy() by {
            assert(pool[k].tidy());
        }
        assert(pool[pool.len() - 1].tidy());
        lemma_counts(pool.drop_last());
    }
}

} // verus!
