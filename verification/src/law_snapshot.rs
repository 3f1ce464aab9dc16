//! What holds of the state that is shown: each figure is counted in the slots.

use vstd::prelude::*;

use crate::json::Json;
use crate::law_pool::law_request_gets_first_running;
use crate::laws::acquire_run;
use crate::slots::{first_current, known_pids, WorkerSlot};
use crate::worker::{
    acquire_step, release_step, snapshot_of, AcquireEvent, Lease, Poison, SnapshotModel, Ticket,
    WorkerModel,
};

verus! {

/// Where in `s` there is something that passes `test`.
pub open spec fn places<A>(s: Seq<A>, test: spec_fn(A) -> bool) -> Set<int> {
    Set::new(|k: int| 0 <= k < s.len() && test(s[k]))
}

/// As much is left of a sequence as passes.
proof fn lemma_filter_places<A>(s: Seq<A>, test: spec_fn(A) -> bool)
    ensures
        places(s, test).finite(),
        s.filter(test).len() == places(s, test).len(),
    decreases s.len(),
{
    reveal(Seq::filter);
    if s.len() == 0 {
        assert(places(s, test) =~= Set::empty());
    } else {
        let init = s.drop_last();
        lemma_filter_places(init, test);
        if test(s.last()) {
            assert(places(s, test) =~= places(init, test).insert(s.len() - 1));
        } else {
            assert(places(s, test) =~= places(init, test));
        }
    }
}

/// What passes is left in its order: before it there is as much as passes before
/// it.
proof fn lemma_filter_order<A>(s: Seq<A>, test: spec_fn(A) -> bool, k: int)
    requires
        0 <= k < s.len(),
        test(s[k]),
    ensures
        places(s.take(k), test).len() < s.filter(test).len(),
        s.filter(test)[places(s.take(k), test).len() as int] == s[k],
    decreases s.len(),
{
    reveal(Seq::filter);
    let init = s.drop_last();
    lemma_filter_places(init, test);
    if k == s.len() - 1 {
        assert(s.take(k) =~= init);
    } else {
        assert(init.take(k) =~= s.take(k));
        lemma_filter_order(init, test, k);
    }
}

/// To change one place changes the count by that place.
proof fn lemma_places_update<A>(s: Seq<A>, test: spec_fn(A) -> bool, k: int, x: A)
    requires
        0 <= k < s.len(),
    ensures
        places(s.update(k, x), test).len() == places(s, test).len() - (if test(s[k]) {
            1int
        } else {
            0
        }) + (if test(x) {
            1int
        } else {
            0
        }),
{
    let before = places(s, test);
    let after = places(s.update(k, x), test);
    lemma_filter_places(s, test);
    lemma_filter_places(s.update(k, x), test);
    assert(after.remove(k) =~= before.remove(k));
    assert(before.contains(k) == test(s[k]));
    assert(after.contains(k) == test(x));
    assert(before.remove(k).len() == after.remove(k).len());
}

/// The workers shown as running are as many as there are slots with a process,
/// and the requests shown as active as many as there are slots that a request
/// has.
pub proof fn law_counts_shown<P>(m: WorkerModel<P>, state: bool, now: u128)
    ensures
        ({
            let shown = snapshot_of(m, Poison { pool: false, state }, now);
            &&& shown.workers_running == Set::new(
                |k: int| 0 <= k < m.pool.len() && m.pool[k].proc is Some,
            ).len()
            &&& shown.active_requests == Set::new(
                |k: int| 0 <= k < m.pool.len() && m.pool[k].leased,
            ).len()
        }),
{
    let with_proc = |s: WorkerSlot<P>| s.proc is Some;
    let leased = |s: WorkerSlot<P>| s.leased;
    lemma_filter_places(m.pool, with_proc);
    lemma_filter_places(m.pool, leased);
    assert(places(m.pool, with_proc) =~= Set::new(
        |k: int| 0 <= k < m.pool.len() && m.pool[k].proc is Some,
    ));
    assert(places(m.pool, leased) =~= Set::new(|k: int| 0 <= k < m.pool.len() && m.pool[k].leased));
}

/// The process ids shown are those of the slots that have one, each once and in
/// the order of the slots; the one shown by itself is the first of them, or zero
/// where there is none.
pub proof fn law_pids_shown<P>(m: WorkerModel<P>, state: bool, now: u128)
    ensures
        ({
            let shown = snapshot_of(m, Poison { pool: false, state }, now);
            &&& shown.pids.len() == Set::new(
                |k: int| 0 <= k < m.pool.len() && m.pool[k].pid != 0,
            ).len()
            &&& forall|k: int|
                0 <= k < m.pool.len() && (#[trigger] m.pool[k]).pid != 0 ==> {
                    let before = Set::new(|j: int| 0 <= j < k && m.pool[j].pid != 0).len();
                    before < shown.pids.len() && shown.pids[before as int] == m.pool[k].pid
                }
            &&& shown.pids.len() > 0 ==> shown.pid == shown.pids[0]
            &&& shown.pids.len() == 0 ==> shown.pid == 0
        }),
{
    let known = |s: WorkerSlot<P>| s.pid != 0;
    lemma_filter_places(m.pool, known);
    assert(places(m.pool, known) =~= Set::new(
        |k: int| 0 <= k < m.pool.len() && m.pool[k].pid != 0,
    ));
    assert forall|k: int| 0 <= k < m.pool.len() && (#[trigger] m.pool[k]).pid != 0 implies {
        let before = Set::new(|j: int| 0 <= j < k && m.pool[j].pid != 0).len();
        before < known_pids(m.pool).len() && known_pids(m.pool)[before as int] == m.pool[k].pid
    } by {
        lemma_filter_order(m.pool, known, k);
        assert(places(m.pool.take(k), known) =~= Set::new(
            |j: int| 0 <= j < k && m.pool[j].pid != 0,
        ));
    }
}

proof fn lemma_first_current<P>(pool: Seq<WorkerSlot<P>>, k: int)
    requires
        0 <= k <= pool.len(),
        forall|j: int| 0 <= j < k ==> !(#[trigger] pool[j]).leased,
        k < pool.len() ==> pool[k].leased,
    ensures
        k < pool.len() ==> first_current(pool) == pool[k].current,
        k == pool.len() ==> first_current(pool) is None,
    decreases k,
{
    if k > 0 {
        let rest = pool.drop_first();
        assert(!pool[0].leased);
        assert forall|j: int| 0 <= j < k - 1 implies !(#[trigger] rest[j]).leased by {
            assert(!pool[j + 1].leased);
        }
        lemma_first_current(rest, k - 1);
    }
}

/// The current request shown is that of the first slot that a request has, with
/// the whole milliseconds that have passed since it got its worker.
pub proof fn law_current_shown<P>(m: WorkerModel<P>, state: bool, now: u128, k: int)
    requires
        0 <= k < m.pool.len(),
        m.pool[k].leased,
        forall|j: int| 0 <= j < k ==> !(#[trigger] m.pool[j]).leased,
    ensures
        ({
            let shown = snapshot_of(m, Poison { pool: false, state }, now).current_request;
            &&& m.pool[k].current is None ==> shown is None
            &&& m.pool[k].current matches Some(c) ==> {
                &&& shown matches Some(s)
                &&& s.id == c.id
                &&& s.opcode == c.opcode
                &&& now < c.started ==> s.elapsed_ms == 0
                &&& now >= c.started ==> s.elapsed_ms * 1_000_000 <= now - c.started < (s.elapsed_ms
                    + 1) * 1_000_000
            }
        }),
{
    lemma_first_current(m.pool, k);
}

/// No current request is shown where no request has a worker.
pub proof fn law_no_current_shown<P>(m: WorkerModel<P>, state: bool, now: u128)
    requires
        forall|j: int| 0 <= j < m.pool.len() ==> !(#[trigger] m.pool[j]).leased,
    ensures
        snapshot_of(m, Poison { pool: false, state }, now).current_request is None,
{
    lemma_first_current(m.pool, m.pool.len() as int);
}

/// The settings and the counters are shown as they are, whatever the locks; so
/// are the last error and the last restart where their lock is sound.
pub proof fn law_books_shown<P>(m: WorkerModel<P>, poison: Poison, now: u128)
    ensures
        ({
            let shown = snapshot_of(m, poison, now);
            &&& shown.pool_size == m.pool_size
            &&& shown.request_timeout_secs == m.request_timeout
            &&& shown.restart_count == m.restart_count
            &&& shown.timeout_count == m.timeout_count
            &&& shown.waiting_count == m.waiting_count
            &&& !poison.state ==> shown.last_error == m.last_error
            &&& !poison.state ==> shown.last_restart_reason == m.last_restart_reason
            &&& poison.state ==> shown.last_error is None && shown.last_restart_reason is None
        }),
{
}

/// A healthy worker that comes back is one more that runs, and its request is
/// one less that is active.
pub proof fn law_return_is_shown<P>(
    m: WorkerModel<P>,
    lease: Lease<P>,
    poison: Poison,
    now: u128,
)
    requires
        !poison.pool,
        lease.slot_idx < m.pool.len(),
        m.pool[lease.slot_idx as int].leased,
        m.pool[lease.slot_idx as int].proc is None,
        lease.proc is Some,
        !lease.discard,
    ensures
        ({
            let before = snapshot_of(m, poison, now);
            let after = snapshot_of(release_step(m, lease, true, poison).0, poison, now);
            &&& after.workers_running == before.workers_running + 1
            &&& after.active_requests + 1 == before.active_requests
        }),
{
    let with_proc = |s: WorkerSlot<P>| s.proc is Some;
    let leased = |s: WorkerSlot<P>| s.leased;
    let k = lease.slot_idx as int;
    let after = release_step(m, lease, true, poison).0;
    assert(after.pool == m.pool.update(k, after.pool[k]));
    lemma_places_update(m.pool, with_proc, k, after.pool[k]);
    lemma_places_update(m.pool, leased, k, after.pool[k]);
    lemma_filter_places(m.pool, with_proc);
    lemma_filter_places(m.pool, leased);
    lemma_filter_places(after.pool, with_proc);
    lemma_filter_places(after.pool, leased);
}

/// A worker that is checked out is one less that is in the pool, and its request
/// is one more that is active; where it is the first of those in the pool, and
/// still running, no other worker is touched.
pub proof fn law_checkout_is_shown<P>(
    m: WorkerModel<P>,
    ticket: Ticket,
    at: u128,
    alive: spec_fn(usize) -> bool,
    clock: spec_fn(usize) -> u128,
    k: int,
    state: bool,
    now: u128,
)
    requires
        m.wf(),
        0 <= k < m.pool.len(),
        !m.pool[k].leased,
        m.pool[k].proc is Some,
        alive(k as usize),
        forall|j: int| 0 <= j < k ==> (#[trigger] m.pool[j]).leased || m.pool[j].proc is None,
    ensures
        ({
            let first = acquire_step(m, ticket, AcquireEvent::Start, at);
            let worker = acquire_run(first.0, ticket, first.1, alive, clock).0;
            let before = snapshot_of(m, Poison { pool: false, state }, now);
            let after = snapshot_of(worker, Poison { pool: false, state }, now);
            &&& after.workers_running + 1 == before.workers_running
            &&& after.active_requests == before.active_requests + 1
            &&& after.pids == before.pids
        }),
{
    law_request_gets_first_running(m, ticket, at, alive, clock, k);
    let first = acquire_step(m, ticket, AcquireEvent::Start, at);
    let pool = acquire_run(first.0, ticket, first.1, alive, clock).0.pool;
    assert(pool =~= m.pool.update(k, pool[k])) by {
        assert forall|j: int| 0 <= j < pool.len() && j != k implies pool[j] == m.pool[j] by {
            assert(j > k || m.pool[j].leased || m.pool[j].proc is None);
        }
    }
    let with_proc = |s: WorkerSlot<P>| s.proc is Some;
    let leased = |s: WorkerSlot<P>| s.leased;
    lemma_places_update(m.pool, with_proc, k, pool[k]);
    lemma_places_update(m.pool, leased, k, pool[k]);
    lemma_filter_places(m.pool, with_proc);
    lemma_filter_places(m.pool, leased);
    lemma_filter_places(pool, with_proc);
    lemma_filter_places(pool, leased);
    lemma_same_pids(m.pool, pool);
}

proof fn lemma_same_pids<P>(a: Seq<WorkerSlot<P>>, b: Seq<WorkerSlot<P>>)
    requires
        a.len() == b.len(),
        forall|k: int| 0 <= k < a.len() ==> (#[trigger] a[k]).pid == b[k].pid,
    ensures
        known_pids(a) == known_pids(b),
    decreases a.len(),
{
    reveal(Seq::filter);
    if a.len() > 0 {
        assert(a[a.len() - 1].pid == b[b.len() - 1].pid);
        assert forall|k: int| 0 <= k < a.drop_last().len() implies (#[trigger] a.drop_last()[k]).pid
            == b.drop_last()[k].pid by {
            assert(a[k].pid == b[k].pid);
        }
        lemma_same_pids(a.drop_last(), b.drop_last());
        lemma_pids_step(a);
        lemma_pids_step(b);
    } else {
        assert(known_pids(a) =~= known_pids(b));
    }
}

proof fn lemma_pids_step<P>(pool: Seq<WorkerSlot<P>>)
    requires
        pool.len() > 0,
    ensures
        known_pids(pool) == if pool.last().pid != 0 {
            known_pids(pool.drop_last()).push(pool.last().pid)
        } else {
            known_pids(pool.drop_last())
        },
{
    reveal(Seq::filter);
    assert(known_pids(pool) =~= if pool.last().pid != 0 {
        known_pids(pool.drop_last()).push(pool.last().pid)
    } else {
        known_pids(pool.drop_last())
    });
}

/// As JSON, what is shown is an object with a member for each figure, under its
/// name, and no other. There is JSON for it unless the current request has taken
/// more milliseconds than fit in 64 bits.
pub proof fn law_snapshot_json(s: SnapshotModel, i: int, key: Seq<char>)
    ensures
        s.has_json() <==> s.current_request is None || s.current_request->0.elapsed_ms
            <= 0xffff_ffff_ffff_ffff,
        s.json().member("pid"@) == Some(Json::Unsigned(s.pid as u64)),
        s.json().member("pool_size"@) == Some(Json::Unsigned(s.pool_size as u64)),
        s.json().member("workers_running"@) == Some(Json::Unsigned(s.workers_running as u64)),
        s.json().member("active_requests"@) == Some(Json::Unsigned(s.active_requests as u64)),
        s.json().member("request_timeout_secs"@) == Some(Json::Unsigned(s.request_timeout_secs)),
        s.json().member("restart_count"@) == Some(Json::Unsigned(s.restart_count as u64)),
        s.json().member("timeout_count"@) == Some(Json::Unsigned(s.timeout_count as u64)),
        s.json().member("waiting_count"@) == Some(Json::Unsigned(s.waiting_count as u64)),
        s.json().member("pids"@) matches Some(Json::Array(pids)) && pids.len() == s.pids.len() && (
        0 <= i < s.pids.len() ==> pids[i] == Json::Unsigned(s.pids[i] as u64)),
        s.last_error is None ==> s.json().member("last_error"@) == Some(Json::Null),
        s.last_error matches Some(text) ==> s.json().member("last_error"@) == Some(
            Json::Text(text),
        ),
        s.last_restart_reason is None ==> s.json().member("last_restart_reason"@) == Some(
            Json::Null,
        ),
        s.last_restart_reason matches Some(text) ==> s.json().member("last_restart_reason"@)
            == Some(Json::Text(text)),
        s.current_request is None ==> s.json().member("current_request"@) == Some(Json::Null),
        s.current_request matches Some(c) ==> {
            &&& s.json().member("current_request"@) matches Some(current)
            &&& current.member("id"@) == Some(Json::Unsigned(c.id as u64))
            &&& current.member("opcode"@) == Some(Json::Unsigned(c.opcode as u64))
            &&& current.member("elapsed_ms"@) == Some(Json::Unsigned(c.elapsed_ms as u64))
        },
        s.json().member(key) is Some ==> {
            ||| key == "pids"@
            ||| key == "pid"@
            ||| key == "pool_size"@
            ||| key == "workers_running"@
            ||| key == "active_requests"@
            ||| key == "request_timeout_secs"@
            ||| key == "restart_count"@
            ||| key == "timeout_count"@
            ||| key == "waiting_count"@
            ||| key == "current_request"@
            ||| key == "last_error"@
            ||| key == "last_restart_reason"@
        },
{
    lemma_names();
}

/// The names of the figures are different from each other.
proof fn lemma_names()
    ensures
        "pids"@.len() == 4,
        "pid"@.len() == 3,
        "pool_size"@.len() == 9,
        "workers_running"@.len() == 15,
        "active_requests"@.len() == 15,
        "request_timeout_secs"@.len() == 20,
        "restart_count"@.len() == 13,
        "timeout_count"@.len() == 13,
        "waiting_count"@.len() == 13,
        "current_request"@.len() == 15,
        "last_error"@.len() == 10,
        "last_restart_reason"@.len() == 19,
        "id"@.len() == 2,
        "opcode"@.len() == 6,
        "elapsed_ms"@.len() == 10,
        "workers_running"@[0] == 'w',
        "active_requests"@[0] == 'a',
        "restart_count"@[0] == 'r',
        "timeout_count"@[0] == 't',
        "waiting_count"@[0] == 'w',
        "current_request"@[0] == 'c',
{
    reveal_strlit("pids");
    reveal_strlit("pid");
    reveal_strlit("pool_size");
    reveal_strlit("workers_running");
    reveal_strlit("active_requests");
    reveal_strlit("request_timeout_secs");
    reveal_strlit("restart_count");
    reveal_strlit("timeout_count");
    reveal_strlit("waiting_count");
    reveal_strlit("current_request");
    reveal_strlit("last_error");
    reveal_strlit("last_restart_reason");
    reveal_strlit("id");
    reveal_strlit("opcode");
    reveal_strlit("elapsed_ms");
}

} // verus!
