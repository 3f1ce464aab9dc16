//! What holds of the pool of workers, slot by slot: who gets a worker, what
//! becomes of it, and what a worker's answer comes to.

use vstd::prelude::*;

use crate::error::{ErrorModel, IoFailureModel, IoKind, WorkerError};
use crate::exchange::ExchangeModel;
use crate::frame::{FrameModel, Protocol};
use crate::json::{json_encode, Json};
use crate::laws::{acquire_run, first_free, first_live, law_acquire_choice};
use crate::report::busy_line;
use crate::response::payload_response;
use crate::slots::{next_idle, next_vacant, CurrentRequest, WorkerSlot};
use crate::text::utf8_lossy;
use crate::worker::{
    acquire_can, acquire_step, batch_step, ensure_step, json_payload, new_call, release_step,
    restart_step, settle_step, started_step, wrap_dec, wrap_inc, AcquireEvent, AcquireStepModel,
    BatchReplyModel, Lease, Poison, ReapModel, Ticket, WorkerModel,
};

verus! {

/// Counters count by one, and wrap around at 2^32.
pub proof fn law_counters(n: u32)
    ensures
        wrap_inc(n) == (n + 1) % 0x1_0000_0000,
        wrap_dec(n) == (n + 0xffff_ffff) % 0x1_0000_0000,
{
}

/// The first worker is asked for exactly where its slot has no process and no
/// request has it. The slots are put in place, all of them empty, where there
/// were none; any that were there stay as they are. With the lock of the pool
/// poisoned, nothing is done and that is the error.
pub proof fn law_first_worker_asked_for<P>(m: WorkerModel<P>, poison: Poison, k: int)
    requires
        m.wf(),
    ensures
        ({
            let (after, r) = ensure_step(m, poison);
            &&& poison.pool ==> after == m && r == Err::<bool, ErrorModel>(
                ErrorModel::Unavailable("worker pool mutex poisoned"@),
            )
            &&& !poison.pool ==> {
                &&& after == (WorkerModel { pool: after.pool, ..m })
                &&& after.pool.len() == m.pool_size
                &&& m.pool.len() > 0 ==> after.pool == m.pool
                &&& m.pool.len() == 0 && 0 <= k < m.pool_size ==> {
                    &&& after.pool[k].proc is None
                    &&& after.pool[k].pid == 0
                    &&& !after.pool[k].leased
                    &&& after.pool[k].current is None
                }
                &&& r matches Ok(needed)
                &&& needed <==> m.pool.len() == 0 || m.pool[0].proc is None && !m.pool[0].leased
            }
        }),
{
}

/// A first worker that was started has the first slot, under its process id,
/// and no other slot and nothing else changes; of one that was not, the error is
/// handed on, and nothing changes at all.
pub proof fn law_first_worker_taken<P>(
    m: WorkerModel<P>,
    worker: Result<(P, u32), WorkerError>,
    k: int,
)
    requires
        m.pool.len() > 0,
    ensures
        ({
            let (after, r) = started_step(m, worker);
            &&& worker matches Ok(w) ==> {
                &&& r is Ok
                &&& after == (WorkerModel { pool: after.pool, ..m })
                &&& after.pool.len() == m.pool.len()
                &&& after.pool[0].proc == Some(w.0)
                &&& after.pool[0].pid == w.1
                &&& after.pool[0].leased == m.pool[0].leased
                &&& after.pool[0].current == m.pool[0].current
                &&& 0 < k < m.pool.len() ==> after.pool[k] == m.pool[k]
            }
            &&& worker matches Err(e) ==> after == m && r == Err::<(), ErrorModel>(e@)
        }),
{
}

/// The search for an idle worker finds the first slot, from where it starts,
/// that has a process which no request has; or that there is none.
pub proof fn law_next_idle<P>(pool: Seq<WorkerSlot<P>>, from: int, k: int)
    requires
        0 <= from <= k <= pool.len(),
        forall|j: int| from <= j < k ==> (#[trigger] pool[j]).leased || pool[j].proc is None,
        k < pool.len() ==> !pool[k].leased && pool[k].proc is Some,
    ensures
        next_idle(pool, from) == k,
    decreases k - from,
{
    if from < k {
        assert(pool[from].leased || pool[from].proc is None);
        law_next_idle(pool, from + 1, k);
    }
}

/// The search for an empty slot finds the first, from where it starts, that has
/// no process and that no request has; or that there is none.
pub proof fn law_next_vacant<P>(pool: Seq<WorkerSlot<P>>, from: int, k: int)
    requires
        0 <= from <= k <= pool.len(),
        forall|j: int| from <= j < k ==> (#[trigger] pool[j]).leased || pool[j].proc is Some,
        k < pool.len() ==> !pool[k].leased && pool[k].proc is None,
    ensures
        next_vacant(pool, from) == k,
    decreases k - from,
{
    if from < k {
        assert(pool[from].leased || pool[from].proc is Some);
        law_next_vacant(pool, from + 1, k);
    }
}

proof fn lemma_first_live_is<P>(
    pool: Seq<WorkerSlot<P>>,
    alive: spec_fn(usize) -> bool,
    from: int,
    k: int,
)
    requires
        0 <= from <= k <= pool.len(),
        forall|j: int|
            from <= j < k ==> (#[trigger] pool[j]).leased || pool[j].proc is None || !alive(
                j as usize,
            ),
        k < pool.len() ==> !pool[k].leased && pool[k].proc is Some && alive(k as usize),
    ensures
        first_live(pool, alive, from) == k,
    decreases k - from,
{
    if from < k {
        assert(pool[from].leased || pool[from].proc is None || !alive(from as usize));
        lemma_first_live_is(pool, alive, from + 1, k);
    }
}

proof fn lemma_first_free_is<P>(pool: Seq<WorkerSlot<P>>, from: int, k: int)
    requires
        0 <= from <= k <= pool.len(),
        forall|j: int| from <= j < k ==> (#[trigger] pool[j]).leased,
        k < pool.len() ==> !pool[k].leased,
    ensures
        first_free(pool, from) == k,
    decreases k - from,
{
    if from < k {
        assert(pool[from].leased);
        lemma_first_free_is(pool, from + 1, k);
    }
}

/// A request gets the first worker that is in its slot and still running: that
/// process, with its id, is the one that is checked out, and its slot tells the
/// request and since when. Workers before it that are found dead are forgotten.
/// No other slot changes, and nothing else does.
pub proof fn law_request_gets_first_running<P>(
    m: WorkerModel<P>,
    ticket: Ticket,
    now: u128,
    alive: spec_fn(usize) -> bool,
    clock: spec_fn(usize) -> u128,
    k: int,
)
    requires
        m.wf(),
        0 <= k < m.pool.len(),
        !m.pool[k].leased,
        m.pool[k].proc is Some,
        alive(k as usize),
        forall|j: int|
            0 <= j < k ==> (#[trigger] m.pool[j]).leased || m.pool[j].proc is None || !alive(
                j as usize,
            ),
    ensures
        ({
            let first = acquire_step(m, ticket, AcquireEvent::Start, now);
            let (after, step) = acquire_run(first.0, ticket, first.1, alive, clock);
            &&& step == AcquireStepModel::Leased(
                Lease {
                    slot_idx: k as usize,
                    proc: m.pool[k].proc,
                    pid: m.pool[k].pid,
                    discard: false,
                },
            )
            &&& after == (WorkerModel { pool: after.pool, ..m })
            &&& after.pool.len() == m.pool.len()
            &&& after.pool[k] == (WorkerSlot::<P> {
                proc: None,
                pid: m.pool[k].pid,
                leased: true,
                current: Some(
                    CurrentRequest {
                        id: ticket.id,
                        opcode: ticket.opcode,
                        started: clock(k as usize),
                    },
                ),
            })
            &&& forall|j: int|
                0 <= j < k && !(#[trigger] m.pool[j]).leased && m.pool[j].proc is Some
                    ==> after.pool[j] == (WorkerSlot { proc: None, pid: 0, ..m.pool[j] })
            &&& forall|j: int|
                0 <= j < m.pool.len() && j != k && (j > k || (#[trigger] m.pool[j]).leased
                    || m.pool[j].proc is None) ==> after.pool[j] == m.pool[j]
        }),
{
    law_acquire_choice(m, ticket, now, alive, clock);
    lemma_first_live_is(m.pool, alive, 0, k);
}

/// Where no worker that is in its slot is still running, a new one is started
/// for the first slot that no request has: those found dead are forgotten, and
/// nothing else changes.
pub proof fn law_worker_started_where_none_runs<P>(
    m: WorkerModel<P>,
    ticket: Ticket,
    now: u128,
    alive: spec_fn(usize) -> bool,
    clock: spec_fn(usize) -> u128,
    k: int,
)
    requires
        m.wf(),
        0 <= k < m.pool.len(),
        !m.pool[k].leased,
        forall|j: int| 0 <= j < k ==> (#[trigger] m.pool[j]).leased,
        forall|j: int|
            0 <= j < m.pool.len() ==> (#[trigger] m.pool[j]).leased || m.pool[j].proc is None
                || !alive(j as usize),
    ensures
        ({
            let first = acquire_step(m, ticket, AcquireEvent::Start, now);
            let (after, step) = acquire_run(first.0, ticket, first.1, alive, clock);
            &&& step == (AcquireStepModel::<P>::Spawn { slot: k as usize })
            &&& after == (WorkerModel { pool: after.pool, ..m })
            &&& after.pool.len() == m.pool.len()
            &&& forall|j: int|
                0 <= j < m.pool.len() && !(#[trigger] m.pool[j]).leased && m.pool[j].proc is Some
                    ==> after.pool[j] == (WorkerSlot { proc: None, pid: 0, ..m.pool[j] })
            &&& forall|j: int|
                0 <= j < m.pool.len() && ((#[trigger] m.pool[j]).leased || m.pool[j].proc is None)
                    ==> after.pool[j] == m.pool[j]
        }),
{
    law_acquire_choice(m, ticket, now, alive, clock);
    lemma_first_live_is(m.pool, alive, 0, m.pool.len() as int);
    lemma_first_free_is(m.pool, 0, k);
}

/// The first request of all has a worker started for the first slot; all slots
/// are in place then, and empty.
pub proof fn law_first_request_starts_first_worker<P>(
    m: WorkerModel<P>,
    ticket: Ticket,
    now: u128,
    k: int,
)
    requires
        m.wf(),
        m.pool.len() == 0,
        0 <= k < m.pool_size,
    ensures
        ({
            let (after, step) = acquire_step(m, ticket, AcquireEvent::Start, now);
            &&& step == (AcquireStepModel::<P>::Spawn { slot: 0 })
            &&& after == (WorkerModel { pool: after.pool, ..m })
            &&& after.pool.len() == m.pool_size
            &&& after.pool[k].proc is None
            &&& after.pool[k].pid == 0
            &&& !after.pool[k].leased
            &&& after.pool[k].current is None
        }),
{
    let pool = m.opened().pool;
    law_next_idle(pool, 0, pool.len() as int);
    law_next_vacant(pool, 0, 0);
}

/// While requests have all workers, a request sleeps for ten milliseconds at a
/// time and nothing changes; once its deadline has come it gives up, and that is
/// counted.
pub proof fn law_busy_pool_waits<P>(m: WorkerModel<P>, ticket: Ticket, now: u128)
    requires
        m.wf(),
        m.pool.len() > 0,
        forall|j: int| 0 <= j < m.pool.len() ==> (#[trigger] m.pool[j]).leased,
    ensures
        ({
            let (after, step) = acquire_step(m, ticket, AcquireEvent::Start, now);
            &&& now < ticket.deadline ==> after == m && step == (AcquireStepModel::<P>::Sleep {
                millis: 10,
            })
            &&& now >= ticket.deadline ==> {
                &&& step == (AcquireStepModel::<P>::Failed {
                    error: ErrorModel::Unavailable("worker pool busy timed out"@),
                    line: Some(busy_line(ticket.opcode, m.request_timeout)),
                })
                &&& after.timeout_count == (m.timeout_count + 1) % 0x1_0000_0000
                &&& after == (WorkerModel { timeout_count: after.timeout_count, ..m })
            }
        }),
{
    law_next_idle(m.pool, 0, m.pool.len() as int);
    law_next_vacant(m.pool, 0, m.pool.len() as int);
}

/// A worker that was started for a slot is checked out to the request that had
/// it started, and the slot tells that request. One that could not be started is
/// why the request fails, and a poisoned pool is, too: nothing changes then.
pub proof fn law_started_for_request<P>(
    m: WorkerModel<P>,
    ticket: Ticket,
    slot: usize,
    worker: Result<(P, u32), WorkerError>,
    now: u128,
    j: int,
)
    requires
        slot < m.pool.len(),
    ensures
        ({
            let (after, step) = acquire_step(
                m,
                ticket,
                AcquireEvent::Spawned { slot, worker },
                now,
            );
            &&& worker matches Ok(w) ==> {
                &&& step == AcquireStepModel::Leased(
                    Lease { slot_idx: slot, proc: Some(w.0), pid: w.1, discard: false },
                )
                &&& after == (WorkerModel { pool: after.pool, ..m })
                &&& after.pool.len() == m.pool.len()
                &&& after.pool[slot as int] == (WorkerSlot {
                    leased: true,
                    current: Some(
                        CurrentRequest { id: ticket.id, opcode: ticket.opcode, started: now },
                    ),
                    ..m.pool[slot as int]
                })
                &&& 0 <= j < m.pool.len() && j != slot ==> after.pool[j] == m.pool[j]
            }
            &&& worker matches Err(e) ==> {
                &&& after == m
                &&& step == (AcquireStepModel::<P>::Failed { error: e@, line: None })
            }
            &&& acquire_step(m, ticket, AcquireEvent::Poisoned, now) == (
                m,
                AcquireStepModel::<P>::Failed {
                    error: ErrorModel::Unavailable("worker pool mutex poisoned"@),
                    line: None,
                },
            )
        }),
{
}

/// Whether a process was probed or started can be reported of every slot that
/// has no process and that no request has, and of no other.
pub proof fn law_acquire_takes_reports<P>(m: WorkerModel<P>, event: AcquireEvent<P>)
    ensures
        acquire_can(m, event) <==> match event {
            AcquireEvent::Start => true,
            AcquireEvent::Poisoned => true,
            AcquireEvent::Probed { slot, .. } => slot < m.pool.len() && !m.pool[slot as int].leased
                && m.pool[slot as int].proc is None,
            AcquireEvent::Spawned { slot, .. } => slot < m.pool.len() && !m.pool[slot as int].leased
                && m.pool[slot as int].proc is None,
        },
{
}

/// The end of a lease. A process that still runs and is not to be discarded is
/// in its slot again, with its id, and there is nothing to reap. Any other is
/// handed over to be reaped, exactly once, and its slot has no id any more; if
/// it was to be discarded, that counts as a restart. Either way no request has
/// the slot any more, and no other slot changes.
pub proof fn law_release<P>(m: WorkerModel<P>, lease: Lease<P>, alive: bool, poison: Poison, j: int)
    requires
        lease.slot_idx < m.pool.len(),
        !poison.pool,
    ensures
        ({
            let (after, reap) = release_step(m, lease, alive, poison);
            let before = m.pool[lease.slot_idx as int];
            let slot = after.pool[lease.slot_idx as int];
            let healthy = alive && !lease.discard;
            &&& after.pool.len() == m.pool.len()
            &&& 0 <= j < m.pool.len() && j != lease.slot_idx ==> after.pool[j] == m.pool[j]
            &&& !slot.leased
            &&& slot.current is None
            &&& lease.proc is Some && healthy ==> {
                &&& reap is None
                &&& slot.proc == lease.proc
                &&& slot.pid == lease.pid
                &&& after == (WorkerModel { pool: after.pool, ..m })
            }
            &&& lease.proc is Some && !healthy ==> {
                &&& reap == Some(ReapModel { proc: lease.proc->0, reason: "discarded worker"@ })
                &&& slot.proc == before.proc
                &&& slot.pid == 0
                &&& after == (WorkerModel {
                    pool: after.pool,
                    restart_count: after.restart_count,
                    last_restart_reason: after.last_restart_reason,
                    ..m
                })
                &&& after.restart_count == if lease.discard {
                    (m.restart_count + 1) % 0x1_0000_0000
                } else {
                    m.restart_count as int
                }
                &&& after.last_restart_reason == if lease.discard && !poison.state {
                    Some("discarded worker"@)
                } else {
                    m.last_restart_reason
                }
            }
            &&& lease.proc is None ==> {
                &&& reap is None
                &&& slot.proc == before.proc
                &&& slot.pid == 0
                &&& after == (WorkerModel { pool: after.pool, ..m })
            }
        }),
{
}

/// A lease whose slot cannot be had, because the lock of the pool is poisoned or
/// because there is no such slot, ends without a trace in the books; its process
/// is handed over to be reaped.
pub proof fn law_release_without_slot<P>(
    m: WorkerModel<P>,
    lease: Lease<P>,
    alive: bool,
    poison: Poison,
)
    requires
        poison.pool || lease.slot_idx >= m.pool.len(),
    ensures
        ({
            let (after, reap) = release_step(m, lease, alive, poison);
            &&& after == m
            &&& lease.proc is None ==> reap is None
            &&& lease.proc is Some ==> reap == Some(
                ReapModel {
                    proc: lease.proc->0,
                    reason: if poison.pool {
                        "pool poisoned"@
                    } else {
                        "slot missing"@
                    },
                },
            )
        }),
{
}

/// A restart that is asked for takes one worker: that of the first slot whose
/// process no request has. It is handed over to be reaped, its slot is empty and
/// has no process id any more, and the restart is counted and noted; no other
/// slot changes, and nothing else does.
pub proof fn law_restart_takes_first_idle<P>(m: WorkerModel<P>, poison: Poison, k: int, j: int)
    requires
        !poison.pool,
        0 <= k < m.pool.len(),
        !m.pool[k].leased,
        m.pool[k].proc is Some,
        forall|i: int| 0 <= i < k ==> (#[trigger] m.pool[i]).leased || m.pool[i].proc is None,
    ensures
        ({
            let (after, reap) = restart_step(m, poison);
            &&& reap == Some(
                ReapModel {
                    proc: m.pool[k].proc->0,
                    reason: "restart requested by worker response"@,
                },
            )
            &&& after.pool.len() == m.pool.len()
            &&& after.pool[k].proc is None
            &&& after.pool[k].pid == 0
            &&& !after.pool[k].leased
            &&& after.pool[k].current == m.pool[k].current
            &&& 0 <= j < m.pool.len() && j != k ==> after.pool[j] == m.pool[j]
            &&& after.restart_count == (m.restart_count + 1) % 0x1_0000_0000
            &&& after.last_restart_reason == if poison.state {
                m.last_restart_reason
            } else {
                Some("restart requested by worker response"@)
            }
            &&& after == (WorkerModel {
                pool: after.pool,
                restart_count: after.restart_count,
                last_restart_reason: after.last_restart_reason,
                ..m
            })
        }),
{
    law_next_idle(m.pool, 0, k);
}

/// Where requests have all workers, or there are none, or the lock of the pool
/// is poisoned, a restart that is asked for takes nothing and changes nothing.
pub proof fn law_restart_spares_busy_workers<P>(m: WorkerModel<P>, poison: Poison)
    requires
        poison.pool || forall|i: int|
            0 <= i < m.pool.len() ==> (#[trigger] m.pool[i]).leased || m.pool[i].proc is None,
    ensures
        restart_step(m, poison) == (m, None::<ReapModel<P>>),
{
    if !poison.pool {
        law_next_idle(m.pool, 0, m.pool.len() as int);
    }
}

/// A new request has the next id, and the one after it the id after that. Its
/// frame is one of a request, without flags, and it has the time of a request
/// from now.
pub proof fn law_new_request<P>(
    m: WorkerModel<P>,
    proto: Protocol,
    opcode: u16,
    payload: Seq<u8>,
    now: u128,
)
    requires
        now + m.request_timeout * 1_000_000_000 <= u128::MAX,
    ensures
        ({
            let call = new_call(m, proto, opcode, payload, now);
            &&& m.deadline_at(now) <= u128::MAX
            &&& call.deadline == now + m.request_timeout * 1_000_000_000
            &&& call.frame.kind == proto.kind_request
            &&& call.frame.request_id == m.next_id
            &&& call.frame.opcode == opcode
            &&& call.frame.flags == 0
            &&& call.frame.payload == payload
            &&& m.asked() == (WorkerModel { next_id: m.asked().next_id, ..m })
            &&& m.asked().next_id == (m.next_id + 1) % 0x1_0000_0000
        }),
{
}

/// A request carries its JSON value as JSON, and nothing where that is `null`.
pub proof fn law_json_payload(tree: Json)
    ensures
        tree == Json::Null ==> json_payload(tree) == Seq::<u8>::empty(),
        tree != Json::Null ==> json_payload(tree) == json_encode(tree),
{
}

/// A frame that answers the request is taken: one that is a response, with the
/// id and the opcode of the request, whatever its flags and its payload. Nothing
/// else changes, and the worker is as fit as before.
pub proof fn law_answer_is_taken<P>(
    m: WorkerModel<P>,
    proto: Protocol,
    id: u32,
    opcode: u16,
    flags: u16,
    payload: Seq<u8>,
    lease: Lease<P>,
    poison: Poison,
)
    ensures
        ({
            let reply = FrameModel {
                kind: proto.kind_response,
                request_id: id,
                opcode,
                flags,
                payload,
            };
            settle_step(m, proto, id, opcode, ExchangeModel::Reply(reply), lease, poison) == (
                m,
                lease,
                Ok::<FrameModel, ErrorModel>(reply),
            )
        }),
{
}

/// A frame that is no response, or that has another id or another opcode than
/// the request, is refused: that is the error, and noted, and the worker is to
/// be discarded.
pub proof fn law_other_frame_is_refused<P>(
    m: WorkerModel<P>,
    proto: Protocol,
    id: u32,
    opcode: u16,
    reply: FrameModel,
    lease: Lease<P>,
    poison: Poison,
)
    requires
        reply.kind != proto.kind_response || reply.request_id != id || reply.opcode != opcode,
    ensures
        ({
            let (after, left, r) = settle_step(
                m,
                proto,
                id,
                opcode,
                ExchangeModel::Reply(reply),
                lease,
                poison,
            );
            &&& r == Err::<FrameModel, ErrorModel>(
                ErrorModel::Protocol("mismatched ipc response"@),
            )
            &&& left == (Lease { discard: true, ..lease })
            &&& after == (WorkerModel { last_error: after.last_error, ..m })
            &&& after.last_error == if poison.state {
                m.last_error
            } else {
                Some("mismatched ipc response"@)
            }
        }),
{
}

/// A failure of the exchange is the error of the request, and noted, and the
/// worker is to be discarded. One for want of time is counted, and no other.
pub proof fn law_failed_exchange<P>(
    m: WorkerModel<P>,
    proto: Protocol,
    id: u32,
    opcode: u16,
    e: IoFailureModel,
    lease: Lease<P>,
    poison: Poison,
)
    ensures
        ({
            let (after, left, r) = settle_step(
                m,
                proto,
                id,
                opcode,
                ExchangeModel::WriteFailed(e),
                lease,
                poison,
            );
            &&& settle_step(m, proto, id, opcode, ExchangeModel::ReadFailed(e), lease, poison) == (
                after,
                left,
                r,
            )
            &&& r == Err::<FrameModel, ErrorModel>(ErrorModel::Io(e.message))
            &&& left == (Lease { discard: true, ..lease })
            &&& after == (WorkerModel {
                last_error: after.last_error,
                timeout_count: after.timeout_count,
                ..m
            })
            &&& after.last_error == if poison.state {
                m.last_error
            } else {
                Some(e.message)
            }
            &&& after.timeout_count == if e.kind == IoKind::TimedOut {
                (m.timeout_count + 1) % 0x1_0000_0000
            } else {
                m.timeout_count as int
            }
        }),
{
}

/// An answer with the lowest flag set carries samples: they are its payload, and
/// nothing changes. Any other says why there are none.
pub proof fn law_flag_tells_samples<P>(m: WorkerModel<P>, frame: FrameModel, poison: Poison)
    ensures
        frame.flags % 2 == 1 ==> batch_step(m, frame, poison) == (
            m,
            BatchReplyModel::<P>::Samples(frame.payload),
        ),
        frame.flags % 2 == 0 ==> batch_step(m, frame, poison).1 is Refused,
{
    let flags = frame.flags;
    assert((flags & 1 == 1) == (flags % 2 == 1)) by (bit_vector);
}

/// A refusal has the body of the response as its text. Where the response asks
/// for a restart, that is done; where it does not, nothing changes. An answer
/// that is no JSON is an error of its own, and nothing changes either.
pub proof fn law_refusal<P>(m: WorkerModel<P>, frame: FrameModel, poison: Poison)
    requires
        frame.flags % 2 == 0,
    ensures
        ({
            let (after, reply) = batch_step(m, frame, poison);
            &&& reply matches BatchReplyModel::Refused { error, reap }
            &&& payload_response(frame.payload) matches Ok(response) ==> {
                &&& error == ErrorModel::Unavailable(utf8_lossy(response.body))
                &&& response.restart_worker ==> (after, reap) == restart_step(m, poison)
                &&& !response.restart_worker ==> after == m && reap is None
            }
            &&& payload_response(frame.payload) matches Err(e) ==> {
                &&& error == e
                &&& after == m
                &&& reap is None
            }
        }),
{
    let flags = frame.flags;
    assert((flags & 1 == 1) == (flags % 2 == 1)) by (bit_vector);
}

/// A batch is decrypted: asked for, and answered by the worker with the lowest
/// flag set, whatever the other flags, it gives the samples of the answer. The
/// worker is in its slot again then, as fit as before and with no request, and
/// nothing is noted, counted or reaped.
pub proof fn law_batch_is_decrypted<P>(
    m: WorkerModel<P>,
    proto: Protocol,
    request: Seq<u8>,
    now: u128,
    reply: FrameModel,
    lease: Lease<P>,
    poison: Poison,
)
    requires
        reply.kind == proto.kind_response,
        reply.request_id == m.next_id,
        reply.opcode == proto.op_decrypt_batch,
        reply.flags % 2 == 1,
        !poison.pool,
        !lease.discard,
        lease.proc is Some,
        lease.slot_idx < m.pool.len(),
    ensures
        ({
            let call = new_call(m, proto, proto.op_decrypt_batch, request, now).frame;
            let (settled, left, r) = settle_step(
                m.asked(),
                proto,
                call.request_id,
                call.opcode,
                ExchangeModel::Reply(reply),
                lease,
                poison,
            );
            let (released, reap) = release_step(settled, left, true, poison);
            let slot = released.pool[lease.slot_idx as int];
            &&& r == Ok::<FrameModel, ErrorModel>(reply)
            &&& !left.discard
            &&& reap is None
            &&& slot.proc == lease.proc
            &&& slot.pid == lease.pid
            &&& !slot.leased
            &&& batch_step(released, reply, poison) == (
                released,
                BatchReplyModel::<P>::Samples(reply.payload),
            )
            &&& released == (WorkerModel { pool: released.pool, next_id: released.next_id, ..m })
        }),
{
    law_flag_tells_samples(m, reply, poison);
    let flags = reply.flags;
    assert((flags & 1 == 1) == (flags % 2 == 1)) by (bit_vector);
}

} // verus!
