//! The supervisor of a pool of workers: which worker takes a request, what
//! becomes of a worker after it, and what is told of the pool.
//!
//! Everything here decides and keeps the books. The caller does the work that
//! is asked for (starting and probing processes, reading and writing pipes,
//! looking at the clock, sleeping) and reports what came of it. Instants are
//! nanoseconds on a clock that never goes back.

use vstd::prelude::*;

use crate::config::{pool_size, timeout_secs, var_text, worker_count, worker_timeout};
use crate::error::{ErrorModel, IoFailure, IoFailureModel, IoKind, WorkerError};
use crate::exchange::{Call, CallModel, Exchange, ExchangeModel};
use crate::frame::{Frame, FrameModel, Protocol};
use crate::json::{
    json_error_text, value_from_numbers, value_from_u64, value_is_null, value_null, value_set,
    value_text_or_null, value_to_vec, Json,
};
use crate::report::{busy_line, exchange_line, report_busy, report_exchange};
use crate::response::{
    parse_worker_response, payload_response, WorkerResponse,
};
use crate::slots::{
    collect_pids, count_leased, count_running, find_current, find_idle, find_vacant,
    first_current, known_pids, leased_count, lemma_next_idle, new_slots,
    next_idle, next_vacant, running_count, untouched_pool, CurrentRequest, WorkerSlot,
};
use crate::text::text_from_utf8_lossy;

verus! {

/// What was last said of a failure and of a restart.
#[derive(Debug)]
pub struct WorkerState {
    pub last_error: Option<String>,
    pub last_restart_reason: Option<String>,
}

/// Which locks a panic has poisoned: that of the pool, and that of the last
/// error and the last restart.
#[derive(Debug, Clone, Copy, PartialEq, Eq, Structural)]
pub struct Poison {
    pub pool: bool,
    pub state: bool,
}

/// The supervisor of a pool of workers, each with a process of type `P`.
pub struct Worker<P> {
    launcher: String,
    version: String,
    request_timeout: u64,
    pool_size: usize,
    next_id: u32,
    restart_count: u32,
    timeout_count: u32,
    waiting_count: u32,
    pool: Vec<WorkerSlot<P>>,
    state: WorkerState,
}

/// A [`Worker`] with its text and its slots as sequences.
pub struct WorkerModel<P> {
    pub launcher: Seq<char>,
    pub version: Seq<char>,
    pub request_timeout: u64,
    pub pool_size: usize,
    pub next_id: u32,
    pub restart_count: u32,
    pub timeout_count: u32,
    pub waiting_count: u32,
    pub pool: Seq<WorkerSlot<P>>,
    pub last_error: Option<Seq<char>>,
    pub last_restart_reason: Option<Seq<char>>,
}

impl<P> View for Worker<P> {
    type V = WorkerModel<P>;

    closed spec fn view(&self) -> WorkerModel<P> {
        WorkerModel {
            launcher: self.launcher@,
            version: self.version@,
            request_timeout: self.request_timeout,
            pool_size: self.pool_size,
            next_id: self.next_id,
            restart_count: self.restart_count,
            timeout_count: self.timeout_count,
            waiting_count: self.waiting_count,
            pool: self.pool@,
            last_error: var_text(self.state.last_error),
            last_restart_reason: var_text(self.state.last_restart_reason),
        }
    }
}

/// One more, in 32 bits that wrap around.
pub open spec fn wrap_inc(n: u32) -> u32 {
    if n == u32::MAX {
        0
    } else {
        (n + 1) as u32
    }
}

/// One less, in 32 bits that wrap around.
pub open spec fn wrap_dec(n: u32) -> u32 {
    if n == 0 {
        u32::MAX
    } else {
        (n - 1) as u32
    }
}

impl<P> WorkerModel<P> {
    /// What always holds: there are between one and eight workers, a request
    /// has some time, and the pool has no slots yet or all of them.
    pub open spec fn wf(self) -> bool {
        &&& 1 <= self.pool_size <= 8
        &&& self.request_timeout > 0
        &&& self.pool.len() == 0 || self.pool.len() == self.pool_size
    }

    /// All slots are as they should be between two calls for a worker.
    pub open spec fn tidy(self) -> bool {
        forall|i: int| 0 <= i < self.pool.len() ==> (#[trigger] self.pool[i]).tidy()
    }

    /// With slot `i` set to `slot`.
    pub open spec fn with_slot(self, i: int, slot: WorkerSlot<P>) -> WorkerModel<P> {
        WorkerModel { pool: self.pool.update(i, slot), ..self }
    }

    /// With a process in the first slot.
    pub open spec fn with_first(self, proc: P, pid: u32) -> WorkerModel<P> {
        self.with_slot(0, WorkerSlot { proc: Some(proc), pid, ..self.pool[0] })
    }

    /// When a request that starts at `now` has run out of time.
    pub open spec fn deadline_at(self, now: u128) -> int {
        now + self.request_timeout * 1_000_000_000
    }

    /// With the slots in place.
    pub open spec fn opened(self) -> WorkerModel<P> {
        if self.pool.len() == 0 {
            WorkerModel { pool: untouched_pool(self.pool_size as nat), ..self }
        } else {
            self
        }
    }

    /// With one more restart, for `reason`; the reason is noted unless the
    /// lock of what is noted is poisoned.
    pub open spec fn restarted(self, reason: Seq<char>, poison: Poison) -> WorkerModel<P> {
        WorkerModel {
            restart_count: wrap_inc(self.restart_count),
            last_restart_reason: if poison.state {
                self.last_restart_reason
            } else {
                Some(reason)
            },
            ..self
        }
    }

    /// With one more request asked.
    pub open spec fn asked(self) -> WorkerModel<P> {
        WorkerModel { next_id: wrap_inc(self.next_id), ..self }
    }

    /// With one more request that ran out of time.
    pub open spec fn timed_out(self) -> WorkerModel<P> {
        WorkerModel { timeout_count: wrap_inc(self.timeout_count), ..self }
    }

    /// With `error` as the last one, unless the lock of what is noted is
    /// poisoned.
    pub open spec fn failed(self, error: Seq<char>, poison: Poison) -> WorkerModel<P> {
        WorkerModel {
            last_error: if poison.state {
                self.last_error
            } else {
                Some(error)
            },
            ..self
        }
    }
}

impl<P> Worker<P> {
    /// What always holds of a supervisor.
    pub open spec fn wf(&self) -> bool {
        self@.wf()
    }

    /// A supervisor of workers that `launcher` starts, with the settings that
    /// `WRAPPER_WORKER_TIMEOUT_SECS` and `WRAPPER_WORKER_POOL` have in the
    /// environment. No worker is started yet, and the first request has the
    /// id 1.
    pub fn new(
        launcher: &str,
        version: String,
        timeout_var: &Option<String>,
        pool_var: &Option<String>,
    ) -> (r: Worker<P>)
        ensures
            r.wf(),
            r@ == (WorkerModel::<P> {
                launcher: launcher@,
                version: version@,
                request_timeout: timeout_secs(var_text(*timeout_var)),
                pool_size: worker_count(var_text(*pool_var)),
                next_id: 1,
                restart_count: 0,
                timeout_count: 0,
                waiting_count: 0,
                pool: Seq::empty(),
                last_error: None,
                last_restart_reason: None,
            }),
    {
        Worker {
            launcher: launcher.to_string(),
            version,
            request_timeout: worker_timeout(timeout_var),
            pool_size: pool_size(pool_var),
            next_id: 1,
            restart_count: 0,
            timeout_count: 0,
            waiting_count: 0,
            pool: Vec::new(),
            state: WorkerState { last_error: None, last_restart_reason: None },
        }
    }

    /// Notes `error` as the last one.
    fn record_error(&mut self, error: &str, poison: Poison)
        ensures
            final(self)@ == old(self)@.failed(error@, poison),
    {
        if !poison.state {
            self.state.last_error = Some(error.to_string());
        }
    }

    /// Counts a restart, for `reason`.
    fn record_restart(&mut self, reason: &str, poison: Poison)
        ensures
            final(self)@ == old(self)@.restarted(reason@, poison),
    {
        self.restart_count = self.restart_count.wrapping_add(1);
        if !poison.state {
            self.state.last_restart_reason = Some(reason.to_string());
        }
    }

    /// Counts a request that ran out of time.
    fn record_timeout(&mut self)
        ensures
            final(self)@ == old(self)@.timed_out(),
    {
        self.timeout_count = self.timeout_count.wrapping_add(1);
    }

    /// Counts a request that waits for a worker, until [`Worker::end_wait`].
    pub fn track_wait(&mut self)
        ensures
            final(self)@ == (WorkerModel {
                waiting_count: wrap_inc(old(self)@.waiting_count),
                ..old(self)@
            }),
    {
        self.waiting_count = self.waiting_count.wrapping_add(1);
    }

    /// A request that waited for a worker waits no more.
    pub fn end_wait(&mut self)
        ensures
            final(self)@ == (WorkerModel {
                waiting_count: wrap_dec(old(self)@.waiting_count),
                ..old(self)@
            }),
    {
        self.waiting_count = self.waiting_count.wrapping_sub(1);
    }

    /// Puts the slots in place.
    fn open_pool(&mut self)
        requires
            old(self).wf(),
        ensures
            final(self).wf(),
            final(self)@ == old(self)@.opened(),
            final(self)@.pool.len() == final(self)@.pool_size,
    {
        if self.pool.len() == 0 {
            self.pool = new_slots(self.pool_size);
        }
    }

    /// Whether the first worker has to be started now, so that there is one
    /// before the first request; the others are started when they are needed.
    /// None is started for a slot whose process a request has checked out.
    pub fn ensure_started(&mut self, poison: Poison) -> (r: Result<bool, WorkerError>)
        requires
            old(self).wf(),
        ensures
            final(self).wf(),
            if poison.pool {
                &&& final(self)@ == old(self)@
                &&& r matches Err(e)
                &&& e@ == pool_poisoned()
            } else {
                &&& final(self)@ == old(self)@.opened()
                &&& final(self)@.pool.len() > 0
                &&& r == Ok::<bool, WorkerError>(final(self)@.pool[0].is_vacant())
            },
            (final(self)@, bool_result(r)) == ensure_step(old(self)@, poison),
    {
        if poison.pool {
            return Err(WorkerError::Unavailable("worker pool mutex poisoned".to_string()));
        }
        self.open_pool();
        Ok(!self.pool[0].leased && self.pool[0].proc.is_none())
    }

    /// Takes what came of starting the first worker: it has the first slot, or
    /// the error is handed on and nothing changes.
    pub fn started(&mut self, worker: Result<(P, u32), WorkerError>) -> (r: Result<(), WorkerError>)
        requires
            old(self).wf(),
            old(self)@.pool.len() > 0,
            old(self)@.pool[0].is_vacant(),
        ensures
            final(self).wf(),
            match worker {
                Ok((proc, pid)) => {
                    &&& final(self)@ == old(self)@.with_first(proc, pid)
                    &&& r is Ok
                },
                Err(e) => {
                    &&& final(self)@ == old(self)@
                    &&& r == Err::<(), WorkerError>(e)
                },
            },
            (final(self)@, unit_result(r)) == started_step(old(self)@, worker),
    {
        match worker {
            Ok(started) => {
                let (proc, pid) = started;
                let slot = &mut self.pool[0];
                slot.proc = Some(proc);
                slot.pid = pid;
                Ok(())
            },
            Err(e) => Err(e),
        }
    }
}

/// A truth value or an error, with its text as a sequence.
pub open spec fn bool_result(r: Result<bool, WorkerError>) -> Result<bool, ErrorModel> {
    match r {
        Ok(b) => Ok(b),
        Err(e) => Err(e@),
    }
}

/// Nothing or an error, with its text as a sequence.
pub open spec fn unit_result(r: Result<(), WorkerError>) -> Result<(), ErrorModel> {
    match r {
        Ok(_) => Ok(()),
        Err(e) => Err(e@),
    }
}

/// The books once the slots are in place, and whether the first worker has to
/// be started.
pub open spec fn ensure_step<P>(m: WorkerModel<P>, poison: Poison) -> (
    WorkerModel<P>,
    Result<bool, ErrorModel>,
) {
    if poison.pool {
        (m, Err(pool_poisoned()))
    } else {
        (m.opened(), Ok(m.opened().pool[0].is_vacant()))
    }
}

/// The books once the first worker has been started, or why that failed.
pub open spec fn started_step<P>(m: WorkerModel<P>, worker: Result<(P, u32), WorkerError>) -> (
    WorkerModel<P>,
    Result<(), ErrorModel>,
) {
    match worker {
        Ok((proc, pid)) => (m.with_first(proc, pid), Ok(())),
        Err(e) => (m, Err(e@)),
    }
}

/// The error of a pool whose lock is poisoned.
pub open spec fn pool_poisoned() -> ErrorModel {
    ErrorModel::Unavailable("worker pool mutex poisoned"@)
}

/// A worker process checked out of the pool for the duration of one request.
/// It goes back by [`Worker::release`], which keeps the process or gives it up.
#[derive(Debug)]
pub struct Lease<P> {
    pub slot_idx: usize,
    pub proc: Option<P>,
    pub pid: u32,
    pub discard: bool,
}

impl<P> Lease<P> {
    /// The process that was checked out.
    pub fn proc_mut(&mut self) -> (r: &mut P)
        requires
            old(self).proc is Some,
        ensures
            *r == old(self).proc->0,
            *final(self) == (Lease { proc: Some(*final(r)), ..*old(self) }),
    {
        self.proc.as_mut().unwrap()
    }

    /// Marks this worker for discard: it does not go back to the pool, and
    /// its slot is left empty for a fresh start.
    pub fn discard(&mut self)
        ensures
            *final(self) == (Lease { discard: true, ..*old(self) }),
    {
        self.discard = true;
    }
}

/// A process that is to be killed and reaped in the background.
#[derive(Debug)]
pub struct Reap<P> {
    pub proc: P,
    pub reason: &'static str,
}

/// A [`Reap`] with its reason as a sequence of characters.
pub struct ReapModel<P> {
    pub proc: P,
    pub reason: Seq<char>,
}

impl<P> View for Reap<P> {
    type V = ReapModel<P>;

    open spec fn view(&self) -> ReapModel<P> {
        ReapModel { proc: self.proc, reason: self.reason@ }
    }
}

/// What there is to reap, if anything.
pub open spec fn reap_model<P>(r: Option<Reap<P>>) -> Option<ReapModel<P>> {
    match r {
        Some(reap) => Some(reap@),
        None => None,
    }
}

/// A request that calls for a worker, until `deadline`.
#[derive(Debug, Clone, Copy, PartialEq, Eq, Structural)]
pub struct Ticket {
    pub id: u32,
    pub opcode: u16,
    pub deadline: u128,
}

/// What happened last while a request calls for a worker.
#[derive(Debug)]
pub enum AcquireEvent<P> {
    /// The call starts, or starts again after a sleep.
    Start,
    /// The lock of the pool is poisoned.
    Poisoned,
    /// The idle process of a slot was probed: it is still running, or it is
    /// gone.
    Probed { slot: usize, running: Option<P> },
    /// A process was started for a slot.
    Spawned { slot: usize, worker: Result<(P, u32), WorkerError> },
}

/// What to do next while a request calls for a worker. But for the sleep, the
/// lock of the pool is held until the call has its outcome.
#[derive(Debug)]
pub enum AcquireStep<P> {
    /// Find out whether this idle process of a slot is still running.
    Probe { slot: usize, proc: P },
    /// Start a process for a slot.
    Spawn { slot: usize },
    /// Let go of the pool for so long, then start again.
    Sleep { millis: u64 },
    /// The request has a worker.
    Leased(Lease<P>),
    /// The request gets none. Where it waited in vain, there is a line to print.
    Failed { error: WorkerError, line: Option<String> },
}

/// An [`AcquireStep`] with the text of an error as a sequence of characters.
pub enum AcquireStepModel<P> {
    Probe { slot: usize, proc: P },
    Spawn { slot: usize },
    Sleep { millis: u64 },
    Leased(Lease<P>),
    Failed { error: ErrorModel, line: Option<Seq<char>> },
}

impl<P> View for AcquireStep<P> {
    type V = AcquireStepModel<P>;

    open spec fn view(&self) -> AcquireStepModel<P> {
        match *self {
            AcquireStep::Probe { slot, proc } => AcquireStepModel::Probe { slot, proc },
            AcquireStep::Spawn { slot } => AcquireStepModel::Spawn { slot },
            AcquireStep::Sleep { millis } => AcquireStepModel::Sleep { millis },
            AcquireStep::Leased(lease) => AcquireStepModel::Leased(lease),
            AcquireStep::Failed { error, line } => AcquireStepModel::Failed {
                error: error@,
                line: var_text(line),
            },
        }
    }
}

/// The end of a call that waited in vain for a worker, until its deadline.
pub open spec fn acquire_busy<P>(m: WorkerModel<P>, ticket: Ticket) -> AcquireStepModel<P> {
    AcquireStepModel::Failed {
        error: ErrorModel::Unavailable("worker pool busy timed out"@),
        line: Some(busy_line(ticket.opcode, m.request_timeout)),
    }
}

/// The next step with the slots before `from` behind: probe the next idle
/// process; where there is none, fill the first vacant slot; where all are
/// taken, wait, or give up at the deadline.
pub open spec fn acquire_from<P>(m: WorkerModel<P>, from: int, ticket: Ticket, now: u128) -> (
    WorkerModel<P>,
    AcquireStepModel<P>,
) {
    let idle = next_idle(m.pool, from);
    let vacant = next_vacant(m.pool, 0);
    if idle < m.pool.len() {
        (
            m.with_slot(idle, m.pool[idle].emptied()),
            AcquireStepModel::Probe { slot: idle as usize, proc: m.pool[idle].proc->0 },
        )
    } else if vacant < m.pool.len() {
        (m, AcquireStepModel::Spawn { slot: vacant as usize })
    } else if now >= ticket.deadline {
        (m.timed_out(), acquire_busy(m, ticket))
    } else {
        (m, AcquireStepModel::Sleep { millis: 10 })
    }
}

/// The outcome of a call for a worker: `proc`, checked out of a slot.
pub open spec fn acquire_lease<P>(
    m: WorkerModel<P>,
    slot: usize,
    proc: P,
    pid: u32,
    ticket: Ticket,
    now: u128,
) -> (WorkerModel<P>, AcquireStepModel<P>) {
    (
        m.with_slot(
            slot as int,
            m.pool[slot as int].checked_out(
                CurrentRequest { id: ticket.id, opcode: ticket.opcode, started: now },
            ),
        ),
        AcquireStepModel::Leased(
            Lease { slot_idx: slot, proc: Some(proc), pid, discard: false },
        ),
    )
}

/// One decision in the call of a request for a worker.
pub open spec fn acquire_step<P>(
    m: WorkerModel<P>,
    ticket: Ticket,
    event: AcquireEvent<P>,
    now: u128,
) -> (WorkerModel<P>, AcquireStepModel<P>) {
    match event {
        AcquireEvent::Start => acquire_from(m.opened(), 0, ticket, now),
        AcquireEvent::Poisoned => (
            m,
            AcquireStepModel::Failed { error: pool_poisoned(), line: None },
        ),
        AcquireEvent::Probed { slot, running: Some(proc) } => acquire_lease(
            m,
            slot,
            proc,
            m.pool[slot as int].pid,
            ticket,
            now,
        ),
        AcquireEvent::Probed { slot, running: None } => acquire_from(
            m.with_slot(slot as int, m.pool[slot as int].forgotten()),
            slot + 1,
            ticket,
            now,
        ),
        AcquireEvent::Spawned { slot, worker: Ok((proc, pid)) } => acquire_lease(
            m,
            slot,
            proc,
            pid,
            ticket,
            now,
        ),
        AcquireEvent::Spawned { slot, worker: Err(e) } => (
            m,
            AcquireStepModel::Failed { error: e@, line: None },
        ),
    }
}

/// Whether `event` can happen: a slot that was probed or for which a process
/// was started is one of the pool, and vacant.
pub open spec fn acquire_can<P>(m: WorkerModel<P>, event: AcquireEvent<P>) -> bool {
    match event {
        AcquireEvent::Probed { slot, .. } => slot < m.pool.len()
            && m.pool[slot as int].is_vacant(),
        AcquireEvent::Spawned { slot, .. } => slot < m.pool.len()
            && m.pool[slot as int].is_vacant(),
        _ => true,
    }
}

impl<P> Worker<P> {
    /// The next step with the slots before `from` behind.
    fn acquire_next(&mut self, from: usize, ticket: &Ticket, now: u128) -> (r: AcquireStep<P>)
        requires
            old(self).wf(),
            old(self)@.pool.len() > 0,
            from <= old(self)@.pool.len(),
        ensures
            final(self).wf(),
            (final(self)@, r@) == acquire_from(old(self)@, from as int, *ticket, now),
    {
        let idle: usize = find_idle(&self.pool, from);
        proof {
            lemma_next_idle(self.pool@, from as int);
        }
        if idle < self.pool.len() {
            let slot = &mut self.pool[idle];
            match slot.proc.take() {
                Some(proc) => {
                    return AcquireStep::Probe { slot: idle, proc };
                },
                None => {},
            }
        }
        let vacant: usize = find_vacant(&self.pool);
        if vacant < self.pool.len() {
            return AcquireStep::Spawn { slot: vacant };
        }
        if now >= ticket.deadline {
            self.record_timeout();
            return AcquireStep::Failed {
                error: WorkerError::Unavailable("worker pool busy timed out".to_string()),
                line: Some(report_busy(ticket.opcode, self.request_timeout)),
            };
        }
        AcquireStep::Sleep { millis: 10 }
    }

    /// Checks `proc` out of a slot.
    fn lease_slot(&mut self, slot: usize, proc: P, pid: u32, ticket: &Ticket, now: u128) -> (r:
        AcquireStep<P>)
        requires
            old(self).wf(),
            slot < old(self)@.pool.len(),
        ensures
            final(self).wf(),
            (final(self)@, r@) == acquire_lease(old(self)@, slot, proc, pid, *ticket, now),
    {
        let s = &mut self.pool[slot];
        s.leased = true;
        s.current = Some(
            CurrentRequest { id: ticket.id, opcode: ticket.opcode, started: now },
        );
        AcquireStep::Leased(Lease { slot_idx: slot, proc: Some(proc), pid, discard: false })
    }

    /// Checks a worker process out of the pool for one request, in steps.
    /// Reuses an idle live worker, or has one started for an empty slot, or,
    /// after the deadline, fails. Only this bookkeeping is done under the lock
    /// of the pool: the exchange with the worker is not, so other requests can
    /// have other workers at the same time.
    pub fn acquire(&mut self, ticket: &Ticket, event: AcquireEvent<P>, now: u128) -> (r:
        AcquireStep<P>)
        requires
            old(self).wf(),
            acquire_can(old(self)@, event),
        ensures
            final(self).wf(),
            (final(self)@, r@) == acquire_step(old(self)@, *ticket, event, now),
    {
        match event {
            AcquireEvent::Start => {
                self.open_pool();
                self.acquire_next(0, ticket, now)
            },
            AcquireEvent::Poisoned => AcquireStep::Failed {
                error: WorkerError::Unavailable("worker pool mutex poisoned".to_string()),
                line: None,
            },
            AcquireEvent::Probed { slot, running } => match running {
                Some(proc) => {
                    let pid: u32 = self.pool[slot].pid;
                    self.lease_slot(slot, proc, pid, ticket, now)
                },
                None => {
                    let s = &mut self.pool[slot];
                    s.pid = 0;
                    self.acquire_next(slot + 1, ticket, now)
                },
            },
            AcquireEvent::Spawned { slot, worker } => match worker {
                Ok(started) => {
                    let (proc, pid) = started;
                    self.lease_slot(slot, proc, pid, ticket, now)
                },
                Err(error) => AcquireStep::Failed { error, line: None },
            },
        }
    }
}

/// A process to reap for `reason`, if there is one.
pub open spec fn reap_for<P>(proc: Option<P>, reason: Seq<char>) -> Option<ReapModel<P>> {
    match proc {
        Some(proc) => Some(ReapModel { proc, reason }),
        None => None,
    }
}

/// The end of a lease: the pool, and the process to reap.
///
/// A process that is still running goes back to its slot, unless it is to be
/// discarded; any other is reaped, and its slot left empty for a fresh start.
/// A discarded one counts as a restart.
pub open spec fn release_step<P>(
    m: WorkerModel<P>,
    lease: Lease<P>,
    alive: bool,
    poison: Poison,
) -> (WorkerModel<P>, Option<ReapModel<P>>) {
    let i = lease.slot_idx as int;
    if poison.pool {
        (m, reap_for(lease.proc, "pool poisoned"@))
    } else if i >= m.pool.len() {
        (m, reap_for(lease.proc, "slot missing"@))
    } else {
        let freed = WorkerSlot { leased: false, current: None, ..m.pool[i] };
        if lease.proc is Some && alive && !lease.discard {
            (m.with_slot(i, WorkerSlot { proc: lease.proc, pid: lease.pid, ..freed }), None)
        } else {
            let emptied = m.with_slot(i, freed.forgotten());
            (
                if lease.proc is Some && lease.discard {
                    emptied.restarted("discarded worker"@, poison)
                } else {
                    emptied
                },
                reap_for(lease.proc, "discarded worker"@),
            )
        }
    }
}

/// The first idle worker taken out of the pool because a response asked for a
/// restart, so that a later request has a fresh one started.
pub open spec fn restart_step<P>(m: WorkerModel<P>, poison: Poison) -> (
    WorkerModel<P>,
    Option<ReapModel<P>>,
) {
    let i = next_idle(m.pool, 0);
    if poison.pool || i >= m.pool.len() {
        (m, None)
    } else {
        (
            m.with_slot(i, m.pool[i].emptied().forgotten()).restarted(
                "restart requested by worker response"@,
                poison,
            ),
            Some(
                ReapModel {
                    proc: m.pool[i].proc->0,
                    reason: "restart requested by worker response"@,
                },
            ),
        )
    }
}

impl<P> Worker<P> {
    /// Ends a lease. `alive` tells that the process is still running. What
    /// comes back is to be killed and reaped.
    pub fn release(&mut self, lease: &mut Lease<P>, alive: bool, poison: Poison) -> (r: Option<
        Reap<P>,
    >)
        requires
            old(self).wf(),
        ensures
            final(self).wf(),
            (final(self)@, reap_model(r)) == release_step(old(self)@, *old(lease), alive, poison),
            *final(lease) == (Lease { proc: None, ..*old(lease) }),
    {
        let proc = lease.proc.take();
        if poison.pool {
            return match proc {
                Some(proc) => Some(Reap { proc, reason: "pool poisoned" }),
                None => None,
            };
        }
        let i: usize = lease.slot_idx;
        if i >= self.pool.len() {
            return match proc {
                Some(proc) => Some(Reap { proc, reason: "slot missing" }),
                None => None,
            };
        }
        let slot = &mut self.pool[i];
        slot.leased = false;
        slot.current = None;
        match proc {
            Some(proc) => {
                if alive && !lease.discard {
                    slot.proc = Some(proc);
                    slot.pid = lease.pid;
                    None
                } else {
                    slot.pid = 0;
                    if lease.discard {
                        self.record_restart("discarded worker", poison);
                    }
                    Some(Reap { proc, reason: "discarded worker" })
                }
            },
            None => {
                slot.pid = 0;
                None
            },
        }
    }

    /// Takes one idle worker out of the pool, because a response asked for a
    /// restart: the next request that needs its slot has a fresh one started.
    pub fn restart_after_delay(&mut self, poison: Poison) -> (r: Option<Reap<P>>)
        requires
            old(self).wf(),
        ensures
            final(self).wf(),
            (final(self)@, reap_model(r)) == restart_step(old(self)@, poison),
    {
        if poison.pool {
            return None;
        }
        let i: usize = find_idle(&self.pool, 0);
        proof {
            lemma_next_idle(self.pool@, 0);
        }
        if i >= self.pool.len() {
            return None;
        }
        let slot = &mut self.pool[i];
        slot.pid = 0;
        match slot.proc.take() {
            Some(proc) => {
                self.record_restart("restart requested by worker response", poison);
                Some(Reap { proc, reason: "restart requested by worker response" })
            },
            None => None,
        }
    }
}

/// Whether `reply` answers the request `id` for `opcode`.
pub open spec fn answers(proto: Protocol, id: u32, opcode: u16, reply: FrameModel) -> bool {
    reply.kind == proto.kind_response && reply.request_id == id && reply.opcode == opcode
}

/// The frame of a request.
pub open spec fn request_frame(proto: Protocol, id: u32, opcode: u16, payload: Seq<u8>) -> FrameModel {
    FrameModel { kind: proto.kind_request, request_id: id, opcode, flags: 0, payload }
}

/// A frame or an error, with payload and text as sequences.
pub open spec fn frame_result(r: Result<Frame, WorkerError>) -> Result<FrameModel, ErrorModel> {
    match r {
        Ok(frame) => Ok(frame@),
        Err(e) => Err(e@),
    }
}

/// What comes of the exchange of the request `id` for `opcode`: the books, the
/// lease, and the answer or why there is none.
pub open spec fn settle_step<P>(
    m: WorkerModel<P>,
    proto: Protocol,
    id: u32,
    opcode: u16,
    outcome: ExchangeModel,
    lease: Lease<P>,
    poison: Poison,
) -> (WorkerModel<P>, Lease<P>, Result<FrameModel, ErrorModel>) {
    let given_up = Lease { discard: true, ..lease };
    match outcome {
        ExchangeModel::WriteFailed(e) => (
            exchange_failed(m, e, poison),
            given_up,
            Err(ErrorModel::Io(e.message)),
        ),
        ExchangeModel::ReadFailed(e) => (
            exchange_failed(m, e, poison),
            given_up,
            Err(ErrorModel::Io(e.message)),
        ),
        ExchangeModel::Reply(frame) => if answers(proto, id, opcode, frame) {
            (m, lease, Ok(frame))
        } else {
            (
                m.failed("mismatched ipc response"@, poison),
                given_up,
                Err(ErrorModel::Protocol("mismatched ipc response"@)),
            )
        },
    }
}

/// A new request at `now`: its frame has the next id, and its deadline is the
/// time that a request may take from now.
pub open spec fn new_call<P>(
    m: WorkerModel<P>,
    proto: Protocol,
    opcode: u16,
    payload: Seq<u8>,
    now: u128,
) -> CallModel {
    CallModel {
        frame: request_frame(proto, m.next_id, opcode, payload),
        deadline: m.deadline_at(now) as u128,
    }
}

/// The books after an exchange that failed.
pub open spec fn exchange_failed<P>(
    m: WorkerModel<P>,
    e: IoFailureModel,
    poison: Poison,
) -> WorkerModel<P> {
    if e.kind == IoKind::TimedOut {
        m.timed_out().failed(e.message, poison)
    } else {
        m.failed(e.message, poison)
    }
}

impl<P> Worker<P> {
    /// A new request at `now`, under the next id. Whatever it spends its time
    /// on, it has until one deadline.
    pub fn request(&mut self, proto: &Protocol, opcode: u16, payload: Vec<u8>, now: u128) -> (r:
        Call)
        requires
            old(self).wf(),
            old(self)@.deadline_at(now) <= u128::MAX,
        ensures
            final(self).wf(),
            final(self)@ == old(self)@.asked(),
            r@ == new_call(old(self)@, *proto, opcode, payload@, now),
    {
        let id: u32 = self.next_id;
        self.next_id = id.wrapping_add(1);
        Call {
            frame: Frame { kind: proto.kind_request, request_id: id, opcode, flags: 0, payload },
            deadline: self.deadline(now),
        }
    }

    /// The call of a request for a worker, from `now` on. For a worker it waits
    /// as long as for all else.
    pub fn ticket(&self, call: &Call, now: u128) -> (r: Ticket)
        requires
            self@.deadline_at(now) <= u128::MAX,
        ensures
            r.id == call@.frame.request_id,
            r.opcode == call@.frame.opcode,
            r.deadline == self@.deadline_at(now),
    {
        Ticket { id: call.frame.request_id, opcode: call.frame.opcode, deadline: self.deadline(now) }
    }

    /// The line to print of an exchange of a request for `opcode`, if there is
    /// one.
    pub fn report(&self, opcode: u16, outcome: &Exchange) -> (r: Option<String>)
        ensures
            var_text(r) == exchange_line(outcome@, opcode, self@.request_timeout),
    {
        report_exchange(outcome, opcode, self.request_timeout)
    }

    /// Takes what came of the exchange of the request `id` for `opcode`. A
    /// worker that failed, or that answered something else, is discarded.
    pub fn settle(
        &mut self,
        proto: &Protocol,
        id: u32,
        opcode: u16,
        outcome: Exchange,
        lease: &mut Lease<P>,
        poison: Poison,
    ) -> (r: Result<Frame, WorkerError>)
        requires
            old(self).wf(),
        ensures
            final(self).wf(),
            match outcome {
                Exchange::WriteFailed(e) => {
                    &&& final(self)@ == exchange_failed(old(self)@, e@, poison)
                    &&& r matches Err(error)
                    &&& error@ == ErrorModel::Io(e@.message)
                },
                Exchange::ReadFailed(e) => {
                    &&& final(self)@ == exchange_failed(old(self)@, e@, poison)
                    &&& r matches Err(error)
                    &&& error@ == ErrorModel::Io(e@.message)
                },
                Exchange::Reply(frame) => if answers(*proto, id, opcode, frame@) {
                    &&& final(self)@ == old(self)@
                    &&& r == Ok::<Frame, WorkerError>(frame)
                } else {
                    &&& final(self)@ == old(self)@.failed("mismatched ipc response"@, poison)
                    &&& r matches Err(error)
                    &&& error@ == ErrorModel::Protocol("mismatched ipc response"@)
                },
            },
            *final(lease) == (Lease { discard: old(lease).discard || r is Err, ..*old(lease) }),
            (final(self)@, *final(lease), frame_result(r)) == settle_step(
                old(self)@,
                *proto,
                id,
                opcode,
                outcome@,
                *old(lease),
                poison,
            ),
    {
        match outcome {
            Exchange::WriteFailed(e) => {
                lease.discard();
                Err(self.fail_exchange(e, poison))
            },
            Exchange::ReadFailed(e) => {
                lease.discard();
                Err(self.fail_exchange(e, poison))
            },
            Exchange::Reply(frame) => {
                if frame.kind != proto.kind_response || frame.request_id != id || frame.opcode
                    != opcode {
                    self.record_error("mismatched ipc response", poison);
                    lease.discard();
                    return Err(WorkerError::Protocol("mismatched ipc response".to_string()));
                }
                Ok(frame)
            },
        }
    }

    fn fail_exchange(&mut self, e: IoFailure, poison: Poison) -> (r: WorkerError)
        ensures
            final(self)@ == exchange_failed(old(self)@, e@, poison),
            r@ == ErrorModel::Io(e@.message),
    {
        if e.kind == IoKind::TimedOut {
            self.record_timeout();
        }
        self.record_error(e.message.as_str(), poison);
        WorkerError::Io(e.message)
    }
}

/// The payload of a request with a JSON value: nothing for `null`, the value
/// as JSON otherwise.
pub open spec fn json_payload(tree: Json) -> Seq<u8> {
    if tree is Null {
        Seq::empty()
    } else {
        crate::json::json_encode(tree)
    }
}

impl<P> Worker<P> {
    /// A new request with a JSON value as its payload. The answer is read by
    /// [`parse_worker_response`].
    pub fn request_json(
        &mut self,
        proto: &Protocol,
        opcode: u16,
        payload: serde_json::Value,
        now: u128,
    ) -> (r: Result<Call, WorkerError>)
        requires
            old(self).wf(),
            old(self)@.deadline_at(now) <= u128::MAX,
        ensures
            final(self).wf(),
            final(self)@ == old(self)@.asked(),
            r matches Ok(call) && call@ == new_call(
                old(self)@,
                *proto,
                opcode,
                json_payload(crate::json::json_tree(payload)),
                now,
            ),
    {
        let bytes: Vec<u8> = if value_is_null(&payload) {
            Vec::new()
        } else {
            match value_to_vec(&payload) {
                Ok(bytes) => bytes,
                Err(e) => {
                    return Err(WorkerError::Protocol(json_error_text(&e)));
                },
            }
        };
        Ok(self.request(proto, opcode, bytes, now))
    }

    /// A new request for the worker's health. The answer is read by
    /// [`parse_worker_response`].
    pub fn health(&mut self, proto: &Protocol, now: u128) -> (r: Result<Call, WorkerError>)
        requires
            old(self).wf(),
            old(self)@.deadline_at(now) <= u128::MAX,
        ensures
            final(self).wf(),
            final(self)@ == old(self)@.asked(),
            r matches Ok(call) && call@ == new_call(
                old(self)@,
                *proto,
                proto.op_health,
                Seq::empty(),
                now,
            ),
    {
        self.request_json(proto, proto.op_health, value_null(), now)
    }

    /// A new request to decrypt samples, whose payload is given as the protocol
    /// encodes it, or as the text of the error where it cannot. The answer is
    /// read by [`Worker::batch_reply`].
    pub fn decrypt_batch(
        &mut self,
        proto: &Protocol,
        payload: Result<Vec<u8>, String>,
        now: u128,
    ) -> (r: Result<Call, WorkerError>)
        requires
            old(self).wf(),
            payload is Ok ==> old(self)@.deadline_at(now) <= u128::MAX,
        ensures
            final(self).wf(),
            match payload {
                Ok(bytes) => {
                    &&& final(self)@ == old(self)@.asked()
                    &&& r matches Ok(call)
                    &&& call@ == new_call(
                        old(self)@,
                        *proto,
                        proto.op_decrypt_batch,
                        bytes@,
                        now,
                    )
                },
                Err(text) => {
                    &&& final(self)@ == old(self)@
                    &&& r == Err::<Call, WorkerError>(WorkerError::Protocol(text))
                },
            },
    {
        match payload {
            Ok(bytes) => Ok(self.request(proto, proto.op_decrypt_batch, bytes, now)),
            Err(text) => Err(WorkerError::Protocol(text)),
        }
    }
}

/// What a worker's answer to a request to decrypt samples amounts to.
#[derive(Debug)]
pub enum BatchReply<P> {
    /// The samples, as the protocol encodes them.
    Samples(Vec<u8>),
    /// The worker did not decrypt them. A process may be left to reap.
    Refused { error: WorkerError, reap: Option<Reap<P>> },
}

/// The samples that the protocol decoded, or the error that it told by its
/// text.
pub fn batch_samples(samples: Result<Vec<Vec<u8>>, String>) -> (r: Result<
    Vec<Vec<u8>>,
    WorkerError,
>)
    ensures
        r == (match samples {
            Ok(samples) => Ok::<Vec<Vec<u8>>, WorkerError>(samples),
            Err(text) => Err(WorkerError::Protocol(text)),
        }),
{
    match samples {
        Ok(samples) => Ok(samples),
        Err(text) => Err(WorkerError::Protocol(text)),
    }
}

/// A [`BatchReply`] with its payload or its text as a sequence.
pub enum BatchReplyModel<P> {
    Samples(Seq<u8>),
    Refused { error: ErrorModel, reap: Option<ReapModel<P>> },
}

impl<P> View for BatchReply<P> {
    type V = BatchReplyModel<P>;

    open spec fn view(&self) -> BatchReplyModel<P> {
        match *self {
            BatchReply::Samples(payload) => BatchReplyModel::Samples(payload@),
            BatchReply::Refused { error, reap } => BatchReplyModel::Refused {
                error: error@,
                reap: reap_model(reap),
            },
        }
    }
}

/// What a worker's answer to a request to decrypt samples comes to: the books,
/// and the samples or why there are none.
pub open spec fn batch_step<P>(m: WorkerModel<P>, frame: FrameModel, poison: Poison) -> (
    WorkerModel<P>,
    BatchReplyModel<P>,
) {
    if frame.flags & 1 == 1 {
        (m, BatchReplyModel::Samples(frame.payload))
    } else {
        match payload_response(frame.payload) {
            Ok(response) => {
                let (after, reap) = refusal_step(m, response.restart_worker, poison);
                (
                    after,
                    BatchReplyModel::Refused {
                        error: ErrorModel::Unavailable(crate::text::utf8_lossy(response.body)),
                        reap,
                    },
                )
            },
            Err(error) => (m, BatchReplyModel::Refused { error, reap: None }),
        }
    }
}

/// The pool after a refusal, and the process to reap: one idle worker gives
/// way where the response asks for a restart.
pub open spec fn refusal_step<P>(m: WorkerModel<P>, restart_worker: bool, poison: Poison) -> (
    WorkerModel<P>,
    Option<ReapModel<P>>,
) {
    if restart_worker {
        restart_step(m, poison)
    } else {
        (m, None)
    }
}

impl<P> Worker<P> {
    /// Takes a response in which a worker says why it did not decrypt: the
    /// error has the body as its text.
    pub fn batch_refused(&mut self, response: WorkerResponse, poison: Poison) -> (r: (
        WorkerError,
        Option<Reap<P>>,
    ))
        requires
            old(self).wf(),
        ensures
            final(self).wf(),
            (final(self)@, reap_model(r.1)) == refusal_step(
                old(self)@,
                response.restart_worker,
                poison,
            ),
            r.0@ == ErrorModel::Unavailable(crate::text::utf8_lossy(response@.body)),
            vstd::utf8::valid_utf8(response@.body) ==> r.0@ == ErrorModel::Unavailable(
                vstd::utf8::decode_utf8(response@.body),
            ),
    {
        let reap = if response.restart_worker {
            self.restart_after_delay(poison)
        } else {
            None
        };
        (WorkerError::Unavailable(text_from_utf8_lossy(response.body.as_slice())), reap)
    }

    /// Takes a worker's answer to a request to decrypt samples. Its lowest flag
    /// tells samples from a response that says why there are none.
    pub fn batch_reply(&mut self, frame: Frame, poison: Poison) -> (r: BatchReply<P>)
        requires
            old(self).wf(),
        ensures
            final(self).wf(),
            if frame.flags & 1 == 1 {
                &&& final(self)@ == old(self)@
                &&& r == BatchReply::<P>::Samples(frame.payload)
            } else {
                &&& r matches BatchReply::Refused { error, reap }
                &&& match payload_response(frame@.payload) {
                    Ok(response) => {
                        &&& (final(self)@, reap_model(reap)) == refusal_step(
                            old(self)@,
                            response.restart_worker,
                            poison,
                        )
                        &&& error@ == ErrorModel::Unavailable(
                            crate::text::utf8_lossy(response.body),
                        )
                        &&& vstd::utf8::valid_utf8(response.body) ==> error@
                            == ErrorModel::Unavailable(vstd::utf8::decode_utf8(response.body))
                    },
                    Err(e) => {
                        &&& final(self)@ == old(self)@
                        &&& reap is None
                        &&& error@ == e
                    },
                }
            },
            (final(self)@, r@) == batch_step(old(self)@, frame@, poison),
    {
        if frame.flags & 1 == 1 {
            return BatchReply::Samples(frame.payload);
        }
        match parse_worker_response(frame) {
            Ok(response) => {
                let (error, reap) = self.batch_refused(response, poison);
                BatchReply::Refused { error, reap }
            },
            Err(error) => BatchReply::Refused { error, reap: None },
        }
    }
}

/// The request that a worker is busy with, for all to see.
#[derive(Debug, Clone, Copy, PartialEq, Eq, Structural)]
pub struct CurrentSnapshot {
    pub id: u32,
    pub opcode: u16,
    pub elapsed_ms: u128,
}

/// The state of the supervisor, for all to see.
#[derive(Debug)]
pub struct Snapshot {
    pub pids: Vec<u32>,
    pub pid: u32,
    pub pool_size: usize,
    pub workers_running: usize,
    pub active_requests: usize,
    pub request_timeout_secs: u64,
    pub restart_count: u32,
    pub timeout_count: u32,
    pub waiting_count: u32,
    pub current_request: Option<CurrentSnapshot>,
    pub last_error: Option<String>,
    pub last_restart_reason: Option<String>,
}

/// A [`Snapshot`] with its text and its process ids as sequences.
pub struct SnapshotModel {
    pub pids: Seq<u32>,
    pub pid: u32,
    pub pool_size: usize,
    pub workers_running: nat,
    pub active_requests: nat,
    pub request_timeout_secs: u64,
    pub restart_count: u32,
    pub timeout_count: u32,
    pub waiting_count: u32,
    pub current_request: Option<CurrentSnapshot>,
    pub last_error: Option<Seq<char>>,
    pub last_restart_reason: Option<Seq<char>>,
}

impl View for Snapshot {
    type V = SnapshotModel;

    open spec fn view(&self) -> SnapshotModel {
        SnapshotModel {
            pids: self.pids@,
            pid: self.pid,
            pool_size: self.pool_size,
            workers_running: self.workers_running as nat,
            active_requests: self.active_requests as nat,
            request_timeout_secs: self.request_timeout_secs,
            restart_count: self.restart_count,
            timeout_count: self.timeout_count,
            waiting_count: self.waiting_count,
            current_request: self.current_request,
            last_error: var_text(self.last_error),
            last_restart_reason: var_text(self.last_restart_reason),
        }
    }
}

impl SnapshotModel {
    /// Whether JSON has a number for all that is told: it has none for a time
    /// of more milliseconds than fit in `u64`.
    pub open spec fn has_json(self) -> bool {
        self.current_request matches Some(c) ==> c.elapsed_ms <= u64::MAX
    }

    /// What is told, as JSON.
    pub open spec fn json(self) -> Json {
        Json::Object(
            map![
                "pids"@ => Json::numbers(self.pids),
                "pid"@ => Json::Unsigned(self.pid as u64),
                "pool_size"@ => Json::Unsigned(self.pool_size as u64),
                "workers_running"@ => Json::Unsigned(self.workers_running as u64),
                "active_requests"@ => Json::Unsigned(self.active_requests as u64),
                "request_timeout_secs"@ => Json::Unsigned(self.request_timeout_secs),
                "restart_count"@ => Json::Unsigned(self.restart_count as u64),
                "timeout_count"@ => Json::Unsigned(self.timeout_count as u64),
                "waiting_count"@ => Json::Unsigned(self.waiting_count as u64),
                "current_request"@ => match self.current_request {
                    Some(c) => Json::Object(
                        map![
                            "id"@ => Json::Unsigned(c.id as u64),
                            "opcode"@ => Json::Unsigned(c.opcode as u64),
                            "elapsed_ms"@ => Json::Unsigned(c.elapsed_ms as u64),
                        ],
                    ),
                    None => Json::Null,
                },
                "last_error"@ => Json::text_or_null(self.last_error),
                "last_restart_reason"@ => Json::text_or_null(self.last_restart_reason),
            ],
        )
    }
}

impl Snapshot {
    /// What is told, as JSON.
    pub fn to_json(self) -> (r: serde_json::Value)
        requires
            self@.has_json(),
        ensures
            crate::json::json_tree(r) == self@.json(),
    {
        let current = match self.current_request {
            Some(c) => {
                let mut v = value_null();
                value_set(&mut v, "id", value_from_u64(c.id as u64));
                value_set(&mut v, "opcode", value_from_u64(c.opcode as u64));
                value_set(&mut v, "elapsed_ms", value_from_u64(c.elapsed_ms as u64));
                v
            },
            None => value_null(),
        };
        let mut v = value_null();
        value_set(&mut v, "pids", value_from_numbers(self.pids));
        value_set(&mut v, "pid", value_from_u64(self.pid as u64));
        value_set(&mut v, "pool_size", value_from_u64(self.pool_size as u64));
        value_set(&mut v, "workers_running", value_from_u64(self.workers_running as u64));
        value_set(&mut v, "active_requests", value_from_u64(self.active_requests as u64));
        value_set(&mut v, "request_timeout_secs", value_from_u64(self.request_timeout_secs));
        value_set(&mut v, "restart_count", value_from_u64(self.restart_count as u64));
        value_set(&mut v, "timeout_count", value_from_u64(self.timeout_count as u64));
        value_set(&mut v, "waiting_count", value_from_u64(self.waiting_count as u64));
        value_set(&mut v, "current_request", current);
        value_set(&mut v, "last_error", value_text_or_null(self.last_error));
        value_set(&mut v, "last_restart_reason", value_text_or_null(self.last_restart_reason));
        v
    }
}

/// Whole milliseconds from `started` to `now`; none where the clock shows an
/// earlier time.
pub open spec fn elapsed_ms(started: u128, now: u128) -> u128 {
    if now >= started {
        ((now - started) / 1_000_000) as u128
    } else {
        0
    }
}

/// What is told of a supervisor at `now`. A pool whose lock is poisoned is
/// shown as if it had no slots; the last error and the last restart are not
/// shown where theirs is.
pub open spec fn snapshot_of<P>(m: WorkerModel<P>, poison: Poison, now: u128) -> SnapshotModel {
    let pool = if poison.pool {
        Seq::empty()
    } else {
        m.pool
    };
    SnapshotModel {
        pids: known_pids(pool),
        pid: if known_pids(pool).len() > 0 {
            known_pids(pool)[0]
        } else {
            0
        },
        pool_size: m.pool_size,
        workers_running: running_count(pool),
        active_requests: leased_count(pool),
        request_timeout_secs: m.request_timeout,
        restart_count: m.restart_count,
        timeout_count: m.timeout_count,
        waiting_count: m.waiting_count,
        current_request: match first_current(pool) {
            Some(c) => Some(
                CurrentSnapshot {
                    id: c.id,
                    opcode: c.opcode,
                    elapsed_ms: elapsed_ms(c.started, now),
                },
            ),
            None => None,
        },
        last_error: if poison.state {
            None
        } else {
            m.last_error
        },
        last_restart_reason: if poison.state {
            None
        } else {
            m.last_restart_reason
        },
    }
}

impl<P> Worker<P> {
    /// The state of the supervisor at `now`, for all to see, as far as its
    /// locks are not poisoned.
    pub fn status(&self, now: u128, poison: Poison) -> (r: Snapshot)
        requires
            self.wf(),
        ensures
            r@ == snapshot_of(self@, poison, now),
    {
        let none: Vec<WorkerSlot<P>> = Vec::new();
        let pool: &Vec<WorkerSlot<P>> = if poison.pool {
            &none
        } else {
            &self.pool
        };
        let pids: Vec<u32> = collect_pids(pool);
        let pid: u32 = if pids.len() > 0 {
            pids[0]
        } else {
            0
        };
        let current_request: Option<CurrentSnapshot> = match find_current(pool) {
            Some(c) => {
                let elapsed_ms: u128 = if now >= c.started {
                    (now - c.started) / 1_000_000
                } else {
                    0
                };
                Some(CurrentSnapshot { id: c.id, opcode: c.opcode, elapsed_ms })
            },
            None => None,
        };
        Snapshot {
            pid,
            pool_size: self.pool_size,
            workers_running: count_running(pool),
            active_requests: count_leased(pool),
            request_timeout_secs: self.request_timeout,
            restart_count: self.restart_count,
            timeout_count: self.timeout_count,
            waiting_count: self.waiting_count,
            current_request,
            last_error: if poison.state {
                None
            } else {
                self.state.last_error.clone()
            },
            last_restart_reason: if poison.state {
                None
            } else {
                self.state.last_restart_reason.clone()
            },
            pids,
        }
    }

    /// The state of the supervisor at `now`, as JSON.
    pub fn snapshot(&self, now: u128, poison: Poison) -> (r: serde_json::Value)
        requires
            self.wf(),
            snapshot_of(self@, poison, now).has_json(),
        ensures
            crate::json::json_tree(r) == snapshot_of(self@, poison, now).json(),
    {
        self.status(now, poison).to_json()
    }

    /// The program that starts a worker.
    pub fn launcher(&self) -> (r: &str)
        ensures
            r@ == self@.launcher,
    {
        self.launcher.as_str()
    }

    /// When a request that starts at `now` has run out of time.
    pub fn deadline(&self, now: u128) -> (r: u128)
        requires
            self@.deadline_at(now) <= u128::MAX,
        ensures
            r == self@.deadline_at(now),
    {
        now + self.request_timeout as u128 * 1_000_000_000
    }

    /// How long a request may take, in seconds.
    pub fn request_timeout(&self) -> (r: u64)
        ensures
            r == self@.request_timeout,
    {
        self.request_timeout
    }
}

} // verus!
