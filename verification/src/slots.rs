//! The slots of the worker pool.
//!
//! A process is whatever the caller knows a worker process by; the pool only
//! keeps it and hands it out.

use vstd::prelude::*;

verus! {

/// The request that a worker is busy with.
#[derive(Debug, Clone, Copy, PartialEq, Eq, Structural)]
pub struct CurrentRequest {
    pub id: u32,
    pub opcode: u16,
    /// When the worker was checked out, in nanoseconds.
    pub started: u128,
}

/// One slot in the worker pool. `proc` is None when the slot is empty (never
/// spawned yet, or its process is currently leased out for an in-flight
/// request). `leased` marks a request that has checked the process out.
#[derive(Debug)]
pub struct WorkerSlot<P> {
    pub proc: Option<P>,
    pub pid: u32,
    pub leased: bool,
    pub current: Option<CurrentRequest>,
}

impl<P> WorkerSlot<P> {
    /// A process is there and nobody uses it.
    pub open spec fn is_idle(self) -> bool {
        !self.leased && self.proc is Some
    }

    /// No process is there, and none is out.
    pub open spec fn is_vacant(self) -> bool {
        !self.leased && self.proc is None
    }

    /// The slot as it is before any process was started.
    pub open spec fn untouched() -> WorkerSlot<P> {
        WorkerSlot { proc: None, pid: 0, leased: false, current: None }
    }

    /// What holds of a slot between requests and during one: a leased slot
    /// has given its process away and knows the request, any other has no
    /// request; an empty one has no process id, and one with an idle process
    /// has its id.
    pub open spec fn tidy(self) -> bool {
        &&& self.leased ==> self.proc is None
        &&& self.leased <==> self.current is Some
        &&& self.is_vacant() ==> self.pid == 0
        &&& self.is_idle() ==> self.pid != 0
    }

    /// The slot without its process.
    pub open spec fn emptied(self) -> WorkerSlot<P> {
        WorkerSlot { proc: None, ..self }
    }

    /// The slot without a process id.
    pub open spec fn forgotten(self) -> WorkerSlot<P> {
        WorkerSlot { pid: 0, ..self }
    }

    /// The slot as checked out for `request`.
    pub open spec fn checked_out(self, request: CurrentRequest) -> WorkerSlot<P> {
        WorkerSlot { leased: true, current: Some(request), ..self }
    }
}

/// The slots of a pool of `n` before any process was started.
pub open spec fn untouched_pool<P>(n: nat) -> Seq<WorkerSlot<P>> {
    Seq::new(n, |i: int| WorkerSlot::untouched())
}

/// The first slot from `from` on whose process is idle; the number of slots
/// where there is none.
pub open spec fn next_idle<P>(pool: Seq<WorkerSlot<P>>, from: int) -> int
    decreases pool.len() - from,
{
    if from >= pool.len() {
        pool.len() as int
    } else if pool[from].is_idle() {
        from
    } else {
        next_idle(pool, from + 1)
    }
}

/// The first slot from `from` on that is vacant; the number of slots where
/// there is none.
pub open spec fn next_vacant<P>(pool: Seq<WorkerSlot<P>>, from: int) -> int
    decreases pool.len() - from,
{
    if from >= pool.len() {
        pool.len() as int
    } else if pool[from].is_vacant() {
        from
    } else {
        next_vacant(pool, from + 1)
    }
}

/// `next_idle` is the first of its kind.
pub proof fn lemma_next_idle<P>(pool: Seq<WorkerSlot<P>>, from: int)
    requires
        0 <= from <= pool.len(),
    ensures
        from <= next_idle(pool, from) <= pool.len(),
        next_idle(pool, from) < pool.len() ==> pool[next_idle(pool, from)].is_idle(),
        forall|i: int| from <= i < next_idle(pool, from) ==> !(#[trigger] pool[i]).is_idle(),
    decreases pool.len() - from,
{
    if from < pool.len() && !pool[from].is_idle() {
        lemma_next_idle(pool, from + 1);
    }
}

/// The slots of a pool of `n` before any process was started.
pub(crate) fn new_slots<P>(n: usize) -> (r: Vec<WorkerSlot<P>>)
    ensures
        r@ == untouched_pool::<P>(n as nat),
{
    let mut slots: Vec<WorkerSlot<P>> = Vec::new();
    let mut i: usize = 0;
    while i < n
        invariant
            i <= n,
            slots@ =~= untouched_pool::<P>(i as nat),
        decreases n - i,
    {
        slots.push(WorkerSlot { proc: None, pid: 0, leased: false, current: None });
        i = i + 1;
    }
    slots
}

pub(crate) fn find_idle<P>(pool: &Vec<WorkerSlot<P>>, from: usize) -> (r: usize)
    requires
        from <= pool.len(),
    ensures
        r == next_idle(pool@, from as int),
        r <= pool.len(),
{
    let mut i: usize = from;
    while i < pool.len()
        invariant
            i <= pool.len(),
            next_idle(pool@, i as int) == next_idle(pool@, from as int),
        decreases pool.len() - i,
    {
        if !pool[i].leased && pool[i].proc.is_some() {
            return i;
        }
        i = i + 1;
    }
    i
}

pub(crate) fn find_vacant<P>(pool: &Vec<WorkerSlot<P>>) -> (r: usize)
    ensures
        r == next_vacant(pool@, 0),
        r <= pool.len(),
{
    let mut i: usize = 0;
    while i < pool.len()
        invariant
            i <= pool.len(),
            next_vacant(pool@, i as int) == next_vacant(pool@, 0),
        decreases pool.len() - i,
    {
        if !pool[i].leased && pool[i].proc.is_none() {
            return i;
        }
        i = i + 1;
    }
    i
}

/// The process ids that are known, in the order of the slots.
pub open spec fn known_pids<P>(pool: Seq<WorkerSlot<P>>) -> Seq<u32> {
    pool.filter(|s: WorkerSlot<P>| s.pid != 0).map_values(|s: WorkerSlot<P>| s.pid)
}

/// The number of slots whose process is in the pool.
pub open spec fn running_count<P>(pool: Seq<WorkerSlot<P>>) -> nat {
    pool.filter(|s: WorkerSlot<P>| s.proc is Some).len()
}

/// The number of slots that a request has checked out.
pub open spec fn leased_count<P>(pool: Seq<WorkerSlot<P>>) -> nat {
    pool.filter(|s: WorkerSlot<P>| s.leased).len()
}

/// The request of the first slot that is checked out.
pub open spec fn first_current<P>(pool: Seq<WorkerSlot<P>>) -> Option<CurrentRequest>
    decreases pool.len(),
{
    if pool.len() == 0 {
        None
    } else if pool[0].leased {
        pool[0].current
    } else {
        first_current(pool.drop_first())
    }
}

pub(crate) fn collect_pids<P>(pool: &Vec<WorkerSlot<P>>) -> (r: Vec<u32>)
    ensures
        r@ == known_pids(pool@),
{
    let mut pids: Vec<u32> = Vec::new();
    let mut i: usize = 0;
    assert(pool@.take(0) =~= Seq::<WorkerSlot<P>>::empty());
    proof {
        reveal(Seq::filter);
    }
    assert(known_pids(pool@.take(0)) =~= Seq::<u32>::empty());
    while i < pool.len()
        invariant
            i <= pool.len(),
            pids@ == known_pids(pool@.take(i as int)),
        decreases pool.len() - i,
    {
        proof {
            reveal(Seq::filter);
            assert(pool@.take(i + 1).drop_last() =~= pool@.take(i as int));
            assert(known_pids(pool@.take(i + 1)) =~= if pool@[i as int].pid != 0 {
                known_pids(pool@.take(i as int)).push(pool@[i as int].pid)
            } else {
                known_pids(pool@.take(i as int))
            });
        }
        if pool[i].pid != 0 {
            pids.push(pool[i].pid);
        }
        i = i + 1;
    }
    assert(pool@.take(pool.len() as int) =~= pool@);
    pids
}

pub(crate) fn count_running<P>(pool: &Vec<WorkerSlot<P>>) -> (r: usize)
    ensures
        r == running_count(pool@),
{
    let mut n: usize = 0;
    let mut i: usize = 0;
    assert(pool@.take(0) =~= Seq::<WorkerSlot<P>>::empty());
    proof {
        reveal(Seq::filter);
    }
    while i < pool.len()
        invariant
            i <= pool.len(),
            n <= i,
            n == running_count(pool@.take(i as int)),
        decreases pool.len() - i,
    {
        proof {
            reveal(Seq::filter);
            assert(pool@.take(i + 1).drop_last() =~= pool@.take(i as int));
        }
        if pool[i].proc.is_some() {
            n = n + 1;
        }
        i = i + 1;
    }
    assert(pool@.take(pool.len() as int) =~= pool@);
    n
}

pub(crate) fn count_leased<P>(pool: &Vec<WorkerSlot<P>>) -> (r: usize)
    ensures
        r == leased_count(pool@),
{
    let mut n: usize = 0;
    let mut i: usize = 0;
    assert(pool@.take(0) =~= Seq::<WorkerSlot<P>>::empty());
    proof {
        reveal(Seq::filter);
    }
    while i < pool.len()
        invariant
            i <= pool.len(),
            n <= i,
            n == leased_count(pool@.take(i as int)),
        decreases pool.len() - i,
    {
        proof {
            reveal(Seq::filter);
            assert(pool@.take(i + 1).drop_last() =~= pool@.take(i as int));
        }
        if pool[i].leased {
            n = n + 1;
        }
        i = i + 1;
    }
    assert(pool@.take(pool.len() as int) =~= pool@);
    n
}

pub(crate) fn find_current<P>(pool: &Vec<WorkerSlot<P>>) -> (r: Option<CurrentRequest>)
    ensures
        r == first_current(pool@),
{
    let mut i: usize = 0;
    assert(pool@.skip(0) =~= pool@);
    while i < pool.len()
        invariant
            i <= pool.len(),
            first_current(pool@.skip(i as int)) == first_current(pool@),
        decreases pool.len() - i,
    {
        assert(pool@.skip(i as int).drop_first() =~= pool@.skip(i + 1));
        if pool[i].leased {
            return pool[i].current;
        }
        i = i + 1;
    }
    None
}

} // verus!
