//! The pipes to a worker: waiting for them under a deadline, and writing to
//! them piece by piece.
//!
//! Instants are nanoseconds on a clock that never goes back.

use vstd::prelude::*;
use vstd::slice::slice_subrange;

use crate::error::{ErrorModel, IoFailure, IoFailureModel, IoKind, WorkerError};

verus! {

/// The two pipes between the supervisor and a worker.
#[derive(Debug, Clone, Copy, PartialEq, Eq, Structural)]
pub enum Pipe {
    /// What the supervisor writes to.
    Stdin,
    /// What the supervisor reads from.
    Stdout,
}

impl Pipe {
    /// What is said of a pipe that the worker has closed.
    pub open spec fn closed_text(self) -> Seq<char> {
        match self {
            Pipe::Stdin => "worker stdin closed"@,
            Pipe::Stdout => "worker stdout closed"@,
        }
    }

    /// What is said of a pipe that a fresh worker came without.
    pub open spec fn unavailable_text(self) -> Seq<char> {
        match self {
            Pipe::Stdin => "worker stdin unavailable"@,
            Pipe::Stdout => "worker stdout unavailable"@,
        }
    }

    /// What is said of a pipe that the worker has closed.
    pub fn closed_message(self) -> (r: &'static str)
        ensures
            r@ == self.closed_text(),
    {
        match self {
            Pipe::Stdin => "worker stdin closed",
            Pipe::Stdout => "worker stdout closed",
        }
    }

    /// The error where a fresh worker came without this pipe.
    pub fn unavailable(self) -> (r: WorkerError)
        ensures
            r@ == ErrorModel::Io(self.unavailable_text()),
    {
        let text = match self {
            Pipe::Stdin => "worker stdin unavailable",
            Pipe::Stdout => "worker stdout unavailable",
        };
        WorkerError::Io(text.to_string())
    }
}

/// The file status flags that make a descriptor non-blocking, from the flags
/// that it has; `None` where they could not be read.
pub fn set_nonblocking(flags: i32, nonblock: i32) -> (r: Option<i32>)
    ensures
        r == (if flags < 0 {
            None
        } else {
            Some(flags | nonblock)
        }),
{
    if flags < 0 {
        None
    } else {
        Some(flags | nonblock)
    }
}

/// The bits by which a poll reports that a descriptor is of no more use.
#[derive(Debug, Clone, Copy, PartialEq, Eq, Structural)]
pub struct PollBits {
    pub err: i16,
    pub hup: i16,
    pub nval: i16,
}

impl PollBits {
    /// Whether `revents` has one of these bits.
    pub open spec fn any_in(self, revents: i16) -> bool {
        revents & (self.err | self.hup | self.nval) != 0
    }
}

/// What happened last while a pipe is waited for.
#[derive(Debug)]
pub enum WaitEvent {
    /// Nothing yet.
    Start,
    /// A poll returned `count`, with `revents` for the descriptor, and with
    /// `error` as the last error of the system.
    Polled { count: i32, revents: i16, error: IoFailure },
}

/// What to do next while a pipe is waited for.
#[derive(Debug)]
pub enum WaitStep {
    /// Poll the descriptor for at most this many milliseconds.
    Poll { timeout_ms: i32 },
    /// Start again, by a fresh look at the clock.
    Retry,
    /// The pipe can be used.
    Ready,
    /// The wait is over.
    Failed(IoFailure),
}

/// The failure of a wait that has reached its deadline.
pub open spec fn wait_timed_out() -> IoFailureModel {
    IoFailureModel { kind: IoKind::TimedOut, message: "worker ipc response timed out"@ }
}

/// The longest poll that does not outlast `deadline`, in whole milliseconds
/// and within `i32`.
pub open spec fn poll_timeout(now: u128, deadline: u128) -> int {
    let left = (deadline - now) / 1_000_000;
    if left < i32::MAX {
        left
    } else {
        i32::MAX as int
    }
}

/// A [`WaitStep`] with the text of a failure as a sequence of characters.
pub enum WaitStepModel {
    Poll { timeout_ms: i32 },
    Retry,
    Ready,
    Failed(IoFailureModel),
}

impl View for WaitStep {
    type V = WaitStepModel;

    open spec fn view(&self) -> WaitStepModel {
        match self {
            WaitStep::Poll { timeout_ms } => WaitStepModel::Poll { timeout_ms: *timeout_ms },
            WaitStep::Retry => WaitStepModel::Retry,
            WaitStep::Ready => WaitStepModel::Ready,
            WaitStep::Failed(e) => WaitStepModel::Failed(e@),
        }
    }
}

/// One decision in waiting for `pipe` until `deadline`: poll while there is
/// time left, fail once there is none or once the pipe is closed.
pub open spec fn wait_step(
    pipe: Pipe,
    bits: PollBits,
    event: WaitEvent,
    now: u128,
    deadline: u128,
) -> WaitStepModel {
    match event {
        WaitEvent::Start => if now >= deadline {
            WaitStepModel::Failed(wait_timed_out())
        } else {
            WaitStepModel::Poll { timeout_ms: poll_timeout(now, deadline) as i32 }
        },
        WaitEvent::Polled { count, revents, error } => if count > 0 {
            if bits.any_in(revents) {
                WaitStepModel::Failed(
                    IoFailureModel { kind: IoKind::UnexpectedEof, message: pipe.closed_text() },
                )
            } else {
                WaitStepModel::Ready
            }
        } else if count == 0 {
            WaitStepModel::Failed(wait_timed_out())
        } else if error.kind != IoKind::Interrupted {
            WaitStepModel::Failed(error@)
        } else if now >= deadline {
            WaitStepModel::Failed(wait_timed_out())
        } else {
            WaitStepModel::Retry
        },
    }
}

/// One decision in waiting for `pipe` until `deadline`.
pub fn wait_fd(
    pipe: Pipe,
    bits: PollBits,
    event: WaitEvent,
    now: u128,
    deadline: u128,
) -> (r: WaitStep)
    ensures
        r@ == wait_step(pipe, bits, event, now, deadline),
{
    match event {
        WaitEvent::Start => {
            if now >= deadline {
                return WaitStep::Failed(
                    IoFailure::new(IoKind::TimedOut, "worker ipc response timed out"),
                );
            }
            let left: u128 = (deadline - now) / 1_000_000;
            let timeout_ms: i32 = if left < i32::MAX as u128 {
                left as i32
            } else {
                i32::MAX
            };
            WaitStep::Poll { timeout_ms }
        },
        WaitEvent::Polled { count, revents, error } => {
            if count > 0 {
                if revents & (bits.err | bits.hup | bits.nval) != 0 {
                    return WaitStep::Failed(
                        IoFailure::new(IoKind::UnexpectedEof, pipe.closed_message()),
                    );
                }
                return WaitStep::Ready;
            }
            if count == 0 {
                return WaitStep::Failed(
                    IoFailure::new(IoKind::TimedOut, "worker ipc response timed out"),
                );
            }
            if error.kind != IoKind::Interrupted {
                return WaitStep::Failed(error);
            }
            if now >= deadline {
                return WaitStep::Failed(
                    IoFailure::new(IoKind::TimedOut, "worker ipc response timed out"),
                );
            }
            WaitStep::Retry
        },
    }
}

/// A poll never outlasts the deadline, nor falls a whole millisecond short of
/// it unless `i32` cannot hold the wait.
pub proof fn law_poll_within_deadline(now: u128, deadline: u128)
    requires
        now < deadline,
    ensures
        0 <= poll_timeout(now, deadline) <= i32::MAX,
        now + poll_timeout(now, deadline) * 1_000_000 <= deadline,
        poll_timeout(now, deadline) < i32::MAX ==> deadline < now + (poll_timeout(now, deadline)
            + 1) * 1_000_000,
{
}

/// What came of one attempt to write to a worker.
#[derive(Debug)]
pub enum WriteEvent {
    /// This many of the pending bytes were taken.
    Wrote(usize),
    /// The attempt failed.
    Failed(IoFailure),
}

/// Bytes on their way to a worker, in as many writes as it takes.
pub struct FrameWriter {
    bytes: Vec<u8>,
    sent: usize,
}

impl FrameWriter {
    /// All of the bytes.
    pub closed spec fn bytes(&self) -> Seq<u8> {
        self.bytes@
    }

    /// How many of the bytes have been written.
    pub closed spec fn sent(&self) -> int {
        self.sent as int
    }

    /// No more has been written than there is.
    pub open spec fn wf(&self) -> bool {
        0 <= self.sent() <= self.bytes().len()
    }

    /// A writer that has written nothing.
    pub fn new(bytes: Vec<u8>) -> (r: FrameWriter)
        ensures
            r.wf(),
            r.bytes() == bytes@,
            r.sent() == 0,
    {
        FrameWriter { bytes, sent: 0 }
    }

    /// Whether all of the bytes have been written.
    pub fn is_done(&self) -> (r: bool)
        requires
            self.wf(),
        ensures
            r == (self.sent() == self.bytes().len()),
    {
        self.sent == self.bytes.len()
    }

    /// The bytes that the next write has to offer.
    pub fn pending(&self) -> (r: &[u8])
        requires
            self.wf(),
        ensures
            r@ == self.bytes().skip(self.sent()),
    {
        slice_subrange(self.bytes.as_slice(), self.sent, self.bytes.len())
    }

    /// Takes what came of a write of the pending bytes.
    ///
    /// A write that was interrupted or would have blocked is to be tried
    /// again; any other failure ends the writing, and so does a write that
    /// takes nothing.
    pub fn wrote(&mut self, event: WriteEvent) -> (r: Result<(), IoFailure>)
        requires
            old(self).wf(),
            old(self).sent() < old(self).bytes().len(),
            event matches WriteEvent::Wrote(n) ==> n <= old(self).bytes().len() - old(self).sent(),
        ensures
            final(self).wf(),
            final(self).bytes() == old(self).bytes(),
            match event {
                WriteEvent::Wrote(n) => {
                    &&& final(self).sent() == old(self).sent() + n
                    &&& if n == 0 {
                        r matches Err(e) && e@ == (IoFailureModel {
                            kind: IoKind::WriteZero,
                            message: Pipe::Stdin.closed_text(),
                        })
                    } else {
                        r is Ok
                    }
                },
                WriteEvent::Failed(e) => {
                    &&& final(self).sent() == old(self).sent()
                    &&& if e.kind == IoKind::Interrupted || e.kind == IoKind::WouldBlock {
                        r is Ok
                    } else {
                        r == Err::<(), IoFailure>(e)
                    }
                },
            },
    {
        match event {
            WriteEvent::Wrote(n) => {
                if n == 0 {
                    return Err(IoFailure::new(IoKind::WriteZero, Pipe::Stdin.closed_message()));
                }
                assert(self.sent + n <= self.bytes.len());
                self.sent = self.sent + n;
                Ok(())
            },
            WriteEvent::Failed(e) => {
                if e.kind == IoKind::Interrupted || e.kind == IoKind::WouldBlock {
                    Ok(())
                } else {
                    Err(e)
                }
            },
        }
    }
}

/// The number of bytes in writes of these sizes.
pub open spec fn write_total(counts: Seq<nat>) -> nat
    decreases counts.len(),
{
    if counts.len() == 0 {
        0
    } else {
        counts[0] + write_total(counts.drop_first())
    }
}

/// What arrives when `bytes` are written from `sent` on, each write offering
/// the bytes after those already written and taking as many as `counts` says.
pub open spec fn write_stream(bytes: Seq<u8>, sent: int, counts: Seq<nat>) -> Seq<u8>
    decreases counts.len(),
{
    if counts.len() == 0 {
        Seq::empty()
    } else {
        bytes.skip(sent).take(counts[0] as int) + write_stream(
            bytes,
            sent + counts[0],
            counts.drop_first(),
        )
    }
}

/// However a write is cut up, what has arrived is the beginning of what was to
/// be written, in its order and with nothing twice; once as many bytes are
/// through as there are, it is all of them.
pub proof fn law_write_in_order(bytes: Seq<u8>, sent: int, counts: Seq<nat>)
    requires
        0 <= sent,
        sent + write_total(counts) <= bytes.len(),
    ensures
        write_stream(bytes, sent, counts) == bytes.subrange(
            sent,
            sent + write_total(counts) as int,
        ),
        sent == 0 && write_total(counts) == bytes.len() ==> write_stream(bytes, sent, counts)
            == bytes,
    decreases counts.len(),
{
    if counts.len() > 0 {
        law_write_in_order(bytes, sent + counts[0], counts.drop_first());
    }
    assert(write_stream(bytes, sent, counts) =~= bytes.subrange(
        sent,
        sent + write_total(counts) as int,
    ));
}

} // verus!
