//! The exchange of one request with a worker: the frame is written, then a
//! frame is read.
//!
//! The caller does with the pipes what is asked for, and reports what came of
//! it. However often the pipes are waited for, a request has one deadline.
//! Instants are nanoseconds on a clock that never goes back.

use vstd::prelude::*;

use crate::error::{IoFailure, IoFailureModel, IoKind};
use crate::frame::{
    encode_frame, frame_bytes, frame_status, frame_wanted, law_frame_prefix_pending,
    law_frame_roundtrip, Frame, FrameModel, FrameReader, FrameStatus, Protocol, ReadEvent,
    ReadProgress,
};
use crate::pipe::{
    law_poll_within_deadline, wait_fd, wait_step, wait_timed_out, FrameWriter, Pipe,
    PollBits, WaitEvent, WaitStep, WaitStepModel, WriteEvent,
};

verus! {

/// What came of the exchange of a request with its worker.
#[derive(Debug)]
pub enum Exchange {
    /// The request could not be written.
    WriteFailed(IoFailure),
    /// No response could be read.
    ReadFailed(IoFailure),
    /// A frame came back.
    Reply(Frame),
}

/// An [`Exchange`] with text and payload as sequences.
pub enum ExchangeModel {
    WriteFailed(IoFailureModel),
    ReadFailed(IoFailureModel),
    Reply(FrameModel),
}

impl View for Exchange {
    type V = ExchangeModel;

    open spec fn view(&self) -> ExchangeModel {
        match self {
            Exchange::WriteFailed(e) => ExchangeModel::WriteFailed(e@),
            Exchange::ReadFailed(e) => ExchangeModel::ReadFailed(e@),
            Exchange::Reply(f) => ExchangeModel::Reply(f@),
        }
    }
}

/// What the exchange asks for next.
pub enum Phase {
    /// Wait until the worker's standard input can be written.
    AwaitWrite(FrameWriter),
    /// Write to it what is pending.
    Writing(FrameWriter),
    /// Flush it.
    Flushing,
    /// Wait until the worker's standard output can be read.
    AwaitRead(FrameReader),
    /// Read from it as much as is wanted, or less.
    Reading(FrameReader),
    /// Nothing: this came of the exchange.
    Over(Exchange),
}

/// A [`Phase`] as what has been written and read.
pub enum PhaseModel {
    AwaitWrite { bytes: Seq<u8>, sent: int },
    Writing { bytes: Seq<u8>, sent: int },
    Flushing,
    AwaitRead { received: Seq<u8> },
    Reading { received: Seq<u8> },
    Over(ExchangeModel),
}

impl View for Phase {
    type V = PhaseModel;

    open spec fn view(&self) -> PhaseModel {
        match self {
            Phase::AwaitWrite(w) => PhaseModel::AwaitWrite { bytes: w.bytes(), sent: w.sent() },
            Phase::Writing(w) => PhaseModel::Writing { bytes: w.bytes(), sent: w.sent() },
            Phase::Flushing => PhaseModel::Flushing,
            Phase::AwaitRead(r) => PhaseModel::AwaitRead { received: r@ },
            Phase::Reading(r) => PhaseModel::Reading { received: r@ },
            Phase::Over(x) => PhaseModel::Over(x@),
        }
    }
}

impl Phase {
    /// What holds of a phase of this protocol: as long as it asks for
    /// something, there is something left to write or to read.
    pub open spec fn wf(&self, proto: Protocol) -> bool {
        match self {
            Phase::AwaitWrite(w) => w.wf() && w.sent() < w.bytes().len(),
            Phase::Writing(w) => w.wf() && w.sent() < w.bytes().len(),
            Phase::AwaitRead(r) => r.protocol() == proto && r.is_pending(),
            Phase::Reading(r) => r.protocol() == proto && r.is_pending(),
            _ => true,
        }
    }
}

/// What came of what a phase asked for.
#[derive(Debug)]
pub enum PhaseEvent {
    /// A wait is over.
    Waited(Result<(), IoFailure>),
    /// A write was tried.
    Wrote(WriteEvent),
    /// A flush was tried.
    Flushed(Result<(), IoFailure>),
    /// A read was tried.
    Read(ReadEvent),
}

/// Whether `event` is what `phase` asked for, within what it offered.
pub open spec fn phase_asks(phase: PhaseModel, event: PhaseEvent) -> bool {
    match phase {
        PhaseModel::AwaitWrite { .. } => event is Waited,
        PhaseModel::Writing { bytes, sent } => match event {
            PhaseEvent::Wrote(WriteEvent::Wrote(n)) => n <= bytes.len() - sent,
            PhaseEvent::Wrote(WriteEvent::Failed(_)) => true,
            _ => false,
        },
        PhaseModel::Flushing => event is Flushed,
        PhaseModel::AwaitRead { .. } => event is Waited,
        PhaseModel::Reading { received } => match event {
            PhaseEvent::Read(ReadEvent::Data(data)) => data@.len() <= frame_wanted(received),
            PhaseEvent::Read(ReadEvent::Failed(_)) => true,
            _ => false,
        },
        PhaseModel::Over(_) => false,
    }
}

/// Whether an attempt that failed like this is to be made again.
pub open spec fn is_transient(e: IoFailure) -> bool {
    e.kind == IoKind::Interrupted || e.kind == IoKind::WouldBlock
}

/// The phase in which a request is first.
pub open spec fn phase_first(proto: Protocol, request: FrameModel) -> PhaseModel {
    if request.payload.len() > u32::MAX {
        PhaseModel::Over(
            ExchangeModel::WriteFailed(
                IoFailureModel { kind: IoKind::InvalidInput, message: "payload too large"@ },
            ),
        )
    } else {
        PhaseModel::AwaitWrite { bytes: frame_bytes(proto, request), sent: 0 }
    }
}

/// The phase after a write of `n` more bytes.
pub open spec fn phase_written(bytes: Seq<u8>, sent: int, n: int) -> PhaseModel {
    if n == 0 {
        PhaseModel::Over(
            ExchangeModel::WriteFailed(
                IoFailureModel { kind: IoKind::WriteZero, message: Pipe::Stdin.closed_text() },
            ),
        )
    } else if sent + n == bytes.len() {
        PhaseModel::Flushing
    } else {
        PhaseModel::AwaitWrite { bytes, sent: sent + n }
    }
}

/// The phase after a read of `data`.
pub open spec fn phase_received(proto: Protocol, received: Seq<u8>, data: Seq<u8>) -> PhaseModel {
    if data.len() == 0 {
        PhaseModel::Over(
            ExchangeModel::ReadFailed(
                IoFailureModel {
                    kind: IoKind::UnexpectedEof,
                    message: Pipe::Stdout.closed_text(),
                },
            ),
        )
    } else {
        match frame_status(proto, received + data) {
            FrameStatus::Incomplete => PhaseModel::AwaitRead { received: received + data },
            FrameStatus::Failed(e) => PhaseModel::Over(ExchangeModel::ReadFailed(e)),
            FrameStatus::Complete(f) => PhaseModel::Over(ExchangeModel::Reply(f)),
        }
    }
}

/// The phase after a wait.
pub open spec fn phase_waited(phase: PhaseModel, outcome: Result<(), IoFailureModel>) -> PhaseModel {
    match (phase, outcome) {
        (PhaseModel::AwaitWrite { bytes, sent }, Ok(_)) => PhaseModel::Writing { bytes, sent },
        (PhaseModel::AwaitWrite { .. }, Err(e)) => PhaseModel::Over(ExchangeModel::WriteFailed(e)),
        (PhaseModel::AwaitRead { received }, Ok(_)) => PhaseModel::Reading { received },
        (PhaseModel::AwaitRead { .. }, Err(e)) => PhaseModel::Over(ExchangeModel::ReadFailed(e)),
        _ => phase,
    }
}

/// The phase that follows `phase` by `event`.
pub open spec fn phase_next(proto: Protocol, phase: PhaseModel, event: PhaseEvent) -> PhaseModel {
    match (phase, event) {
        (_, PhaseEvent::Waited(Ok(_))) => phase_waited(phase, Ok(())),
        (_, PhaseEvent::Waited(Err(e))) => phase_waited(phase, Err(e@)),
        (PhaseModel::Writing { bytes, sent }, PhaseEvent::Wrote(WriteEvent::Wrote(n))) => {
            phase_written(bytes, sent, n as int)
        },
        (PhaseModel::Writing { bytes, sent }, PhaseEvent::Wrote(WriteEvent::Failed(e))) => {
            if is_transient(e) {
                PhaseModel::AwaitWrite { bytes, sent }
            } else {
                PhaseModel::Over(ExchangeModel::WriteFailed(e@))
            }
        },
        (PhaseModel::Flushing, PhaseEvent::Flushed(outcome)) => match outcome {
            Ok(_) => PhaseModel::AwaitRead { received: Seq::empty() },
            Err(e) => PhaseModel::Over(ExchangeModel::WriteFailed(e@)),
        },
        (PhaseModel::Reading { received }, PhaseEvent::Read(ReadEvent::Data(data))) => {
            phase_received(proto, received, data@)
        },
        (PhaseModel::Reading { received }, PhaseEvent::Read(ReadEvent::Failed(e))) => {
            if is_transient(e) {
                PhaseModel::AwaitRead { received }
            } else {
                PhaseModel::Over(ExchangeModel::ReadFailed(e@))
            }
        },
        _ => phase,
    }
}

impl Phase {
    /// The first phase of the exchange of a request.
    pub fn first(proto: &Protocol, request: &Frame) -> (r: Phase)
        ensures
            r.wf(*proto),
            r@ == phase_first(*proto, request@),
    {
        match encode_frame(proto, request) {
            Ok(bytes) => Phase::AwaitWrite(FrameWriter::new(bytes)),
            Err(e) => Phase::Over(Exchange::WriteFailed(e)),
        }
    }

    /// The phase that follows once what this one asked for has been tried.
    pub fn next(self, proto: &Protocol, event: PhaseEvent) -> (r: Phase)
        requires
            self.wf(*proto),
            phase_asks(self@, event),
        ensures
            r.wf(*proto),
            r@ == phase_next(*proto, self@, event),
    {
        match (self, event) {
            (Phase::AwaitWrite(writer), PhaseEvent::Waited(outcome)) => match outcome {
                Ok(_) => Phase::Writing(writer),
                Err(e) => Phase::Over(Exchange::WriteFailed(e)),
            },
            (Phase::Writing(writer), PhaseEvent::Wrote(event)) => {
                let mut writer = writer;
                match writer.wrote(event) {
                    Ok(_) => if writer.is_done() {
                        Phase::Flushing
                    } else {
                        Phase::AwaitWrite(writer)
                    },
                    Err(e) => Phase::Over(Exchange::WriteFailed(e)),
                }
            },
            (Phase::Flushing, PhaseEvent::Flushed(outcome)) => match outcome {
                Ok(_) => Phase::AwaitRead(FrameReader::new(proto)),
                Err(e) => Phase::Over(Exchange::WriteFailed(e)),
            },
            (Phase::AwaitRead(reader), PhaseEvent::Waited(outcome)) => match outcome {
                Ok(_) => Phase::Reading(reader),
                Err(e) => Phase::Over(Exchange::ReadFailed(e)),
            },
            (Phase::Reading(reader), PhaseEvent::Read(event)) => {
                let mut reader = reader;
                match reader.feed(event) {
                    ReadProgress::Pending => Phase::AwaitRead(reader),
                    ReadProgress::Ready => Phase::Over(Exchange::Reply(reader.finish())),
                    ReadProgress::Failed(e) => Phase::Over(Exchange::ReadFailed(e)),
                }
            },
            (phase, _) => phase,
        }
    }
}

/// A request under way: its frame, and the instant at which it has run out of
/// time, whatever it is doing then.
#[derive(Debug)]
pub struct Call {
    pub frame: Frame,
    pub deadline: u128,
}

/// A [`Call`] with the payload of its frame as a sequence.
pub struct CallModel {
    pub frame: FrameModel,
    pub deadline: u128,
}

impl View for Call {
    type V = CallModel;

    open spec fn view(&self) -> CallModel {
        CallModel { frame: self.frame@, deadline: self.deadline }
    }
}

/// The exchange of a request with a worker, under the one deadline of the
/// request.
pub struct Talk {
    pub proto: Protocol,
    pub deadline: u128,
    /// What is asked for next.
    pub phase: Phase,
    /// Where a pipe is waited for: the longest that it is to be polled now, in
    /// milliseconds, or nothing where the clock is to be looked at first.
    pub poll: Option<i32>,
}

/// A [`Talk`] as what has been written and read.
pub struct TalkModel {
    pub proto: Protocol,
    pub deadline: u128,
    pub phase: PhaseModel,
    pub poll: Option<i32>,
}

impl View for Talk {
    type V = TalkModel;

    open spec fn view(&self) -> TalkModel {
        TalkModel {
            proto: self.proto,
            deadline: self.deadline,
            phase: self.phase@,
            poll: self.poll,
        }
    }
}

/// What came of what an exchange asked for, or a look at the clock.
#[derive(Debug)]
pub enum TalkEvent {
    /// A pipe is waited for, and the clock was looked at or the pipe polled.
    Wait(WaitEvent),
    /// Something was tried with a pipe.
    Tried(PhaseEvent),
}

/// The pipe that a phase waits for.
pub open spec fn phase_pipe(phase: PhaseModel) -> Option<Pipe> {
    match phase {
        PhaseModel::AwaitWrite { .. } => Some(Pipe::Stdin),
        PhaseModel::AwaitRead { .. } => Some(Pipe::Stdout),
        _ => None,
    }
}

/// The exchange of `call` before anything was done.
pub open spec fn talk_first(proto: Protocol, call: CallModel) -> TalkModel {
    TalkModel {
        proto,
        deadline: call.deadline,
        phase: phase_first(proto, call.frame),
        poll: None,
    }
}

/// Whether `event` is what `talk` asked for, within what it offered: before a
/// pipe is polled the clock is looked at, and before it is used it is polled.
pub open spec fn talk_asks(talk: TalkModel, event: TalkEvent) -> bool {
    match event {
        TalkEvent::Wait(WaitEvent::Start) => phase_pipe(talk.phase) is Some && talk.poll is None,
        TalkEvent::Wait(_) => phase_pipe(talk.phase) is Some && talk.poll is Some,
        TalkEvent::Tried(event) => event !is Waited && phase_asks(talk.phase, event),
    }
}

/// The exchange that follows `talk` by `event`, at `now`. Every wait is one
/// until the deadline of the request.
pub open spec fn talk_next(talk: TalkModel, bits: PollBits, event: TalkEvent, now: u128) -> TalkModel {
    match event {
        TalkEvent::Wait(event) => match phase_pipe(talk.phase) {
            Some(pipe) => match wait_step(pipe, bits, event, now, talk.deadline) {
                WaitStepModel::Poll { timeout_ms } => TalkModel { poll: Some(timeout_ms), ..talk },
                WaitStepModel::Retry => TalkModel { poll: None, ..talk },
                WaitStepModel::Ready => TalkModel {
                    phase: phase_waited(talk.phase, Ok(())),
                    poll: None,
                    ..talk
                },
                WaitStepModel::Failed(e) => TalkModel {
                    phase: phase_waited(talk.phase, Err(e)),
                    poll: None,
                    ..talk
                },
            },
            None => talk,
        },
        TalkEvent::Tried(event) => TalkModel {
            phase: phase_next(talk.proto, talk.phase, event),
            ..talk
        },
    }
}

impl Talk {
    /// What holds of an exchange: its phase is one of its protocol, and only a
    /// pipe that is waited for is polled.
    pub open spec fn wf(&self) -> bool {
        &&& self.phase.wf(self.proto)
        &&& self.poll is Some ==> phase_pipe(self.phase@) is Some
    }

    /// The exchange of `call` before anything was done.
    pub fn first(proto: &Protocol, call: &Call) -> (r: Talk)
        ensures
            r.wf(),
            r@ == talk_first(*proto, call@),
    {
        Talk {
            proto: *proto,
            deadline: call.deadline,
            phase: Phase::first(proto, &call.frame),
            poll: None,
        }
    }

    /// The pipe that is waited for.
    pub fn pipe(&self) -> (r: Option<Pipe>)
        ensures
            r == phase_pipe(self@.phase),
    {
        match &self.phase {
            Phase::AwaitWrite(_) => Some(Pipe::Stdin),
            Phase::AwaitRead(_) => Some(Pipe::Stdout),
            _ => None,
        }
    }

    /// The exchange that follows once what this one asked for has been tried.
    pub fn next(self, bits: PollBits, event: TalkEvent, now: u128) -> (r: Talk)
        requires
            self.wf(),
            talk_asks(self@, event),
        ensures
            r.wf(),
            r@ == talk_next(self@, bits, event, now),
    {
        let pipe = self.pipe();
        let Talk { proto, deadline, phase, poll: _ } = self;
        match (event, pipe) {
            (TalkEvent::Wait(event), Some(pipe)) => {
                match wait_fd(pipe, bits, event, now, deadline) {
                    WaitStep::Poll { timeout_ms } => {
                        Talk { proto, deadline, phase, poll: Some(timeout_ms) }
                    },
                    WaitStep::Retry => Talk { proto, deadline, phase, poll: None },
                    WaitStep::Ready => {
                        let phase = phase.next(&proto, PhaseEvent::Waited(Ok(())));
                        Talk { proto, deadline, phase, poll: None }
                    },
                    WaitStep::Failed(e) => {
                        let phase = phase.next(&proto, PhaseEvent::Waited(Err(e)));
                        Talk { proto, deadline, phase, poll: None }
                    },
                }
            },
            (TalkEvent::Tried(event), _) => {
                let phase = phase.next(&proto, event);
                Talk { proto, deadline, phase, poll: None }
            },
            _ => Talk { proto, deadline, phase, poll: None },
        }
    }
}

/// The exchange that follows `talk` by all of `events`, each with the instant
/// at which it is reported.
pub open spec fn talk_run(
    talk: TalkModel,
    bits: PollBits,
    events: Seq<(TalkEvent, u128)>,
) -> TalkModel
    decreases events.len(),
{
    if events.len() == 0 {
        talk
    } else {
        talk_next(talk_run(talk, bits, events.drop_last()), bits, events.last().0, events.last().1)
    }
}

/// Whether each of `events` is what was asked for when it was reported.
pub open spec fn talk_asks_all(
    talk: TalkModel,
    bits: PollBits,
    events: Seq<(TalkEvent, u128)>,
) -> bool
    decreases events.len(),
{
    events.len() > 0 ==> {
        &&& talk_asks_all(talk, bits, events.drop_last())
        &&& talk_asks(talk_run(talk, bits, events.drop_last()), events.last().0)
    }
}

/// How an exchange ends that has run out of time in `phase`: the request could
/// not be written, or no response be read.
pub open spec fn talk_timed_out(phase: PhaseModel) -> ExchangeModel {
    match phase {
        PhaseModel::AwaitWrite { .. } => ExchangeModel::WriteFailed(wait_timed_out()),
        _ => ExchangeModel::ReadFailed(wait_timed_out()),
    }
}

/// Whatever happens in the exchange of a request, it has the deadline that the
/// request had at its start: no write, no read and no wait gives time back.
pub proof fn law_one_deadline(
    proto: Protocol,
    call: CallModel,
    bits: PollBits,
    events: Seq<(TalkEvent, u128)>,
)
    ensures
        talk_run(talk_first(proto, call), bits, events).deadline == call.deadline,
    decreases events.len(),
{
    if events.len() > 0 {
        law_one_deadline(proto, call, bits, events.drop_last());
    }
}

/// An exchange that looks at the clock before its deadline polls the pipe that
/// it waits for, and no longer than until then; one that looks at or after its
/// deadline is over, and has run out of time.
pub proof fn law_deadline_ends_exchange(talk: TalkModel, bits: PollBits, now: u128)
    requires
        talk_asks(talk, TalkEvent::Wait(WaitEvent::Start)),
    ensures
        ({
            let after = talk_next(talk, bits, TalkEvent::Wait(WaitEvent::Start), now);
            if now >= talk.deadline {
                after.phase == PhaseModel::Over(talk_timed_out(talk.phase))
            } else {
                &&& after.phase == talk.phase
                &&& after.poll matches Some(ms)
                &&& 0 <= ms
                &&& now + ms * 1_000_000 <= talk.deadline
            }
        }),
{
    if now < talk.deadline {
        law_poll_within_deadline(now, talk.deadline);
    }
}

/// How much an exchange can still ask for once its deadline has come.
pub open spec fn talk_steps_left(talk: TalkModel) -> int {
    match talk.phase {
        PhaseModel::AwaitWrite { .. } => if talk.poll is Some {
            4
        } else {
            1
        },
        PhaseModel::Writing { .. } => 3,
        PhaseModel::Flushing => 2,
        PhaseModel::AwaitRead { .. } => if talk.poll is Some {
            3
        } else {
            1
        },
        PhaseModel::Reading { .. } => 2,
        PhaseModel::Over(_) => 0,
    }
}

/// Wherever an exchange is when its deadline comes, it is over after at most
/// four more steps: what was under way is let finish, and nothing is waited for
/// any more.
pub proof fn law_late_exchange_ends(
    talk: TalkModel,
    bits: PollBits,
    events: Seq<(TalkEvent, u128)>,
)
    requires
        talk.poll is Some ==> phase_pipe(talk.phase) is Some,
        talk_asks_all(talk, bits, events),
        forall|i: int| 0 <= i < events.len() ==> (#[trigger] events[i]).1 >= talk.deadline,
    ensures
        events.len() <= talk_steps_left(talk) - talk_steps_left(talk_run(talk, bits, events)),
        events.len() <= 4,
        ({
            let after = talk_run(talk, bits, events);
            &&& after.deadline == talk.deadline
            &&& after.poll is Some ==> phase_pipe(after.phase) is Some
        }),
    decreases events.len(),
{
    if events.len() > 0 {
        let before = events.drop_last();
        assert forall|i: int| 0 <= i < before.len() implies (#[trigger] before[i]).1
            >= talk.deadline by {
            assert(before[i] == events[i]);
        }
        assert(events.last() == events[events.len() - 1]);
        law_late_exchange_ends(talk, bits, before);
    }
}

/// A request whose worker comes at or after its deadline writes nothing to it:
/// the exchange first looks at the clock, and is then over, with the request
/// not written for want of time.
pub proof fn law_late_request_writes_nothing(
    proto: Protocol,
    call: CallModel,
    bits: PollBits,
    events: Seq<(TalkEvent, u128)>,
)
    requires
        call.frame.payload.len() <= u32::MAX,
        talk_asks_all(talk_first(proto, call), bits, events),
        events.len() > 0,
        forall|i: int| 0 <= i < events.len() ==> (#[trigger] events[i]).1 >= call.deadline,
    ensures
        events.len() == 1,
        events[0].0 == TalkEvent::Wait(WaitEvent::Start),
        talk_run(talk_first(proto, call), bits, events).phase == PhaseModel::Over(
            ExchangeModel::WriteFailed(wait_timed_out()),
        ),
    decreases events.len(),
{
    let first = talk_first(proto, call);
    let before = events.drop_last();
    assert(events.last() == events[events.len() - 1]);
    if before.len() > 0 {
        assert forall|i: int| 0 <= i < before.len() implies (#[trigger] before[i]).1
            >= call.deadline by {
            assert(before[i] == events[i]);
        }
        law_late_request_writes_nothing(proto, call, bits, before);
    } else {
        assert(talk_run(first, bits, before) == first);
    }
}

/// A worker that sends a frame is heard: with `n` bytes of the frame received,
/// a read of any part of what is wanted next leads on, and the read that brings
/// the last byte brings the frame.
pub proof fn law_exchange_hears_frame(proto: Protocol, f: FrameModel, n: int, data: Seq<u8>)
    requires
        f.payload.len() <= u32::MAX,
        0 <= n < frame_bytes(proto, f).len(),
        0 < data.len() <= frame_wanted(frame_bytes(proto, f).take(n)),
        data == frame_bytes(proto, f).subrange(n, n + data.len()),
    ensures
        phase_received(proto, frame_bytes(proto, f).take(n), data) == (if n + data.len()
            == frame_bytes(proto, f).len() {
            PhaseModel::Over(ExchangeModel::Reply(f))
        } else {
            PhaseModel::AwaitRead { received: frame_bytes(proto, f).take((n + data.len()) as int) }
        }),
{
    let b = frame_bytes(proto, f);
    law_frame_prefix_pending(proto, f, n);
    assert(b.take(n) + data =~= b.take((n + data.len()) as int));
    if n + data.len() == b.len() {
        assert(b.take(b.len() as int) =~= b);
        law_frame_roundtrip(proto, f);
    } else {
        law_frame_prefix_pending(proto, f, (n + data.len()) as int);
    }
}

} // verus!
