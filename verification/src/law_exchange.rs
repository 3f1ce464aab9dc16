//! What holds of the exchange of a request with a worker: every byte of the
//! request is written, and then one frame is read, byte for byte.

use vstd::prelude::*;

use crate::error::{IoFailure, IoFailureModel, IoKind};
use crate::exchange::{
    phase_asks, phase_first, phase_next, talk_asks, talk_asks_all, talk_first, talk_next, talk_run,
    CallModel, ExchangeModel, PhaseEvent, PhaseModel, TalkEvent, TalkModel,
};
use crate::frame::{
    be16_at, be32_at, frame_bytes, frame_status, frame_wanted, law_frame_unique,
    lemma_frame_bytes, FrameModel, FrameStatus, Protocol, ReadEvent,
};
use crate::pipe::{wait_step, Pipe, PollBits, WaitEvent, WaitStepModel, WriteEvent};

verus! {

/// The number that these bytes stand for, the first being the most significant.
pub open spec fn number(b: Seq<u8>) -> int
    decreases b.len(),
{
    if b.len() == 0 {
        0
    } else {
        number(b.drop_last()) * 256 + b.last()
    }
}

proof fn lemma_number_2(b: Seq<u8>, at: int)
    requires
        0 <= at,
        at + 2 <= b.len(),
    ensures
        number(b.subrange(at, at + 2)) == be16_at(b, at),
{
    let s = b.subrange(at, at + 2);
    reveal_with_fuel(number, 3);
    assert(s.drop_last().drop_last() =~= Seq::empty());
}

proof fn lemma_number_4(b: Seq<u8>, at: int)
    requires
        0 <= at,
        at + 4 <= b.len(),
    ensures
        number(b.subrange(at, at + 4)) == be32_at(b, at),
{
    let s = b.subrange(at, at + 4);
    reveal_with_fuel(number, 5);
    assert(s.drop_last().drop_last().drop_last().drop_last() =~= Seq::empty());
    assert(s.drop_last().drop_last().last() == b[at + 1]);
}

/// A frame on a pipe is twenty bytes of header and the payload. The header has
/// the magic number, the version, the kind, the request id, the opcode, the
/// flags and the length of the payload, in this order, each with its most
/// significant byte first.
pub proof fn law_frame_layout(proto: Protocol, f: FrameModel)
    requires
        f.payload.len() <= u32::MAX,
    ensures
        ({
            let b = frame_bytes(proto, f);
            &&& b.len() == 20 + f.payload.len()
            &&& number(b.subrange(0, 4)) == proto.magic
            &&& number(b.subrange(4, 6)) == proto.version
            &&& number(b.subrange(6, 8)) == f.kind
            &&& number(b.subrange(8, 12)) == f.request_id
            &&& number(b.subrange(12, 14)) == f.opcode
            &&& number(b.subrange(14, 16)) == f.flags
            &&& number(b.subrange(16, 20)) == f.payload.len()
            &&& b.skip(20) == f.payload
        }),
{
    let b = frame_bytes(proto, f);
    lemma_frame_bytes(proto, f);
    lemma_number_4(b, 0);
    lemma_number_2(b, 4);
    lemma_number_2(b, 6);
    lemma_number_4(b, 8);
    lemma_number_2(b, 12);
    lemma_number_2(b, 14);
    lemma_number_4(b, 16);
    assert(b.skip(20) =~= b.subrange(20, b.len() as int));
}

/// Whether bytes in a row are a whole frame, and which one, is told by them
/// alone: there must be a header, with the magic number and the version of the
/// protocol, and as many bytes after it as it says.
pub proof fn law_frame_recognised(proto: Protocol, b: Seq<u8>)
    ensures
        ({
            let status = frame_status(proto, b);
            let magic = number(b.subrange(0, 4)) == proto.magic;
            let version = number(b.subrange(4, 6)) == proto.version;
            let size = 20 + number(b.subrange(16, 20));
            &&& b.len() < 20 ==> status is Incomplete
            &&& b.len() >= 20 && !magic ==> status == FrameStatus::Failed(
                IoFailureModel { kind: IoKind::InvalidData, message: "bad ipc magic"@ },
            )
            &&& b.len() >= 20 && magic && !version ==> status == FrameStatus::Failed(
                IoFailureModel { kind: IoKind::InvalidData, message: "bad ipc version"@ },
            )
            &&& b.len() >= 20 && magic && version && b.len() < size ==> status is Incomplete
            &&& b.len() >= 20 && magic && version && b.len() >= size ==> {
                &&& status matches FrameStatus::Complete(f)
                &&& f.kind == number(b.subrange(6, 8))
                &&& f.request_id == number(b.subrange(8, 12))
                &&& f.opcode == number(b.subrange(12, 14))
                &&& f.flags == number(b.subrange(14, 16))
                &&& f.payload == b.subrange(20, size)
            }
        }),
{
    if b.len() >= 20 {
        lemma_number_4(b, 0);
        lemma_number_2(b, 4);
        lemma_number_2(b, 6);
        lemma_number_4(b, 8);
        lemma_number_2(b, 12);
        lemma_number_2(b, 14);
        lemma_number_4(b, 16);
    }
}

/// No read is asked to go beyond the frame: first the rest of the header is
/// wanted, then the rest of what the header announces.
pub proof fn law_frame_wanted(b: Seq<u8>)
    ensures
        b.len() < 20 ==> b.len() + frame_wanted(b) == 20,
        b.len() >= 20 ==> b.len() + frame_wanted(b) == 20 + number(b.subrange(16, 20)),
{
    if b.len() >= 20 {
        lemma_number_4(b, 16);
    }
}

/// The pipe is polled only while there is time left, for no longer than that,
/// and what the poll reports decides: a pipe that is broken, hung up or invalid
/// is closed, even where there is something to read; any other that is reported
/// can be used; one that is not reported in time has timed out; a poll that was
/// interrupted is repeated while there is time left, and any other failure of it
/// is the failure of the wait.
pub proof fn law_wait_decides(
    pipe: Pipe,
    bits: PollBits,
    event: WaitEvent,
    now: u128,
    deadline: u128,
)
    ensures
        ({
            let step = wait_step(pipe, bits, event, now, deadline);
            let late = IoFailureModel {
                kind: IoKind::TimedOut,
                message: "worker ipc response timed out"@,
            };
            let closed = IoFailureModel {
                kind: IoKind::UnexpectedEof,
                message: if pipe == Pipe::Stdin {
                    "worker stdin closed"@
                } else {
                    "worker stdout closed"@
                },
            };
            match event {
                WaitEvent::Start => {
                    &&& now >= deadline ==> step == WaitStepModel::Failed(late)
                    &&& now < deadline ==> {
                        &&& step matches WaitStepModel::Poll { timeout_ms }
                        &&& timeout_ms >= 0
                        &&& now + timeout_ms * 1_000_000 <= deadline
                        &&& timeout_ms == i32::MAX || deadline < now + (timeout_ms + 1) * 1_000_000
                    }
                },
                WaitEvent::Polled { count, revents, error } => {
                    let broken = revents & bits.err != 0 || revents & bits.hup != 0 || revents
                        & bits.nval != 0;
                    &&& count > 0 && broken ==> step == WaitStepModel::Failed(closed)
                    &&& count > 0 && !broken ==> step == WaitStepModel::Ready
                    &&& count == 0 ==> step == WaitStepModel::Failed(late)
                    &&& count < 0 && error.kind != IoKind::Interrupted ==> step
                        == WaitStepModel::Failed(error@)
                    &&& count < 0 && error.kind == IoKind::Interrupted && now >= deadline ==> step
                        == WaitStepModel::Failed(late)
                    &&& count < 0 && error.kind == IoKind::Interrupted && now < deadline ==> step
                        == WaitStepModel::Retry
                },
            }
        }),
{
    match event {
        WaitEvent::Start => {},
        WaitEvent::Polled { count, revents, error } => {
            let (e, h, n) = (bits.err, bits.hup, bits.nval);
            assert((revents & (e | h | n) != 0) == (revents & e != 0 || revents & h != 0 || revents
                & n != 0)) by (bit_vector);
        },
    }
}

/// The exchange of a request starts by waiting to write its frame, of which
/// nothing has been written yet. Only a payload too long for the header is
/// refused at once.
pub proof fn law_exchange_starts(proto: Protocol, f: FrameModel)
    ensures
        f.payload.len() <= u32::MAX ==> phase_first(proto, f) == (PhaseModel::AwaitWrite {
            bytes: frame_bytes(proto, f),
            sent: 0,
        }),
        f.payload.len() > u32::MAX ==> phase_first(proto, f) == PhaseModel::Over(
            ExchangeModel::WriteFailed(
                IoFailureModel { kind: IoKind::InvalidInput, message: "payload too large"@ },
            ),
        ),
{
}

/// A write that takes some of what is left, but not all, has the rest waited for
/// and written: only a write that takes all of what is left leads to the flush.
/// A write that takes nothing means that the pipe is closed.
pub proof fn law_write_goes_on(proto: Protocol, bytes: Seq<u8>, sent: int, n: usize)
    requires
        0 <= sent < bytes.len(),
        n <= bytes.len() - sent,
    ensures
        ({
            let next = phase_next(
                proto,
                PhaseModel::Writing { bytes, sent },
                PhaseEvent::Wrote(WriteEvent::Wrote(n)),
            );
            &&& 0 < n < bytes.len() - sent ==> next == (PhaseModel::AwaitWrite {
                bytes,
                sent: sent + n,
            })
            &&& n == bytes.len() - sent ==> next == PhaseModel::Flushing
            &&& n == 0 ==> next == PhaseModel::Over(
                ExchangeModel::WriteFailed(
                    IoFailureModel { kind: IoKind::WriteZero, message: "worker stdin closed"@ },
                ),
            )
        }),
{
}

/// A read takes the exchange on by the bytes that it brought. As long as they
/// are not a whole frame, the rest is waited for; a read that brings nothing
/// means that the pipe is closed.
pub proof fn law_read_goes_on(proto: Protocol, received: Seq<u8>, data: Vec<u8>)
    ensures
        ({
            let next = phase_next(
                proto,
                PhaseModel::Reading { received },
                PhaseEvent::Read(ReadEvent::Data(data)),
            );
            let b = received + data@;
            let magic = number(b.subrange(0, 4)) == proto.magic;
            let version = number(b.subrange(4, 6)) == proto.version;
            let size = 20 + number(b.subrange(16, 20));
            &&& data@.len() == 0 ==> next == PhaseModel::Over(
                ExchangeModel::ReadFailed(
                    IoFailureModel { kind: IoKind::UnexpectedEof, message: "worker stdout closed"@ },
                ),
            )
            &&& data@.len() > 0 && (b.len() < 20 || magic && version && b.len() < size) ==> next
                == (PhaseModel::AwaitRead { received: b })
            &&& data@.len() > 0 && b.len() >= 20 && !magic ==> next == PhaseModel::Over(
                ExchangeModel::ReadFailed(
                    IoFailureModel { kind: IoKind::InvalidData, message: "bad ipc magic"@ },
                ),
            )
            &&& data@.len() > 0 && b.len() >= 20 && magic && !version ==> next == PhaseModel::Over(
                ExchangeModel::ReadFailed(
                    IoFailureModel { kind: IoKind::InvalidData, message: "bad ipc version"@ },
                ),
            )
            &&& data@.len() > 0 && b.len() >= 20 && magic && version && b.len() >= size ==> {
                &&& next matches PhaseModel::Over(ExchangeModel::Reply(f))
                &&& f.kind == number(b.subrange(6, 8))
                &&& f.request_id == number(b.subrange(8, 12))
                &&& f.opcode == number(b.subrange(12, 14))
                &&& f.flags == number(b.subrange(14, 16))
                &&& f.payload == b.subrange(20, size)
            }
        }),
{
    law_frame_recognised(proto, received + data@);
}

/// What was asked for and worked leads to what it was asked for: a pipe that was
/// waited for is used, from where it was left, and after the flush the response
/// is waited for, of which nothing has been read yet.
pub proof fn law_exchange_moves_on(proto: Protocol, bytes: Seq<u8>, sent: int, received: Seq<u8>)
    ensures
        phase_next(
            proto,
            PhaseModel::AwaitWrite { bytes, sent },
            PhaseEvent::Waited(Ok(())),
        ) == (PhaseModel::Writing { bytes, sent }),
        phase_next(proto, PhaseModel::Flushing, PhaseEvent::Flushed(Ok(())))
            == (PhaseModel::AwaitRead { received: Seq::<u8>::empty() }),
        phase_next(proto, PhaseModel::AwaitRead { received }, PhaseEvent::Waited(Ok(())))
            == (PhaseModel::Reading { received }),
{
}

/// A write or a read that was interrupted or would have blocked is tried again,
/// after another wait, from where it was. Any other failure ends the exchange,
/// and so does every failure of a wait or of the flush: before the response is
/// waited for, the request could not be written, and from then on no response
/// could be read.
pub proof fn law_exchange_fails(
    proto: Protocol,
    bytes: Seq<u8>,
    sent: int,
    received: Seq<u8>,
    e: IoFailure,
)
    ensures
        ({
            let again = e.kind == IoKind::Interrupted || e.kind == IoKind::WouldBlock;
            let not_written = PhaseModel::Over(
                ExchangeModel::WriteFailed(
                    IoFailureModel { kind: e.kind, message: e.message@ },
                ),
            );
            let not_read = PhaseModel::Over(
                ExchangeModel::ReadFailed(IoFailureModel { kind: e.kind, message: e.message@ }),
            );
            let writing = PhaseModel::Writing { bytes, sent };
            let reading = PhaseModel::Reading { received };
            let await_write = PhaseModel::AwaitWrite { bytes, sent };
            let await_read = PhaseModel::AwaitRead { received };
            let wrote = PhaseEvent::Wrote(WriteEvent::Failed(e));
            let read = PhaseEvent::Read(ReadEvent::Failed(e));
            &&& again ==> phase_next(proto, writing, wrote) == await_write
            &&& !again ==> phase_next(proto, writing, wrote) == not_written
            &&& again ==> phase_next(proto, reading, read) == await_read
            &&& !again ==> phase_next(proto, reading, read) == not_read
            &&& phase_next(proto, await_write, PhaseEvent::Waited(Err(e))) == not_written
            &&& phase_next(proto, PhaseModel::Flushing, PhaseEvent::Flushed(Err(e)))
                == not_written
            &&& phase_next(proto, await_read, PhaseEvent::Waited(Err(e))) == not_read
        }),
{
}

/// Until it is over, the exchange takes whatever can come of what it asked for:
/// every outcome of a wait, of a flush and of a poll, a write of as much as is
/// left or less, and a read of as much as is wanted or less.
pub proof fn law_exchange_takes_all_outcomes(
    phase: PhaseModel,
    waited: Result<(), IoFailure>,
    e: IoFailure,
    n: usize,
    data: Vec<u8>,
)
    ensures
        phase is AwaitWrite || phase is AwaitRead ==> phase_asks(phase, PhaseEvent::Waited(waited)),
        phase is Flushing ==> phase_asks(phase, PhaseEvent::Flushed(waited)),
        phase matches PhaseModel::Writing { bytes, sent } ==> {
            &&& phase_asks(phase, PhaseEvent::Wrote(WriteEvent::Failed(e)))
            &&& n <= bytes.len() - sent ==> phase_asks(
                phase,
                PhaseEvent::Wrote(WriteEvent::Wrote(n)),
            )
        },
        phase matches PhaseModel::Reading { received } ==> {
            let whole = if received.len() < 20 {
                20
            } else {
                20 + number(received.subrange(16, 20))
            };
            &&& phase_asks(phase, PhaseEvent::Read(ReadEvent::Failed(e)))
            &&& received.len() + data@.len() <= whole ==> phase_asks(
                phase,
                PhaseEvent::Read(ReadEvent::Data(data)),
            )
        },
{
    if let PhaseModel::Reading { received } = phase {
        if received.len() >= 20 {
            lemma_number_4(received, 16);
        }
    }
}

/// An exchange that waits for a pipe looks at the clock, then polls, as its
/// deadline says; what comes of the wait goes into the phase, and nothing else
/// changes. It is the pipe that is used next that is waited for.
pub proof fn law_talk_waits(talk: TalkModel, bits: PollBits, event: WaitEvent, now: u128)
    requires
        talk.phase is AwaitWrite || talk.phase is AwaitRead,
    ensures
        ({
            let pipe = if talk.phase is AwaitWrite {
                Pipe::Stdin
            } else {
                Pipe::Stdout
            };
            let after = talk_next(talk, bits, TalkEvent::Wait(event), now);
            let step = wait_step(pipe, bits, event, now, talk.deadline);
            &&& after.proto == talk.proto
            &&& after.deadline == talk.deadline
            &&& step matches WaitStepModel::Poll { timeout_ms } ==> after.phase == talk.phase
                && after.poll == Some(timeout_ms)
            &&& step is Retry ==> after.phase == talk.phase && after.poll is None
            &&& step is Ready ==> after.poll is None && after.phase == match talk.phase {
                PhaseModel::AwaitWrite { bytes, sent } => PhaseModel::Writing { bytes, sent },
                PhaseModel::AwaitRead { received } => PhaseModel::Reading { received },
                _ => talk.phase,
            }
            &&& step matches WaitStepModel::Failed(e) ==> after.poll is None && after.phase
                == PhaseModel::Over(
                if talk.phase is AwaitWrite {
                    ExchangeModel::WriteFailed(e)
                } else {
                    ExchangeModel::ReadFailed(e)
                },
            )
            &&& talk.poll is None <==> talk_asks(talk, TalkEvent::Wait(WaitEvent::Start))
            &&& event is Polled ==> (talk.poll is Some <==> talk_asks(talk, TalkEvent::Wait(event)))
        }),
{
}

/// What is tried with a pipe goes into the phase, and nothing else changes.
pub proof fn law_talk_tries(talk: TalkModel, bits: PollBits, event: PhaseEvent, now: u128)
    ensures
        talk_next(talk, bits, TalkEvent::Tried(event), now) == (TalkModel {
            phase: phase_next(talk.proto, talk.phase, event),
            ..talk
        }),
        event !is Waited ==> (phase_asks(talk.phase, event) <==> talk_asks(
            talk,
            TalkEvent::Tried(event),
        )),
{
}

/// The exchange of a request starts with its deadline, and by looking at the
/// clock.
pub proof fn law_talk_starts(proto: Protocol, call: CallModel)
    ensures
        talk_first(proto, call).proto == proto,
        talk_first(proto, call).deadline == call.deadline,
        talk_first(proto, call).phase == phase_first(proto, call.frame),
        talk_first(proto, call).poll is None,
{
}

/// How many bytes the writes among `events` took.
pub open spec fn bytes_taken(events: Seq<(TalkEvent, u128)>) -> int
    decreases events.len(),
{
    if events.len() == 0 {
        0
    } else {
        bytes_taken(events.drop_last()) + match events.last().0 {
            TalkEvent::Tried(PhaseEvent::Wrote(WriteEvent::Wrote(n))) => n as int,
            _ => 0,
        }
    }
}

/// The bytes that the reads among `events` brought.
pub open spec fn bytes_heard(events: Seq<(TalkEvent, u128)>) -> Seq<u8>
    decreases events.len(),
{
    if events.len() == 0 {
        Seq::empty()
    } else {
        bytes_heard(events.drop_last()) + match events.last().0 {
            TalkEvent::Tried(PhaseEvent::Read(ReadEvent::Data(data))) => data@,
            _ => Seq::empty(),
        }
    }
}

/// Whatever happens in an exchange: as long as the request is being written, as
/// much of its frame has been written as the writes took, and something is left.
/// Only once the writes have taken every byte of it is the pipe flushed and the
/// response read, and of the response there is what the reads brought. The frame
/// that comes back is, byte for byte, what the reads brought.
pub proof fn law_exchange_writes_all_then_reads_one(
    proto: Protocol,
    call: CallModel,
    bits: PollBits,
    events: Seq<(TalkEvent, u128)>,
)
    requires
        call.frame.payload.len() <= u32::MAX,
        talk_asks_all(talk_first(proto, call), bits, events),
    ensures
        ({
            let wire = frame_bytes(proto, call.frame);
            let size = 20 + call.frame.payload.len();
            let after = talk_run(talk_first(proto, call), bits, events);
            &&& wire.len() == size
            &&& after.proto == proto
            &&& after.deadline == call.deadline
            &&& after.phase matches PhaseModel::AwaitWrite { bytes, sent } ==> bytes == wire && sent
                == bytes_taken(events) && 0 <= sent < size
            &&& after.phase matches PhaseModel::Writing { bytes, sent } ==> bytes == wire && sent
                == bytes_taken(events) && 0 <= sent < size
            &&& after.phase is Flushing ==> bytes_taken(events) == size
            &&& after.phase matches PhaseModel::AwaitRead { received } ==> bytes_taken(events)
                == size && received == bytes_heard(events)
            &&& after.phase matches PhaseModel::Reading { received } ==> bytes_taken(events) == size
                && received == bytes_heard(events)
            &&& after.phase matches PhaseModel::Over(ExchangeModel::Reply(f)) ==> bytes_taken(events)
                == size && frame_bytes(proto, f) == bytes_heard(events)
            &&& after.phase matches PhaseModel::Over(ExchangeModel::ReadFailed(_)) ==> bytes_taken(
                events,
            ) == size
        }),
{
    lemma_exchange_account(proto, call, bits, events);
    law_frame_layout(proto, call.frame);
}

proof fn lemma_exchange_account(
    proto: Protocol,
    call: CallModel,
    bits: PollBits,
    events: Seq<(TalkEvent, u128)>,
)
    requires
        call.frame.payload.len() <= u32::MAX,
        talk_asks_all(talk_first(proto, call), bits, events),
    ensures
        ({
            let wire = frame_bytes(proto, call.frame);
            let after = talk_run(talk_first(proto, call), bits, events);
            let heard = bytes_heard(events);
            let taken = bytes_taken(events);
            &&& after.proto == proto
            &&& after.deadline == call.deadline
            &&& match after.phase {
                PhaseModel::AwaitWrite { bytes, sent } => bytes == wire && sent == taken && 0 <= sent
                    < wire.len() && heard.len() == 0,
                PhaseModel::Writing { bytes, sent } => bytes == wire && sent == taken && 0 <= sent
                    < wire.len() && heard.len() == 0,
                PhaseModel::Flushing => taken == wire.len() && heard.len() == 0,
                PhaseModel::AwaitRead { received } => taken == wire.len() && received == heard
                    && frame_status(proto, heard) is Incomplete,
                PhaseModel::Reading { received } => taken == wire.len() && received == heard
                    && frame_status(proto, heard) is Incomplete,
                PhaseModel::Over(ExchangeModel::Reply(f)) => taken == wire.len() && frame_bytes(
                    proto,
                    f,
                ) == heard,
                PhaseModel::Over(ExchangeModel::ReadFailed(_)) => taken == wire.len(),
                PhaseModel::Over(ExchangeModel::WriteFailed(_)) => true,
            }
        }),
    decreases events.len(),
{
    let first = talk_first(proto, call);
    law_frame_layout(proto, call.frame);
    if events.len() > 0 {
        let early = events.drop_last();
        lemma_exchange_account(proto, call, bits, early);
        let before = talk_run(first, bits, early);
        let after = talk_run(first, bits, events);
        let heard = bytes_heard(early);
        match events.last().0 {
            TalkEvent::Tried(PhaseEvent::Read(ReadEvent::Data(data))) => {
                lemma_last_read(proto, heard, data@);
                assert(bytes_heard(events) == heard + data@);
            },
            _ => {
                assert(bytes_heard(events) =~= heard);
            },
        }
    }
}

/// A read of no more than is wanted does not go beyond the frame.
proof fn lemma_last_read(proto: Protocol, received: Seq<u8>, data: Seq<u8>)
    ensures
        frame_status(proto, received) is Incomplete && data.len() <= frame_wanted(received) ==> (
        frame_status(proto, received + data) matches FrameStatus::Complete(f) ==> frame_bytes(
            proto,
            f,
        ) == received + data),
{
    let b = received + data;
    if frame_status(proto, received) is Incomplete && data.len() <= frame_wanted(received) {
        if let FrameStatus::Complete(f) = frame_status(proto, b) {
            assert(frame_wanted(b) == 0);
            law_frame_unique(proto, b, f);
        }
    }
}

} // verus!
