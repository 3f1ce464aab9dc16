use wrapperd::error::{IoFailure, IoKind};
use wrapperd::exchange::{Exchange, Phase, PhaseEvent};
use wrapperd::frame::{encode_frame, Frame, FrameReader, Protocol, ReadEvent, ReadProgress};
use wrapperd::pipe::WriteEvent;

fn proto() -> Protocol {
    Protocol {
        magic: 0x57524150,
        version: 0x0102,
        kind_request: 1,
        kind_response: 2,
        op_health: 7,
        op_decrypt_batch: 9,
    }
}

fn frame() -> Frame {
    Frame {
        kind: 0x0203,
        request_id: 0x04050607,
        opcode: 0x0809,
        flags: 0x0a0b,
        payload: vec![0xde, 0xad, 0xbe],
    }
}

fn wire() -> Vec<u8> {
    vec![
        0x57, 0x52, 0x41, 0x50, 0x01, 0x02, 0x02, 0x03, 0x04, 0x05, 0x06, 0x07, 0x08, 0x09, 0x0a,
        0x0b, 0x00, 0x00, 0x00, 0x03, 0xde, 0xad, 0xbe,
    ]
}

fn assert_is_frame(f: &Frame) {
    assert_eq!(f.kind, 0x0203);
    assert_eq!(f.request_id, 0x04050607);
    assert_eq!(f.opcode, 0x0809);
    assert_eq!(f.flags, 0x0a0b);
    assert_eq!(f.payload, vec![0xde, 0xad, 0xbe]);
}

#[test]
fn encodes_big_endian() {
    assert_eq!(encode_frame(&proto(), &frame()).unwrap(), wire());
}

#[test]
fn encodes_an_empty_payload() {
    let f = Frame { kind: 1, request_id: 1, opcode: 7, flags: 0, payload: Vec::new() };
    let bytes = encode_frame(&proto(), &f).unwrap();
    assert_eq!(bytes.len(), 20);
    assert_eq!(&bytes[16..], &[0, 0, 0, 0]);
}

fn read_in_pieces(piece: usize) -> Frame {
    let bytes = wire();
    let mut at = 0;
    let mut reader = FrameReader::new(&proto());
    loop {
        let n = reader.wanted().min(piece);
        match reader.feed(ReadEvent::Data(bytes[at..at + n].to_vec())) {
            ReadProgress::Pending => at += n,
            ReadProgress::Ready => {
                assert_eq!(at + n, bytes.len());
                return reader.finish();
            }
            ReadProgress::Failed(e) => panic!("{:?}", e),
        }
    }
}

#[test]
fn reads_back_what_is_written_however_it_is_cut() {
    for piece in 1..30 {
        assert_is_frame(&read_in_pieces(piece));
    }
}

#[test]
fn header_comes_before_payload() {
    let mut reader = FrameReader::new(&proto());
    assert_eq!(reader.wanted(), 20);
    assert!(matches!(reader.feed(ReadEvent::Data(wire()[..20].to_vec())), ReadProgress::Pending));
    assert_eq!(reader.wanted(), 3);
}

fn feed_header(change: usize, to: u8) -> ReadProgress {
    let mut bytes = wire()[..20].to_vec();
    bytes[change] = to;
    FrameReader::new(&proto()).feed(ReadEvent::Data(bytes))
}

#[test]
fn bad_magic_is_refused() {
    match feed_header(3, 0x51) {
        ReadProgress::Failed(e) => {
            assert_eq!(e.kind, IoKind::InvalidData);
            assert_eq!(e.message, "bad ipc magic");
        }
        other => panic!("{:?}", other),
    }
}

#[test]
fn bad_version_is_refused() {
    match feed_header(5, 0x03) {
        ReadProgress::Failed(e) => {
            assert_eq!(e.kind, IoKind::InvalidData);
            assert_eq!(e.message, "bad ipc version");
        }
        other => panic!("{:?}", other),
    }
}

#[test]
fn empty_payload_is_complete_with_the_header() {
    let mut reader = FrameReader::new(&proto());
    let mut bytes = wire()[..20].to_vec();
    bytes[19] = 0;
    assert!(matches!(reader.feed(ReadEvent::Data(bytes)), ReadProgress::Ready));
    assert!(reader.finish().payload.is_empty());
}

#[test]
fn end_of_stream_is_an_error() {
    let mut reader = FrameReader::new(&proto());
    match reader.feed(ReadEvent::Data(Vec::new())) {
        ReadProgress::Failed(e) => {
            assert_eq!(e.kind, IoKind::UnexpectedEof);
            assert_eq!(e.message, "worker stdout closed");
        }
        other => panic!("{:?}", other),
    }
}

#[test]
fn reads_are_tried_again_only_when_that_can_help() {
    let mut reader = FrameReader::new(&proto());
    let failed = |kind| ReadEvent::Failed(IoFailure::new(kind, "x"));
    assert!(matches!(reader.feed(failed(IoKind::Interrupted)), ReadProgress::Pending));
    assert!(matches!(reader.feed(failed(IoKind::WouldBlock)), ReadProgress::Pending));
    match reader.feed(failed(IoKind::Other)) {
        ReadProgress::Failed(e) => assert_eq!(e.message, "x"),
        other => panic!("{:?}", other),
    }
}

#[test]
fn exchange_writes_then_reads() {
    let p = proto();
    let mut phase = Phase::first(&p, &frame());
    let mut written: Vec<u8> = Vec::new();
    let reply = wire();
    let mut read = 0;
    let outcome = loop {
        let event = match &phase {
            Phase::AwaitWrite(_) | Phase::AwaitRead(_) => PhaseEvent::Waited(Ok(())),
            Phase::Writing(w) => {
                let n = w.pending().len().min(9);
                written.extend_from_slice(&w.pending()[..n]);
                PhaseEvent::Wrote(WriteEvent::Wrote(n))
            }
            Phase::Flushing => PhaseEvent::Flushed(Ok(())),
            Phase::Reading(r) => {
                let n = r.wanted().min(7);
                read += n;
                PhaseEvent::Read(ReadEvent::Data(reply[read - n..read].to_vec()))
            }
            Phase::Over(_) => break phase,
        };
        phase = phase.next(&p, event);
    };
    assert_eq!(written, wire());
    match outcome {
        Phase::Over(Exchange::Reply(f)) => assert_is_frame(&f),
        _ => panic!("no reply"),
    }
}

fn over(phase: Phase) -> Exchange {
    match phase {
        Phase::Over(x) => x,
        _ => panic!("not over"),
    }
}

#[test]
fn exchange_tells_write_failures_from_read_failures() {
    let p = proto();
    let timeout = || IoFailure::new(IoKind::TimedOut, "worker ipc response timed out");
    let x = over(Phase::first(&p, &frame()).next(&p, PhaseEvent::Waited(Err(timeout()))));
    assert!(matches!(x, Exchange::WriteFailed(e) if e.kind == IoKind::TimedOut));

    let phase = Phase::first(&p, &frame()).next(&p, PhaseEvent::Waited(Ok(())));
    let phase = phase.next(&p, PhaseEvent::Wrote(WriteEvent::Wrote(23)));
    assert!(matches!(phase, Phase::Flushing));
    let x = over(phase.next(&p, PhaseEvent::Flushed(Err(IoFailure::new(IoKind::Other, "gone")))));
    assert!(matches!(x, Exchange::WriteFailed(e) if e.message == "gone"));

    let x = over(
        Phase::Flushing
            .next(&p, PhaseEvent::Flushed(Ok(())))
            .next(&p, PhaseEvent::Waited(Err(timeout()))),
    );
    assert!(matches!(x, Exchange::ReadFailed(e) if e.kind == IoKind::TimedOut));
}

#[test]
fn a_write_that_takes_nothing_fails() {
    let p = proto();
    let phase = Phase::first(&p, &frame()).next(&p, PhaseEvent::Waited(Ok(())));
    match over(phase.next(&p, PhaseEvent::Wrote(WriteEvent::Wrote(0)))) {
        Exchange::WriteFailed(e) => {
            assert_eq!(e.kind, IoKind::WriteZero);
            assert_eq!(e.message, "worker stdin closed");
        }
        other => panic!("{:?}", other),
    }
}

#[test]
fn an_interrupted_write_waits_again() {
    let p = proto();
    let phase = Phase::first(&p, &frame()).next(&p, PhaseEvent::Waited(Ok(())));
    let interrupted = WriteEvent::Failed(IoFailure::new(IoKind::Interrupted, "x"));
    match phase.next(&p, PhaseEvent::Wrote(interrupted)) {
        Phase::AwaitWrite(w) => assert_eq!(w.pending(), &wire()[..]),
        _ => panic!("not waiting"),
    }
}

#[test]
fn a_frame_that_was_read_is_written_the_same() {
    assert_eq!(encode_frame(&proto(), &read_in_pieces(5)).unwrap(), wire());
}
