use wrapperd::error::{IoFailure, IoKind, WorkerError};
use wrapperd::pipe::{
    set_nonblocking, wait_fd, FrameWriter, Pipe, PollBits, WaitEvent, WaitStep, WriteEvent,
};

const MS: u128 = 1_000_000;

fn bits() -> PollBits {
    PollBits { err: 0x8, hup: 0x10, nval: 0x20 }
}

fn start(now: u128, deadline: u128) -> WaitStep {
    wait_fd(Pipe::Stdout, bits(), WaitEvent::Start, now, deadline)
}

fn polled(count: i32, revents: i16, kind: IoKind, now: u128) -> WaitStep {
    let error = IoFailure::new(kind, "os");
    wait_fd(Pipe::Stdout, bits(), WaitEvent::Polled { count, revents, error }, now, 100)
}

fn failure(step: WaitStep) -> (IoKind, String) {
    match step {
        WaitStep::Failed(e) => (e.kind, e.message),
        other => panic!("{:?}", other),
    }
}

fn timed_out() -> (IoKind, String) {
    (IoKind::TimedOut, "worker ipc response timed out".to_string())
}

#[test]
fn polls_for_whole_milliseconds() {
    assert!(matches!(start(0, 5 * MS), WaitStep::Poll { timeout_ms: 5 }));
    assert!(matches!(start(1, 5 * MS), WaitStep::Poll { timeout_ms: 4 }));
    assert!(matches!(start(0, 1), WaitStep::Poll { timeout_ms: 0 }));
    assert!(matches!(start(0, u128::MAX), WaitStep::Poll { timeout_ms: i32::MAX }));
}

#[test]
fn no_poll_at_the_deadline() {
    assert_eq!(failure(start(7, 7)), timed_out());
    assert_eq!(failure(start(8, 7)), timed_out());
}

#[test]
fn a_ready_pipe_is_ready() {
    assert!(matches!(polled(1, 0x1, IoKind::Other, 0), WaitStep::Ready));
}

#[test]
fn a_closed_pipe_is_an_error_even_with_data() {
    for bit in [0x8, 0x10, 0x20] {
        assert_eq!(
            failure(polled(1, 0x1 | bit, IoKind::Other, 0)),
            (IoKind::UnexpectedEof, "worker stdout closed".to_string())
        );
    }
    let error = IoFailure::new(IoKind::Other, "os");
    let event = WaitEvent::Polled { count: 1, revents: 0x10, error };
    assert_eq!(
        failure(wait_fd(Pipe::Stdin, bits(), event, 0, 100)),
        (IoKind::UnexpectedEof, "worker stdin closed".to_string())
    );
}

#[test]
fn a_poll_that_ran_out_is_a_timeout() {
    assert_eq!(failure(polled(0, 0, IoKind::Other, 0)), timed_out());
}

#[test]
fn an_interrupted_poll_is_tried_again_before_the_deadline() {
    assert!(matches!(polled(-1, 0, IoKind::Interrupted, 99), WaitStep::Retry));
    assert_eq!(failure(polled(-1, 0, IoKind::Interrupted, 100)), timed_out());
    assert_eq!(failure(polled(-1, 0, IoKind::Other, 0)), (IoKind::Other, "os".to_string()));
}

#[test]
fn writer_offers_what_is_left() {
    let mut w = FrameWriter::new(vec![1, 2, 3, 4, 5]);
    assert!(!w.is_done());
    assert_eq!(w.pending(), &[1, 2, 3, 4, 5]);
    assert!(w.wrote(WriteEvent::Wrote(2)).is_ok());
    assert_eq!(w.pending(), &[3, 4, 5]);
    assert!(w.wrote(WriteEvent::Failed(IoFailure::new(IoKind::WouldBlock, "x"))).is_ok());
    assert_eq!(w.pending(), &[3, 4, 5]);
    assert!(w.wrote(WriteEvent::Wrote(3)).is_ok());
    assert!(w.is_done());
    assert!(w.pending().is_empty());
    assert!(FrameWriter::new(Vec::new()).is_done());
}

#[test]
fn writer_gives_up_on_other_failures() {
    let mut w = FrameWriter::new(vec![1]);
    let e = w.wrote(WriteEvent::Failed(IoFailure::new(IoKind::Other, "broken"))).unwrap_err();
    assert_eq!(e.message, "broken");
    let e = w.wrote(WriteEvent::Wrote(0)).unwrap_err();
    assert_eq!(e.kind, IoKind::WriteZero);
}

#[test]
fn missing_pipes_are_named() {
    assert!(matches!(Pipe::Stdin.unavailable(), WorkerError::Io(e) if e == "worker stdin unavailable"));
    assert!(matches!(Pipe::Stdout.unavailable(), WorkerError::Io(e) if e == "worker stdout unavailable"));
}

#[test]
fn nonblocking_is_added_to_the_flags() {
    assert_eq!(set_nonblocking(0o2, 0o4000), Some(0o4002));
    assert_eq!(set_nonblocking(-1, 0o4000), None);
}
