use wrapperd::error::{IoFailure, IoKind, WorkerError};
use wrapperd::exchange::{Exchange, Phase, PhaseEvent, Talk, TalkEvent};
use wrapperd::frame::{Frame, Protocol};
use wrapperd::pipe::{Pipe, PollBits, WaitEvent, WriteEvent};
use wrapperd::report::report_busy;
use wrapperd::response::WorkerResponse;
use wrapperd::worker::{
    batch_samples, AcquireEvent, AcquireStep, BatchReply, Lease, Poison, Ticket, Worker,
};

const SOUND: Poison = Poison { pool: false, state: false };
const POOL: Poison = Poison { pool: true, state: false };
const STATE: Poison = Poison { pool: false, state: true };

fn proto() -> Protocol {
    Protocol {
        magic: 1,
        version: 1,
        kind_request: 1,
        kind_response: 2,
        op_health: 7,
        op_decrypt_batch: 9,
    }
}

fn worker(size: &str) -> Worker<String> {
    Worker::new("/bin/launch", "1.0".to_string(), &None, &Some(size.to_string()))
}

fn ticket(id: u32) -> Ticket {
    Ticket { id, opcode: 7, deadline: 1_000_000_000 }
}

/// Calls for a worker; `gone` names the processes that are found dead, and a
/// process that is started is named after its pid.
fn acquire(w: &mut Worker<String>, id: u32, gone: &[&str], pid: u32) -> AcquireStep<String> {
    let t = ticket(id);
    let mut event = AcquireEvent::Start;
    loop {
        match w.acquire(&t, event, 5_000_000) {
            AcquireStep::Probe { slot, proc } => {
                let running = if gone.contains(&proc.as_str()) { None } else { Some(proc) };
                event = AcquireEvent::Probed { slot, running };
            }
            AcquireStep::Spawn { slot } => {
                event = AcquireEvent::Spawned { slot, worker: Ok((format!("p{}", pid), pid)) };
            }
            step => return step,
        }
    }
}

fn lease(w: &mut Worker<String>, id: u32, gone: &[&str], pid: u32) -> Lease<String> {
    match acquire(w, id, gone, pid) {
        AcquireStep::Leased(lease) => lease,
        other => panic!("{:?}", other),
    }
}

fn pids(w: &Worker<String>) -> Vec<u32> {
    w.status(0, SOUND).pids
}

#[test]
fn starts_the_first_worker_once() {
    let mut w = worker("2");
    assert!(w.ensure_started(SOUND).unwrap());
    assert_eq!(w.launcher(), "/bin/launch");
    w.started(Ok(("p1".to_string(), 1))).unwrap();
    assert!(!w.ensure_started(SOUND).unwrap());
    assert_eq!(pids(&w), vec![1]);
}

#[test]
fn poisoned_pool_is_unavailable() {
    let mut w = worker("1");
    let e = w.ensure_started(POOL).unwrap_err();
    assert!(matches!(&e, WorkerError::Unavailable(t) if t == "worker pool mutex poisoned"));
    match w.acquire(&ticket(1), AcquireEvent::Poisoned, 0) {
        AcquireStep::Failed { error: WorkerError::Unavailable(t), line: None } => {
            assert_eq!(t, "worker pool mutex poisoned")
        }
        other => panic!("{:?}", other),
    }
    assert!(w.restart_after_delay(POOL).is_none());
}

#[test]
fn reuses_the_first_idle_worker() {
    let mut w = worker("2");
    let mut a = lease(&mut w, 1, &[], 11);
    let mut b = lease(&mut w, 2, &[], 12);
    assert_eq!((a.slot_idx, b.slot_idx), (0, 1));
    assert!(w.release(&mut b, true, SOUND).is_none());
    assert!(w.release(&mut a, true, SOUND).is_none());
    assert_eq!(pids(&w), vec![11, 12]);
    let c = lease(&mut w, 3, &[], 13);
    assert_eq!(c.proc, Some("p11".to_string()));
    assert_eq!(c.pid, 11);
    assert_eq!(c.slot_idx, 0);
}

#[test]
fn forgets_workers_that_died_while_idle() {
    let mut w = worker("3");
    let mut leases: Vec<Lease<String>> = (0..3).map(|i| lease(&mut w, i, &[], 11 + i)).collect();
    for l in leases.iter_mut() {
        assert!(w.release(l, true, SOUND).is_none());
    }
    let l = lease(&mut w, 9, &["p11"], 20);
    assert_eq!(l.proc, Some("p12".to_string()));
    assert_eq!(pids(&w), vec![12, 13]);
    // The third and the first are gone: a fresh one takes the first slot.
    let l = lease(&mut w, 10, &["p13"], 21);
    assert_eq!(l.slot_idx, 0);
    assert_eq!(l.proc, Some("p21".to_string()));
    assert_eq!(pids(&w), vec![12]);
}

#[test]
fn waits_and_gives_up_when_all_workers_are_busy() {
    let mut w = worker("1");
    let _lease = lease(&mut w, 1, &[], 11);
    assert!(matches!(acquire(&mut w, 2, &[], 12), AcquireStep::Sleep { millis: 10 }));
    assert_eq!(w.status(0, SOUND).timeout_count, 0);
    match w.acquire(&ticket(2), AcquireEvent::Start, 1_000_000_000) {
        AcquireStep::Failed { error: WorkerError::Unavailable(t), line: Some(line) } => {
            assert_eq!(t, "worker pool busy timed out");
            assert_eq!(
                line,
                "wrapperd: worker request opcode=7 timed out waiting for a free worker after 60s"
            );
        }
        other => panic!("{:?}", other),
    }
    assert_eq!(w.status(0, SOUND).timeout_count, 1);
}

#[test]
fn a_worker_that_cannot_be_started_leaves_its_slot_vacant() {
    let mut w = worker("1");
    let t = ticket(1);
    let slot = match w.acquire(&t, AcquireEvent::Start, 0) {
        AcquireStep::Spawn { slot } => slot,
        other => panic!("{:?}", other),
    };
    let failed = Err(WorkerError::Io("no such file".to_string()));
    match w.acquire(&t, AcquireEvent::Spawned { slot, worker: failed }, 0) {
        AcquireStep::Failed { error, line: None } => assert_eq!(error.message(), "no such file"),
        other => panic!("{:?}", other),
    }
    assert!(matches!(w.acquire(&t, AcquireEvent::Start, 0), AcquireStep::Spawn { slot: 0 }));
}

#[test]
fn discarded_worker_is_reaped_and_counted() {
    let mut w = worker("1");
    let mut l = lease(&mut w, 1, &[], 11);
    l.discard();
    let reap = w.release(&mut l, true, SOUND).unwrap();
    assert_eq!(reap.proc, "p11");
    assert_eq!(reap.reason, "discarded worker");
    let s = w.status(0, SOUND);
    assert_eq!(s.restart_count, 1);
    assert_eq!(s.last_restart_reason, Some("discarded worker".to_string()));
    assert!(s.pids.is_empty());
    assert_eq!(lease(&mut w, 2, &[], 12).proc, Some("p12".to_string()));
}

#[test]
fn dead_worker_is_reaped_but_not_counted() {
    let mut w = worker("1");
    let mut l = lease(&mut w, 1, &[], 11);
    assert_eq!(w.release(&mut l, false, SOUND).unwrap().reason, "discarded worker");
    let s = w.status(0, SOUND);
    assert_eq!(s.restart_count, 0);
    assert_eq!(s.last_restart_reason, None);
    assert_eq!(s.active_requests, 0);
    assert!(w.release(&mut l, true, SOUND).is_none());
}

#[test]
fn lease_without_a_pool_is_reaped() {
    let mut w = worker("1");
    let mut l = lease(&mut w, 1, &[], 11);
    assert_eq!(w.release(&mut l, true, POOL).unwrap().reason, "pool poisoned");
    assert_eq!(w.status(0, SOUND).active_requests, 1);
    let mut stray =
        Lease { slot_idx: 5, proc: Some("p".to_string()), pid: 1, discard: false };
    assert_eq!(w.release(&mut stray, true, SOUND).unwrap().reason, "slot missing");
}

#[test]
fn leased_process_can_be_used() {
    let mut w = worker("1");
    let mut l = lease(&mut w, 1, &[], 11);
    l.proc_mut().push('x');
    assert_eq!(l.proc, Some("p11x".to_string()));
}

#[test]
fn request_ids_count_up() {
    let mut w = worker("1");
    let f = w.health(&proto(), 0).unwrap().frame;
    assert_eq!((f.kind, f.request_id, f.opcode, f.flags), (1, 1, 7, 0));
    assert!(f.payload.is_empty());
    assert_eq!(w.request(&proto(), 4, vec![1], 0).frame.request_id, 2);
    assert_eq!(w.health(&proto(), 0).unwrap().frame.request_id, 3);
}

#[test]
fn json_requests_carry_json() {
    let mut w = worker("1");
    let f = w.request_json(&proto(), 5, serde_json::Value::Null, 0).unwrap().frame;
    assert!(f.payload.is_empty());
    let v: serde_json::Value = serde_json::from_str(r#" {"b": 1, "a": [true]} "#).unwrap();
    let call = w.request_json(&proto(), 5, v, 3).unwrap();
    assert_eq!(call.frame.payload, br#"{"a":[true],"b":1}"#);
    assert_eq!((call.frame.request_id, call.frame.opcode), (2, 5));
    assert_eq!(call.deadline, 60_000_000_003);
}

#[test]
fn decrypt_requests_need_a_payload() {
    let mut w = worker("1");
    match w.decrypt_batch(&proto(), Err("too many samples".to_string()), 0) {
        Err(WorkerError::Protocol(e)) => assert_eq!(e, "too many samples"),
        other => panic!("{:?}", other),
    }
    let call = w.decrypt_batch(&proto(), Ok(vec![1, 2]), 4).unwrap();
    let f = call.frame;
    assert_eq!((f.request_id, f.opcode, f.payload), (1, 9, vec![1, 2]));
    assert_eq!(call.deadline, 60_000_000_004);
}

const BITS: PollBits = PollBits { err: 0x8, hup: 0x10, nval: 0x20 };

fn look() -> TalkEvent {
    TalkEvent::Wait(WaitEvent::Start)
}

fn ready() -> TalkEvent {
    let error = IoFailure::new(IoKind::Other, "os");
    TalkEvent::Wait(WaitEvent::Polled { count: 1, revents: 1, error })
}

#[test]
fn time_spent_waiting_for_a_worker_is_not_given_back() {
    let mut w = worker("1");
    let call = w.request(&proto(), 7, vec![1], 100);
    assert_eq!(call.deadline, 60_000_000_100);
    // The call for a worker has its own time, from its own start.
    let t = w.ticket(&call, 200);
    assert_eq!((t.id, t.opcode, t.deadline), (1, 7, 60_000_000_200));
    let mut l = lease(&mut w, 1, &[], 11);
    // The worker comes at the deadline of the request.
    let talk = Talk::first(&proto(), &call).next(BITS, look(), 60_000_000_100);
    let outcome = match talk.phase {
        Phase::Over(outcome) => outcome,
        _ => panic!("not over"),
    };
    assert!(matches!(&outcome, Exchange::WriteFailed(e) if e.kind == IoKind::TimedOut));
    assert_eq!(
        w.report(7, &outcome).unwrap(),
        "wrapperd: worker request opcode=7 timed out while writing after 60s; discarding worker"
    );
    match w.settle(&proto(), 1, 7, outcome, &mut l, SOUND) {
        Err(WorkerError::Io(e)) => assert_eq!(e, "worker ipc response timed out"),
        other => panic!("{:?}", other),
    }
    let s = w.status(0, SOUND);
    assert_eq!(s.timeout_count, 1);
    assert_eq!(s.last_error, Some("worker ipc response timed out".to_string()));
    assert!(l.discard);
}

#[test]
fn writing_and_reading_share_one_deadline() {
    let mut w = worker("1");
    let call = w.request(&proto(), 7, Vec::new(), 0);
    let end = call.deadline;
    let talk = Talk::first(&proto(), &call).next(BITS, look(), 0);
    assert_eq!(talk.pipe(), Some(Pipe::Stdin));
    assert_eq!(talk.poll, Some(60_000));
    let talk = talk.next(BITS, ready(), 10);
    assert!(matches!(talk.phase, Phase::Writing(_)));
    let talk = talk.next(BITS, TalkEvent::Tried(PhaseEvent::Wrote(WriteEvent::Wrote(20))), 20);
    let talk = talk.next(BITS, TalkEvent::Tried(PhaseEvent::Flushed(Ok(()))), 30);
    assert_eq!(talk.pipe(), Some(Pipe::Stdout));
    // Half of the time is gone, and half is left for the response.
    let talk = talk.next(BITS, look(), end / 2);
    assert_eq!(talk.poll, Some(30_000));
    // An interrupted poll has the clock looked at again.
    let interrupted = WaitEvent::Polled {
        count: -1,
        revents: 0,
        error: IoFailure::new(IoKind::Interrupted, "os"),
    };
    let talk = talk.next(BITS, TalkEvent::Wait(interrupted), end - 1);
    assert_eq!(talk.poll, None);
    let talk = talk.next(BITS, look(), end);
    assert_eq!(talk.deadline, end);
    match talk.phase {
        Phase::Over(Exchange::ReadFailed(e)) => {
            assert_eq!(e.kind, IoKind::TimedOut);
            assert_eq!(e.message, "worker ipc response timed out");
        }
        _ => panic!("not over"),
    }
}

#[test]
fn failed_exchanges_are_reported() {
    let w = worker("1");
    let failure = |kind, text| IoFailure::new(kind, text);
    let prefix = "wrapperd: worker request opcode=513";
    let line = |outcome| w.report(513, &outcome);
    assert_eq!(
        line(Exchange::ReadFailed(failure(IoKind::TimedOut, "late"))),
        Some(format!("{prefix} timed out after 60s; discarding worker"))
    );
    assert_eq!(
        line(Exchange::ReadFailed(failure(IoKind::InvalidData, "bad ipc magic"))),
        Some(format!("{prefix} ipc read error: bad ipc magic; discarding worker"))
    );
    assert_eq!(
        line(Exchange::WriteFailed(failure(IoKind::Other, "broken pipe"))),
        Some(format!("{prefix} ipc write error: broken pipe; discarding worker"))
    );
    assert_eq!(line(reply(2, 1, 7)), None);
    // The seconds are written as a duration is.
    for secs in [1, 9, 60, 3600, 1_000_000_007, u64::MAX] {
        let limit = std::time::Duration::from_secs(secs);
        assert_eq!(
            report_busy(0, secs),
            format!(
                "wrapperd: worker request opcode=0 timed out waiting for a free worker after {limit:?}"
            )
        );
    }
}

#[test]
fn a_first_worker_that_cannot_be_started_leaves_no_trace() {
    let mut w: Worker<String> =
        Worker::new("/nonexistent/launcher", "1".to_string(), &None, &None);
    assert!(w.ensure_started(SOUND).unwrap());
    let text = "No such file or directory (os error 2)";
    match w.started(Err(WorkerError::Io(text.to_string()))) {
        Err(WorkerError::Io(e)) => assert_eq!(e, text),
        other => panic!("{:?}", other),
    }
    let s = w.status(0, SOUND);
    assert!(s.pids.is_empty());
    assert_eq!((s.pid, s.pool_size, s.workers_running, s.active_requests), (0, 3, 0, 0));
    assert_eq!((s.restart_count, s.last_error), (0, None));
    // It is asked for again, and then there.
    assert!(w.ensure_started(SOUND).unwrap());
    assert!(w.started(Ok(("p5".to_string(), 5))).is_ok());
    assert!(!w.ensure_started(SOUND).unwrap());
    let s = w.status(0, SOUND);
    assert_eq!((s.pids, s.pid, s.workers_running), (vec![5], 5, 1));
}

fn reply(kind: u16, id: u32, opcode: u16) -> Exchange {
    Exchange::Reply(Frame { kind, request_id: id, opcode, flags: 0, payload: vec![3] })
}

#[test]
fn only_the_answer_to_the_request_is_taken() {
    let mut w = worker("1");
    let mut l = lease(&mut w, 1, &[], 11);
    let f = w.settle(&proto(), 1, 7, reply(2, 1, 7), &mut l, SOUND).unwrap();
    assert_eq!(f.payload, vec![3]);
    assert!(!l.discard);
    for bad in [reply(1, 1, 7), reply(2, 2, 7), reply(2, 1, 8)] {
        l.discard = false;
        match w.settle(&proto(), 1, 7, bad, &mut l, SOUND) {
            Err(WorkerError::Protocol(e)) => assert_eq!(e, "mismatched ipc response"),
            other => panic!("{:?}", other),
        }
        assert!(l.discard);
    }
    let s = w.status(0, SOUND);
    assert_eq!(s.last_error, Some("mismatched ipc response".to_string()));
    assert_eq!(s.timeout_count, 0);
}

#[test]
fn failed_exchanges_discard_the_worker() {
    let mut w = worker("1");
    let mut l = lease(&mut w, 1, &[], 11);
    let timeout = IoFailure::new(IoKind::TimedOut, "late");
    match w.settle(&proto(), 1, 7, Exchange::ReadFailed(timeout), &mut l, SOUND) {
        Err(WorkerError::Io(e)) => assert_eq!(e, "late"),
        other => panic!("{:?}", other),
    }
    assert!(l.discard);
    assert_eq!(w.status(0, SOUND).timeout_count, 1);
    assert_eq!(w.status(0, SOUND).last_error, Some("late".to_string()));
    let broken = IoFailure::new(IoKind::Other, "broken pipe");
    match w.settle(&proto(), 2, 7, Exchange::WriteFailed(broken), &mut l, SOUND) {
        Err(WorkerError::Io(e)) => assert_eq!(e, "broken pipe"),
        other => panic!("{:?}", other),
    }
    assert_eq!(w.status(0, SOUND).timeout_count, 1);
}

fn batch_frame(flags: u16, payload: &[u8]) -> Frame {
    Frame { kind: 2, request_id: 1, opcode: 9, flags, payload: payload.to_vec() }
}

#[test]
fn samples_are_told_by_the_lowest_flag() {
    let mut w = worker("1");
    for flags in [1, 3, 0xffff] {
        match w.batch_reply(batch_frame(flags, &[9, 9]), SOUND) {
            BatchReply::Samples(b) => assert_eq!(b, vec![9, 9]),
            other => panic!("{:?}", other),
        }
    }
    assert!(matches!(w.batch_reply(batch_frame(2, b"{}"), SOUND), BatchReply::Refused { .. }));
    assert_eq!(batch_samples(Ok(vec![vec![1]])).unwrap(), vec![vec![1]]);
    assert!(matches!(batch_samples(Err("short".to_string())), Err(WorkerError::Protocol(e)) if e == "short"));
}

#[test]
fn refusal_carries_the_body() {
    let mut w = worker("1");
    match w.batch_reply(batch_frame(0, br#"{"body":"no key","restart_worker":true}"#), SOUND) {
        BatchReply::Refused { error: WorkerError::Unavailable(e), reap: None } => {
            assert_eq!(e, "no key")
        }
        other => panic!("{:?}", other),
    }
    match w.batch_reply(batch_frame(0, b"oops"), SOUND) {
        BatchReply::Refused { error: WorkerError::Protocol(_), reap: None } => {}
        other => panic!("{:?}", other),
    }
}

#[test]
fn refusal_may_restart_an_idle_worker() {
    let mut w = worker("2");
    let _busy = lease(&mut w, 1, &[], 11);
    let mut idle = lease(&mut w, 2, &[], 12);
    w.release(&mut idle, true, SOUND);
    match w.batch_reply(batch_frame(0, br#"{"restart_worker":true}"#), SOUND) {
        BatchReply::Refused { reap: Some(reap), .. } => {
            assert_eq!(reap.proc, "p12");
            assert_eq!(reap.reason, "restart requested by worker response");
        }
        other => panic!("{:?}", other),
    }
    let s = w.status(0, SOUND);
    assert_eq!(s.restart_count, 1);
    assert_eq!(s.last_restart_reason, Some("restart requested by worker response".to_string()));
    assert_eq!(s.active_requests, 1);
    assert_eq!(s.workers_running, 0);
    assert!(s.pids.is_empty());
}

#[test]
fn refusal_text_replaces_what_is_no_utf8() {
    let mut w = worker("1");
    let response = WorkerResponse {
        http_status: 500,
        content_type: "text/plain".to_string(),
        body: vec![b'a', 0xff, b'b'],
        restart_worker: false,
    };
    let (error, reap) = w.batch_refused(response, SOUND);
    assert_eq!(error.message(), "a\u{fffd}b");
    assert!(reap.is_none());
}

#[test]
fn waiting_requests_are_counted() {
    let mut w = worker("1");
    w.track_wait();
    w.track_wait();
    assert_eq!(w.status(0, SOUND).waiting_count, 2);
    w.end_wait();
    w.end_wait();
    assert_eq!(w.status(0, SOUND).waiting_count, 0);
}

#[test]
fn snapshot_shows_the_pool() {
    let mut w: Worker<String> = Worker::new(
        "/bin/launch",
        "1.0".to_string(),
        &Some("7".to_string()),
        &Some("3".to_string()),
    );
    assert_eq!(w.request_timeout(), 7);
    assert_eq!(w.deadline(5), 7_000_000_005);
    let s = w.status(0, SOUND);
    assert_eq!((s.pid, s.pool_size, s.workers_running, s.active_requests), (0, 3, 0, 0));
    assert_eq!(s.request_timeout_secs, 7);
    assert!(s.current_request.is_none());

    let mut a = lease(&mut w, 41, &[], 11);
    w.release(&mut a, true, SOUND);
    let _a = lease(&mut w, 42, &[], 12);
    let _b = lease(&mut w, 43, &[], 13);
    let s = w.status(12_999_999, SOUND);
    // A fresh worker is known by its process id once it has come back.
    assert_eq!(s.pids, vec![11]);
    assert_eq!(s.pid, 11);
    assert_eq!((s.workers_running, s.active_requests), (0, 2));
    let c = s.current_request.unwrap();
    assert_eq!((c.id, c.opcode, c.elapsed_ms), (42, 7, 7));
    assert_eq!(w.status(0, SOUND).current_request.unwrap().elapsed_ms, 0);

    let s = w.status(0, POOL);
    assert_eq!((s.pid, s.pool_size, s.workers_running, s.active_requests), (0, 3, 0, 0));
    assert!(s.pids.is_empty());
    assert!(s.current_request.is_none());
}

#[test]
fn snapshot_is_json() {
    let mut w = worker("2");
    let empty: serde_json::Value = serde_json::from_str(
        r#"{"pids": [], "pid": 0, "pool_size": 2, "workers_running": 0, "active_requests": 0,
            "request_timeout_secs": 60, "restart_count": 0, "timeout_count": 0,
            "waiting_count": 0, "current_request": null, "last_error": null,
            "last_restart_reason": null}"#,
    )
    .unwrap();
    assert_eq!(w.snapshot(0, SOUND), empty);

    let mut a = lease(&mut w, 41, &[], 11);
    w.release(&mut a, true, SOUND);
    let mut a = lease(&mut w, 42, &[], 12);
    let mut b = lease(&mut w, 43, &[], 13);
    let broken = IoFailure::new(IoKind::Other, "broken \"pipe\"");
    assert!(w.settle(&proto(), 43, 7, Exchange::WriteFailed(broken), &mut b, SOUND).is_err());
    assert!(w.release(&mut b, true, SOUND).is_some());
    w.track_wait();
    let busy: serde_json::Value = serde_json::from_str(
        r#"{"pids": [11], "pid": 11, "pool_size": 2, "workers_running": 0, "active_requests": 1,
            "request_timeout_secs": 60, "restart_count": 1, "timeout_count": 0,
            "waiting_count": 1,
            "current_request": {"id": 42, "opcode": 7, "elapsed_ms": 2},
            "last_error": "broken \"pipe\"", "last_restart_reason": "discarded worker"}"#,
    )
    .unwrap();
    assert_eq!(w.snapshot(7_000_000, SOUND), busy);
    assert!(w.release(&mut a, true, SOUND).is_none());
}

#[test]
fn no_two_requests_have_the_same_worker() {
    let mut w = worker("8");
    let mut leases: Vec<Lease<String>> = (0..8).map(|i| lease(&mut w, i, &[], 11 + i)).collect();
    let slots: Vec<usize> = leases.iter().map(|l| l.slot_idx).collect();
    assert_eq!(slots, (0..8).collect::<Vec<usize>>());
    assert!(matches!(acquire(&mut w, 9, &[], 99), AcquireStep::Sleep { .. }));
    // One comes back; nobody else's worker is touched, and it alone is given out.
    assert!(w.release(&mut leases[5], true, SOUND).is_none());
    assert_eq!(w.status(0, SOUND).active_requests, 7);
    assert_eq!(w.status(0, SOUND).workers_running, 1);
    assert_eq!(lease(&mut w, 10, &[], 99).slot_idx, 5);
    assert!(w.restart_after_delay(SOUND).is_none());
}

#[test]
fn no_worker_is_started_for_a_slot_that_is_leased() {
    let mut w = worker("1");
    let mut l = lease(&mut w, 1, &[], 11);
    assert!(!w.ensure_started(SOUND).unwrap());
    let s = w.status(5_000_000, SOUND);
    assert_eq!((s.workers_running, s.active_requests), (0, 1));
    assert!(s.pids.is_empty());
    assert_eq!(s.current_request.unwrap().id, 1);
    // The process that comes back is the one that went out.
    assert!(w.release(&mut l, true, SOUND).is_none());
    assert_eq!(pids(&w), vec![11]);
    assert!(!w.ensure_started(SOUND).unwrap());
    assert_eq!(lease(&mut w, 2, &[], 12).proc, Some("p11".to_string()));
}

#[test]
fn first_worker_is_started_again_once_its_slot_is_vacant() {
    let mut w = worker("1");
    let mut l = lease(&mut w, 1, &[], 11);
    l.discard();
    assert!(w.release(&mut l, true, SOUND).is_some());
    assert!(w.ensure_started(SOUND).unwrap());
    w.started(Ok(("p12".to_string(), 12))).unwrap();
    assert_eq!(pids(&w), vec![12]);
}

#[test]
fn nothing_is_noted_under_a_poisoned_lock() {
    let mut w = worker("2");
    let mut l = lease(&mut w, 1, &[], 11);
    let late = IoFailure::new(IoKind::TimedOut, "late");
    assert!(w.settle(&proto(), 1, 7, Exchange::ReadFailed(late), &mut l, SOUND).is_err());
    assert!(w.release(&mut l, true, SOUND).is_some());

    let mut l = lease(&mut w, 2, &[], 12);
    let later = IoFailure::new(IoKind::TimedOut, "later");
    match w.settle(&proto(), 2, 7, Exchange::ReadFailed(later), &mut l, STATE) {
        Err(WorkerError::Io(e)) => assert_eq!(e, "later"),
        other => panic!("{:?}", other),
    }
    assert!(l.discard);
    assert!(w.release(&mut l, true, STATE).is_some());
    let mut l = lease(&mut w, 3, &[], 13);
    assert!(w.release(&mut l, true, STATE).is_none());
    let reap = w.restart_after_delay(STATE).unwrap();
    assert_eq!(reap.proc, "p13");

    // Neither text is shown while the lock is poisoned, and both are as they
    // were; what is counted was counted.
    let hidden = w.status(0, STATE);
    assert_eq!((hidden.last_error, hidden.last_restart_reason), (None, None));
    let s = w.status(0, SOUND);
    assert_eq!(s.last_error, Some("late".to_string()));
    assert_eq!(s.last_restart_reason, Some("discarded worker".to_string()));
    assert_eq!((s.timeout_count, s.restart_count), (2, 3));
}

#[test]
fn a_snapshot_changes_nothing() {
    let mut w = worker("2");
    let _l = lease(&mut w, 42, &[], 11);
    let mut a = w.status(7_000_000, SOUND);
    let mut b = w.status(9_000_000, SOUND);
    let (c, d) = (a.current_request.take().unwrap(), b.current_request.take().unwrap());
    assert_eq!((c.id, c.opcode, c.elapsed_ms), (42, 7, 2));
    assert_eq!((d.id, d.opcode, d.elapsed_ms), (42, 7, 4));
    assert_eq!(a.pids, b.pids);
    assert_eq!((a.pid, a.pool_size), (b.pid, b.pool_size));
    assert_eq!(
        (a.workers_running, a.active_requests, a.request_timeout_secs),
        (b.workers_running, b.active_requests, b.request_timeout_secs)
    );
    assert_eq!(
        (a.restart_count, a.timeout_count, a.waiting_count),
        (b.restart_count, b.timeout_count, b.waiting_count)
    );
    assert_eq!((a.last_error, a.last_restart_reason), (b.last_error, b.last_restart_reason));
    assert_eq!(w.snapshot(7_000_000, SOUND), w.snapshot(7_000_000, SOUND));
    assert_eq!(w.snapshot(7_000_000, POOL), w.snapshot(9_000_000, POOL));
}

#[test]
fn live_leases_have_processes_of_their_own() {
    let mut w = worker("3");
    assert!(w.ensure_started(SOUND).unwrap());
    w.started(Ok(("p1".to_string(), 1))).unwrap();
    let a = lease(&mut w, 1, &[], 11);
    let mut b = lease(&mut w, 2, &[], 12);
    let c = lease(&mut w, 3, &[], 13);
    assert_eq!(a.proc, Some("p1".to_string()));
    assert!(w.release(&mut b, false, SOUND).is_some());
    assert!(!w.ensure_started(SOUND).unwrap());
    assert!(w.restart_after_delay(SOUND).is_none());
    let b = lease(&mut w, 4, &[], 14);
    let mut live = vec![a.proc.unwrap(), b.proc.unwrap(), c.proc.unwrap()];
    assert_eq!(vec![a.slot_idx, b.slot_idx, c.slot_idx], vec![0, 1, 2]);
    live.sort();
    live.dedup();
    assert_eq!(live, vec!["p1", "p13", "p14"]);
    assert!(matches!(acquire(&mut w, 5, &[], 15), AcquireStep::Sleep { .. }));
}
