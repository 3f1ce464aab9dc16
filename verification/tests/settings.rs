use wrapperd::config::{pool_size, worker_timeout};
use wrapperd::error::{io_err, WorkerError};
use wrapperd::logfile::{epoch_ms, init, log, now_ms, trace_enabled};

fn var(s: &str) -> Option<String> {
    Some(s.to_string())
}

#[test]
fn timeout_defaults_to_a_minute() {
    assert_eq!(worker_timeout(&None), 60);
    for v in ["", "0", "-1", "abc", "1.5", " 5", "5 ", "+", "1_000", "18446744073709551616"] {
        assert_eq!(worker_timeout(&var(v)), 60, "{}", v);
    }
}

#[test]
fn timeout_is_taken_from_the_variable() {
    assert_eq!(worker_timeout(&var("5")), 5);
    assert_eq!(worker_timeout(&var("+5")), 5);
    assert_eq!(worker_timeout(&var("007")), 7);
    assert_eq!(worker_timeout(&var("18446744073709551615")), u64::MAX);
}

#[test]
fn pool_has_one_to_eight_workers() {
    assert_eq!(pool_size(&None), 3);
    for v in ["", "0", "9", "x", "-1", "18446744073709551617"] {
        assert_eq!(pool_size(&var(v)), 3, "{}", v);
    }
    assert_eq!(pool_size(&var("1")), 1);
    assert_eq!(pool_size(&var("8")), 8);
}

#[test]
fn log_goes_to_the_named_file() {
    assert_eq!(init(None), None);
    assert_eq!(init(var("")), None);
    assert_eq!(init(var("/tmp/a.log")), var("/tmp/a.log"));
}

#[test]
fn trace_needs_a_yes() {
    for v in ["1", "true", "yes", "on"] {
        assert!(trace_enabled(&var(v)));
    }
    for v in ["", "0", "True", "YES", "on "] {
        assert!(!trace_enabled(&var(v)));
    }
    assert!(!trace_enabled(&None));
}

#[test]
fn log_lines_are_timestamped() {
    assert_eq!(log(0, ""), "[0] \n");
    assert_eq!(log(1700000000123, "hello"), "[1700000000123] hello\n");
    assert_eq!(log(u64::MAX, "é"), "[18446744073709551615] é\n");
}

#[test]
fn clock_is_in_milliseconds() {
    assert!(now_ms() > 1_500_000_000_000);
    assert_eq!(epoch_ms(None), 0);
    assert_eq!(epoch_ms(Some(42)), 42);
    assert_eq!(epoch_ms(Some((1u128 << 64) + 3)), 3);
}

#[test]
fn io_errors_keep_their_text() {
    let e = io_err(std::io::Error::new(std::io::ErrorKind::Other, "no such worker"));
    assert_eq!(e.message(), "no such worker");
    assert!(matches!(e, WorkerError::Io(_)));
}

#[test]
fn errors_are_told_by_their_text_alone() {
    assert_eq!(WorkerError::Protocol("p".to_string()).message(), "p");
    assert_eq!(WorkerError::Unavailable("u".to_string()).message(), "u");
}
