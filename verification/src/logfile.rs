//! The log file that mirrors what goes to standard error.

use vstd::prelude::*;
use vstd::string::StringExecFns;

use crate::config::var_text;
use crate::text::{decimal, decimal_text};

verus! {

/// The file to log to, by the value of `WRAPPER_LOG_FILE`: none where the
/// variable is unset or empty.
pub fn init(var: Option<String>) -> (r: Option<String>)
    ensures
        match var_text(var) {
            Some(path) => if path.len() == 0 {
                r is None
            } else {
                r matches Some(p) && p@ == path
            },
            None => r is None,
        },
{
    match var {
        Some(path) => {
            if path.as_str().is_empty() {
                None
            } else {
                Some(path)
            }
        },
        None => None,
    }
}

/// Whether verbose tracing of requests is on, by the value of
/// `WRAPPER_RUNTIME_TRACE`.
pub fn trace_enabled(var: &Option<String>) -> (r: bool)
    ensures
        r == (match var_text(*var) {
            Some(v) => v == "1"@ || v == "true"@ || v == "yes"@ || v == "on"@,
            None => false,
        }),
{
    match var {
        Some(v) => *v == "1".to_string() || *v == "true".to_string() || *v == "yes".to_string()
            || *v == "on".to_string(),
        None => false,
    }
}

#[verifier::external_type_specification]
#[verifier::external_body]
pub struct ExSystemTime(std::time::SystemTime);

#[verifier::external_type_specification]
#[verifier::external_body]
pub struct ExSystemTimeError(std::time::SystemTimeError);

/// The time from the epoch to `t`, as `SystemTime::duration_since` gives it;
/// `None` where `t` is before the epoch.
pub uninterp spec fn time_since_epoch(t: std::time::SystemTime) -> Option<std::time::Duration>;

/// The whole milliseconds of a duration, as `Duration::as_millis` gives them.
pub uninterp spec fn duration_millis(d: std::time::Duration) -> u128;

/// `SystemTime::now`: the clock of the system. Nothing is known of what it
/// shows.
pub assume_specification[ std::time::SystemTime::now ]() -> std::time::SystemTime;

/// Calls `SystemTime::duration_since` with `UNIX_EPOCH`: the time from the
/// epoch to `t`, or an error where `t` is before it. It depends on `t` alone.
#[verifier::external_body]
fn since_epoch(t: &std::time::SystemTime) -> (r: Result<
    std::time::Duration,
    std::time::SystemTimeError,
>)
    ensures
        time_since_epoch(*t) == (match r {
            Ok(d) => Some(d),
            Err(_) => None,
        }),
{
    t.duration_since(std::time::UNIX_EPOCH)
}

/// `Duration::as_millis`: the whole milliseconds of a duration. They depend on
/// it alone.
pub assume_specification[ std::time::Duration::as_millis ](d: &std::time::Duration) -> (r: u128)
    ensures
        r == duration_millis(*d),
;

/// The low 64 bits of a number of milliseconds since the epoch; zero for a
/// time before it.
pub open spec fn epoch_value(millis: Option<u128>) -> u64 {
    match millis {
        Some(n) => (n % 0x1_0000_0000_0000_0000) as u64,
        None => 0,
    }
}

/// What the clock of the system shows at `t`, in milliseconds since the epoch.
pub open spec fn clock_value(t: std::time::SystemTime) -> u64 {
    epoch_value(
        match time_since_epoch(t) {
            Some(d) => Some(duration_millis(d)),
            None => None,
        },
    )
}

/// The low 64 bits of the milliseconds since the epoch; zero where the clock
/// is before it.
pub fn epoch_ms(millis: Option<u128>) -> (r: u64)
    ensures
        r == epoch_value(millis),
{
    match millis {
        Some(n) => {
            assert(#[verifier::truncate] (n as u64) == n % 0x1_0000_0000_0000_0000u128)
                by (bit_vector);
            #[verifier::truncate]
            (n as u64)
        },
        None => 0,
    }
}

/// Milliseconds since the epoch, by the clock of the system.
pub fn now_ms() -> (r: u64)
    ensures
        exists|t: std::time::SystemTime| r == #[trigger] clock_value(t),
{
    let now = std::time::SystemTime::now();
    let millis: Option<u128> = match since_epoch(&now) {
        Ok(d) => Some(d.as_millis()),
        Err(_) => None,
    };
    assert(epoch_value(millis) == clock_value(now));
    epoch_ms(millis)
}

/// The line that is logged for `msg` at `now_ms`.
pub open spec fn log_line(now_ms: u64, msg: Seq<char>) -> Seq<char> {
    "["@ + decimal(now_ms as nat) + "] "@ + msg + "\n"@
}

/// The line to write, to standard error and to the log file, for `msg`:
/// timestamped, and ended.
pub fn log(now_ms: u64, msg: &str) -> (r: String)
    ensures
        r@ == log_line(now_ms, msg@),
{
    let mut line = "[".to_string();
    let stamp = decimal_text(now_ms);
    line.append(stamp.as_str());
    line.append("] ");
    line.append(msg);
    line.append("\n");
    line
}

} // verus!
