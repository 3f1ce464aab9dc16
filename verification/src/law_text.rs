//! What holds of texts: numbers, settings, and the lines that are printed and
//! logged.

use vstd::prelude::*;

use crate::config::{timeout_secs, worker_count};
use crate::error::{ErrorModel, IoKind};
use crate::exchange::ExchangeModel;
use crate::logfile::{clock_value, duration_millis, epoch_value, log_line, time_since_epoch};
use crate::pipe::{wait_timed_out, Pipe};
use crate::report::{busy_line, exchange_line};
use crate::text::{decimal, digits_value, is_digit, is_unsigned, unsigned_digits, unsigned_value};

verus! {

/// A number is written in digits, without zeros in front, and reads back as that
/// number.
pub proof fn law_decimal_reads_back(n: nat)
    ensures
        decimal(n).len() > 0,
        forall|i: int| 0 <= i < decimal(n).len() ==> '0' <= #[trigger] decimal(n)[i] <= '9',
        decimal(n)[0] == '0' ==> n == 0 && decimal(n).len() == 1,
        digits_value(decimal(n)) == n,
        n <= u64::MAX ==> unsigned_value(decimal(n)) == Some(n as u64),
{
    lemma_decimal(n);
    let d = decimal(n);
    assert(unsigned_digits(d) == d);
    assert forall|i: int| 0 <= i < d.len() implies is_digit(#[trigger] d[i]) by {}
    assert(is_unsigned(d));
}

proof fn lemma_decimal(n: nat)
    ensures
        decimal(n).len() > 0,
        forall|i: int| 0 <= i < decimal(n).len() ==> '0' <= #[trigger] decimal(n)[i] <= '9',
        decimal(n)[0] == '0' ==> n == 0 && decimal(n).len() == 1,
        digits_value(decimal(n)) == n,
    decreases n,
{
    let d = decimal(n);
    reveal_with_fuel(digits_value, 2);
    if n >= 10 {
        lemma_decimal(n / 10);
        assert(d.drop_last() =~= decimal(n / 10));
    } else {
        assert(d.drop_last() =~= Seq::empty());
    }
}

/// A request may take as many seconds as the setting says, if that is a number
/// and not zero, and a minute otherwise; every number of seconds but zero can be
/// set.
pub proof fn law_timeout_setting(var: Option<Seq<char>>, n: u64)
    ensures
        timeout_secs(var) > 0,
        var is None ==> timeout_secs(var) == 60,
        var matches Some(v) ==> {
            &&& unsigned_value(v) is None ==> timeout_secs(var) == 60
            &&& unsigned_value(v) == Some(0u64) ==> timeout_secs(var) == 60
            &&& unsigned_value(v) matches Some(k) ==> k > 0 ==> timeout_secs(var) == k
        },
        n > 0 ==> timeout_secs(Some(decimal(n as nat))) == n,
{
    law_decimal_reads_back(n as nat);
}

/// There are as many workers as the setting says, if that is a number from one
/// to eight, and three otherwise; each of these numbers can be set.
pub proof fn law_pool_setting(var: Option<Seq<char>>, n: u64)
    ensures
        1 <= worker_count(var) <= 8,
        var is None ==> worker_count(var) == 3,
        var matches Some(v) ==> {
            &&& unsigned_value(v) is None ==> worker_count(var) == 3
            &&& unsigned_value(v) matches Some(k) ==> 1 <= k <= 8 ==> worker_count(var) == k
            &&& unsigned_value(v) matches Some(k) ==> k == 0 || k > 8 ==> worker_count(var) == 3
        },
        1 <= n <= 8 ==> worker_count(Some(decimal(n as nat))) == n,
{
    law_decimal_reads_back(n as nat);
}

/// An error is told by its text, whatever its variant.
pub proof fn law_error_text(text: Seq<char>)
    ensures
        ErrorModel::Io(text).text() == text,
        ErrorModel::Protocol(text).text() == text,
        ErrorModel::Unavailable(text).text() == text,
{
}

/// A pipe is named in what is said of it.
pub proof fn law_pipe_texts()
    ensures
        Pipe::Stdin.closed_text() == "worker stdin closed"@,
        Pipe::Stdout.closed_text() == "worker stdout closed"@,
        Pipe::Stdin.unavailable_text() == "worker stdin unavailable"@,
        Pipe::Stdout.unavailable_text() == "worker stdout unavailable"@,
        wait_timed_out().kind == IoKind::TimedOut,
        wait_timed_out().message == "worker ipc response timed out"@,
{
}

/// An exchange that failed is told by its opcode, by whether the request was
/// being written or the response read, and by the seconds that were up or by
/// what went wrong. One that brought a frame is not spoken of.
pub proof fn law_exchange_lines(outcome: ExchangeModel, opcode: u16, secs: u64)
    ensures
        ({
            let line = exchange_line(outcome, opcode, secs);
            let start = "wrapperd: worker request opcode="@ + decimal(opcode as nat);
            match outcome {
                ExchangeModel::WriteFailed(e) => {
                    &&& e.kind == IoKind::TimedOut ==> line == Some(
                        start + " timed out while writing after "@ + decimal(secs as nat)
                            + "s; discarding worker"@,
                    )
                    &&& e.kind != IoKind::TimedOut ==> line == Some(
                        start + " ipc write error: "@ + e.message + "; discarding worker"@,
                    )
                },
                ExchangeModel::ReadFailed(e) => {
                    &&& e.kind == IoKind::TimedOut ==> line == Some(
                        start + " timed out after "@ + decimal(secs as nat)
                            + "s; discarding worker"@,
                    )
                    &&& e.kind != IoKind::TimedOut ==> line == Some(
                        start + " ipc read error: "@ + e.message + "; discarding worker"@,
                    )
                },
                ExchangeModel::Reply(_) => line is None,
            }
        }),
{
    reveal_strlit("s");
    reveal_strlit("; discarding worker");
    reveal_strlit("s; discarding worker");
    assert("s"@ + "; discarding worker"@ =~= "s; discarding worker"@);
    if let Some(line) = exchange_line(outcome, opcode, secs) {
        let start = "wrapperd: worker request opcode="@ + decimal(opcode as nat);
        let write = start + " timed out while writing after "@ + decimal(secs as nat);
        let read = start + " timed out after "@ + decimal(secs as nat);
        assert(write + "s"@ + "; discarding worker"@ =~= write + "s; discarding worker"@);
        assert(read + "s"@ + "; discarding worker"@ =~= read + "s; discarding worker"@);
    }
}

/// A request that waited in vain for a worker is told by its opcode and by the
/// seconds that it waited.
pub proof fn law_busy_line(opcode: u16, secs: u64)
    ensures
        busy_line(opcode, secs) == "wrapperd: worker request opcode="@ + decimal(opcode as nat)
            + " timed out waiting for a free worker after "@ + decimal(secs as nat) + "s"@,
{
}

/// A log line is the time in brackets, a blank, the message as it stands, and
/// the end of the line.
pub proof fn law_log_line(now_ms: u64, msg: Seq<char>)
    ensures
        ({
            let line = log_line(now_ms, msg);
            let n = decimal(now_ms as nat).len() as int;
            &&& line.len() == n + msg.len() + 4
            &&& line[0] == '['
            &&& line.subrange(1, n + 1) == decimal(now_ms as nat)
            &&& line[n + 1] == ']'
            &&& line[n + 2] == ' '
            &&& line.subrange(n + 3, n + 3 + msg.len()) == msg
            &&& line.last() == '\n'
        }),
{
    reveal_strlit("[");
    reveal_strlit("] ");
    reveal_strlit("\n");
    let line = log_line(now_ms, msg);
    let n = decimal(now_ms as nat).len() as int;
    assert(line.subrange(1, n + 1) =~= decimal(now_ms as nat));
    assert(line.subrange(n + 3, n + 3 + msg.len()) =~= msg);
}

/// The time is the milliseconds since the epoch, as far as they fit in 64 bits,
/// and zero before it.
pub proof fn law_epoch(n: u128, t: std::time::SystemTime)
    ensures
        n <= u64::MAX ==> epoch_value(Some(n)) == n,
        n + 0x1_0000_0000_0000_0000 <= u128::MAX ==> epoch_value(
            Some((n + 0x1_0000_0000_0000_0000) as u128),
        ) == epoch_value(Some(n)),
        epoch_value(None) == 0,
        time_since_epoch(t) is None ==> clock_value(t) == 0,
        time_since_epoch(t) matches Some(d) ==> clock_value(t) == duration_millis(d)
            % 0x1_0000_0000_0000_0000,
{
}

} // verus!
