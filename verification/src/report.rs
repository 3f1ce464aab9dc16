//! What is said on standard error of a request that got no answer.

use vstd::prelude::*;
use vstd::string::StringExecFns;

use crate::error::IoKind;
use crate::exchange::{Exchange, ExchangeModel};
use crate::text::{decimal, decimal_text};

verus! {

/// How each of these lines begins.
pub open spec fn request_prefix(opcode: u16) -> Seq<char> {
    "wrapperd: worker request opcode="@ + decimal(opcode as nat)
}

/// What is said of a request that ran out of its `secs` seconds while `doing`
/// something.
pub open spec fn timeout_line(opcode: u16, doing: Seq<char>, secs: u64) -> Seq<char> {
    request_prefix(opcode) + doing + decimal(secs as nat) + "s"@
}

/// What is said of a request whose exchange failed otherwise while `doing`
/// something.
pub open spec fn failure_line(opcode: u16, doing: Seq<char>, message: Seq<char>) -> Seq<char> {
    request_prefix(opcode) + doing + message
}

/// What is said of an exchange, if anything: a failure is told by whether the
/// request was being written or the response read, and by whether its `secs`
/// seconds were up. An exchange that brought a frame is not spoken of.
pub open spec fn exchange_line(outcome: ExchangeModel, opcode: u16, secs: u64) -> Option<Seq<char>> {
    match outcome {
        ExchangeModel::WriteFailed(e) => Some(
            if e.kind == IoKind::TimedOut {
                timeout_line(opcode, " timed out while writing after "@, secs)
            } else {
                failure_line(opcode, " ipc write error: "@, e.message)
            } + "; discarding worker"@,
        ),
        ExchangeModel::ReadFailed(e) => Some(
            if e.kind == IoKind::TimedOut {
                timeout_line(opcode, " timed out after "@, secs)
            } else {
                failure_line(opcode, " ipc read error: "@, e.message)
            } + "; discarding worker"@,
        ),
        ExchangeModel::Reply(_) => None,
    }
}

/// What is said of a request that waited `secs` seconds for a worker in vain.
pub open spec fn busy_line(opcode: u16, secs: u64) -> Seq<char> {
    timeout_line(opcode, " timed out waiting for a free worker after "@, secs)
}

fn say_timeout(opcode: u16, doing: &str, secs: u64) -> (r: String)
    ensures
        r@ == timeout_line(opcode, doing@, secs),
{
    let mut line = "wrapperd: worker request opcode=".to_string();
    line.append(decimal_text(opcode as u64).as_str());
    line.append(doing);
    line.append(decimal_text(secs).as_str());
    line.append("s");
    line
}

fn say_failure(opcode: u16, doing: &str, message: &str) -> (r: String)
    ensures
        r@ == failure_line(opcode, doing@, message@),
{
    let mut line = "wrapperd: worker request opcode=".to_string();
    line.append(decimal_text(opcode as u64).as_str());
    line.append(doing);
    line.append(message);
    line
}

/// The line to print of an exchange of a request for `opcode` that had `secs`
/// seconds, if there is one.
pub fn report_exchange(outcome: &Exchange, opcode: u16, secs: u64) -> (r: Option<String>)
    ensures
        match r {
            Some(line) => exchange_line(outcome@, opcode, secs) == Some(line@),
            None => exchange_line(outcome@, opcode, secs) is None,
        },
{
    let mut line = match outcome {
        Exchange::WriteFailed(e) => {
            if e.kind == IoKind::TimedOut {
                say_timeout(opcode, " timed out while writing after ", secs)
            } else {
                say_failure(opcode, " ipc write error: ", e.message.as_str())
            }
        },
        Exchange::ReadFailed(e) => {
            if e.kind == IoKind::TimedOut {
                say_timeout(opcode, " timed out after ", secs)
            } else {
                say_failure(opcode, " ipc read error: ", e.message.as_str())
            }
        },
        Exchange::Reply(_) => {
            return None;
        },
    };
    line.append("; discarding worker");
    Some(line)
}

/// The line to print of a request for `opcode` that waited `secs` seconds for a
/// worker in vain.
pub fn report_busy(opcode: u16, secs: u64) -> (r: String)
    ensures
        r@ == busy_line(opcode, secs),
{
    say_timeout(opcode, " timed out waiting for a free worker after ", secs)
}

} // verus!
