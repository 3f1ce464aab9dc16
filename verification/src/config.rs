//! Settings of the supervisor, as the environment gives them.

use vstd::prelude::*;

use crate::text::{parse_unsigned, unsigned_value};

verus! {

/// How long a request may take, in seconds, by the value of
/// `WRAPPER_WORKER_TIMEOUT_SECS`: that number where it is a positive one, a
/// minute otherwise.
pub open spec fn timeout_secs(var: Option<Seq<char>>) -> u64 {
    match var {
        Some(v) => match unsigned_value(v) {
            Some(n) => if n > 0 {
                n
            } else {
                60
            },
            None => 60,
        },
        None => 60,
    }
}

/// The number of workers, by the value of `WRAPPER_WORKER_POOL`: that number
/// where it is between one and eight, three otherwise.
pub open spec fn worker_count(var: Option<Seq<char>>) -> usize {
    match var {
        Some(v) => match unsigned_value(v) {
            Some(n) => if 1 <= n <= 8 {
                n as usize
            } else {
                3
            },
            None => 3,
        },
        None => 3,
    }
}

/// The text of an environment variable, where it is set.
pub open spec fn var_text(var: Option<String>) -> Option<Seq<char>> {
    match var {
        Some(v) => Some(v@),
        None => None,
    }
}

/// How long a request may take, in seconds, by the value of
/// `WRAPPER_WORKER_TIMEOUT_SECS`.
pub fn worker_timeout(var: &Option<String>) -> (r: u64)
    ensures
        r == timeout_secs(var_text(*var)),
        r > 0,
{
    match var {
        Some(v) => match parse_unsigned(v.as_str()) {
            Some(n) => if n > 0 {
                n
            } else {
                60
            },
            None => 60,
        },
        None => 60,
    }
}

/// Number of independent worker processes, by the value of
/// `WRAPPER_WORKER_POOL`. Each worker serializes its own traffic, so as many
/// requests run side by side as there are workers.
pub fn pool_size(var: &Option<String>) -> (r: usize)
    ensures
        r == worker_count(var_text(*var)),
        1 <= r <= 8,
{
    match var {
        Some(v) => match parse_unsigned(v.as_str()) {
            Some(n) => if 1 <= n && n <= 8 {
                n as usize
            } else {
                3
            },
            None => 3,
        },
        None => 3,
    }
}

} // verus!
