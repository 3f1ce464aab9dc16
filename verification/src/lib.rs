//! Supervision of a pool of IPC worker processes.
//!
//! The library decides and keeps the books: what is written to a worker and
//! what its answer means ([`frame`], [`exchange`], [`response`]), how long to
//! wait for it ([`pipe`]), which worker takes a request and what becomes of it
//! afterwards ([`slots`], [`worker`]), and what is said and logged ([`report`],
//! [`logfile`]). What holds of all of it together is in [`laws`], what holds of
//! all leases that are out at once in [`fleet`], and what each part does, in
//! terms of what goes in and what comes out, in [`law_exchange`], [`law_pool`],
//! [`law_snapshot`] and [`law_text`]. Processes, pipes, the clock and the
//! environment are the caller's.

pub mod config;
pub mod error;
pub mod exchange;
pub mod fleet;
pub mod frame;
pub mod json;
pub mod law_exchange;
pub mod law_pool;
pub mod law_snapshot;
pub mod law_text;
pub mod laws;
pub mod logfile;
pub mod pipe;
pub mod report;
pub mod response;
pub mod slots;
pub mod text;
pub mod worker;
