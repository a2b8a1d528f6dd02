//! Shared-memory runtime that connects database backends with one query worker.
//!
//! * [`control`]: slot leasing, worker generations and framed byte rings.
//! * [`protocol`]: the messages that travel through the rings.
//! * [`filter`]: Bloom filters that the worker builds and the scans probe.
//! * [`metrics`]: counters, timers and page stamps.
//! * [`worker`]: what the worker decides about executions, scans, filters and
//!   spilling.
//!
//! What shared memory holds is an owned value here, and each method on it is one
//! step. Process ids, answers of the operating system, clock readings and
//! floating-point estimates come in as plain values.
#![allow(unused_imports)]

pub mod bytes;
pub mod control;
pub mod filter;
pub mod metrics;
pub mod number_laws;
pub mod protocol;
pub mod text;
pub mod text_laws;
pub mod worker;
