//! Counters and timers in shared memory.

pub mod descriptor;
pub mod error_text;
pub mod reading_laws;
pub mod region;
