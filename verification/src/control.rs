//! Control transport: one worker, many backend slots, two byte rings per slot.
//!
//! The region holds a generation word, a free stack of slot ids and one record
//! per slot. A backend leases a slot, the worker claims it, and the slot goes
//! back to the free stack only after both have let go of it.

pub mod backend;
pub mod claim;
pub mod claim_laws;
pub mod error;
pub mod error_text;
pub mod exit_laws;
pub mod frame_laws;
pub mod freelist;
pub mod handle_laws;
pub mod history;
pub mod laws;
pub mod layout;
pub mod lease;
pub mod lifecycle;
pub mod meta;
pub mod order_laws;
pub mod process;
pub mod raw;
pub mod reap_laws;
pub mod region;
pub mod registry;
pub mod reinit;
pub mod reset_laws;
pub mod ring;
pub mod settle_laws;
pub mod slot_laws;
pub mod stack_laws;
pub mod supply_laws;
pub mod traffic_laws;
pub mod verdict_laws;
pub mod worker;
