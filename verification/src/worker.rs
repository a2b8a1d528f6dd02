//! Decisions of the query worker: execution states, scans, filters and spilling.

pub mod error;
pub mod filter_laws;
pub mod fsm;
pub mod key_column;
pub mod plan_laws;
pub mod runtime_filter_install;
pub mod runtime_filter_plan;
pub mod scan_exec;
pub mod scan_flow_driver;
pub mod scan_laws;
pub mod spill;
pub mod spill_metrics;
pub mod transport_scan_source;
