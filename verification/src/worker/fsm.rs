//! The states of one execution in the worker.

use vstd::prelude::*;

pub mod worker_execution_flow;

verus! {

/// What happens to an execution.
#[derive(Clone, Copy, Debug, PartialEq, Eq, Structural)]
pub enum WorkerExecutionEvent {
    StartExecution,
    PlanFrame,
    PlanDecoded,
    PhysicalPlanReady,
    OpenScan,
    ScanPage,
    ScanEof,
    CompleteExecution,
    FailExecution,
    CancelExecution,
    TransportRestart,
    Cleanup,
}

/// What the worker does about it.
#[derive(Clone, Copy, Debug, PartialEq, Eq, Structural)]
pub enum WorkerExecutionAction {
    OpenPlanFlow,
    AcceptPlanFrame,
    PlanPhysical,
    MarkRunning,
    OpenScan,
    AcceptScanPage,
    ObserveScanEof,
    CompleteExecution,
    FailExecution,
    CancelExecution,
    AbortForTransportRestart,
    CleanupExecution,
}

/// Where an execution stands.
#[derive(Clone, Copy, Debug, PartialEq, Eq, Structural)]
pub enum WorkerExecutionState {
    Idle,
    ReceivingPlan,
    Planning,
    Running,
    Terminal,
}

} // verus!
