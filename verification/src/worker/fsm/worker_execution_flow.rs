//! The transitions of an execution.

use super::{WorkerExecutionAction, WorkerExecutionEvent, WorkerExecutionState};
use vstd::prelude::*;

verus! {

/// An event that a state does not take.
#[derive(Clone, Copy, Debug, PartialEq, Eq, Structural)]
pub struct TransitionImpossibleError;

/// Where an event leads from a state, and what is done; nothing, if the state
/// does not take the event.
pub open spec fn transition(state: WorkerExecutionState, event: WorkerExecutionEvent) -> Option<
    (WorkerExecutionState, WorkerExecutionAction),
> {
    match (state, event) {
        (WorkerExecutionState::Idle, WorkerExecutionEvent::StartExecution) => Some(
            (WorkerExecutionState::ReceivingPlan, WorkerExecutionAction::OpenPlanFlow),
        ),
        (WorkerExecutionState::ReceivingPlan, WorkerExecutionEvent::PlanFrame) => Some(
            (WorkerExecutionState::ReceivingPlan, WorkerExecutionAction::AcceptPlanFrame),
        ),
        (WorkerExecutionState::ReceivingPlan, WorkerExecutionEvent::PlanDecoded) => Some(
            (WorkerExecutionState::Planning, WorkerExecutionAction::PlanPhysical),
        ),
        (WorkerExecutionState::Planning, WorkerExecutionEvent::PhysicalPlanReady) => Some(
            (WorkerExecutionState::Running, WorkerExecutionAction::MarkRunning),
        ),
        (WorkerExecutionState::Running, WorkerExecutionEvent::OpenScan) => Some(
            (WorkerExecutionState::Running, WorkerExecutionAction::OpenScan),
        ),
        (WorkerExecutionState::Running, WorkerExecutionEvent::ScanPage) => Some(
            (WorkerExecutionState::Running, WorkerExecutionAction::AcceptScanPage),
        ),
        (WorkerExecutionState::Running, WorkerExecutionEvent::ScanEof) => Some(
            (WorkerExecutionState::Running, WorkerExecutionAction::ObserveScanEof),
        ),
        (WorkerExecutionState::Running, WorkerExecutionEvent::CompleteExecution) => Some(
            (WorkerExecutionState::Terminal, WorkerExecutionAction::CompleteExecution),
        ),
        (WorkerExecutionState::Terminal, WorkerExecutionEvent::Cleanup) => Some(
            (WorkerExecutionState::Idle, WorkerExecutionAction::CleanupExecution),
        ),
        (WorkerExecutionState::Terminal, _) => None,
        (_, WorkerExecutionEvent::TransportRestart) => Some(
            (WorkerExecutionState::Terminal, WorkerExecutionAction::AbortForTransportRestart),
        ),
        (WorkerExecutionState::Idle, _) => None,
        (_, WorkerExecutionEvent::FailExecution) => Some(
            (WorkerExecutionState::Terminal, WorkerExecutionAction::FailExecution),
        ),
        (_, WorkerExecutionEvent::CancelExecution) => Some(
            (WorkerExecutionState::Terminal, WorkerExecutionAction::CancelExecution),
        ),
        _ => None,
    }
}

/// The state of one execution.
#[derive(Clone, Copy, Debug, PartialEq, Eq)]
pub struct StateMachine {
    pub state: WorkerExecutionState,
}

impl StateMachine {
    /// A machine without an execution.
    pub fn new() -> (r: Self)
        ensures
            r.state == WorkerExecutionState::Idle,
    {
        StateMachine { state: WorkerExecutionState::Idle }
    }

    /// The state it is in.
    pub fn state(&self) -> (r: &WorkerExecutionState)
        ensures
            *r == self.state,
    {
        &self.state
    }

    /// Takes an event. An event that the state does not take changes nothing.
    pub fn consume(&mut self, event: &WorkerExecutionEvent) -> (r: Result<
        Option<WorkerExecutionAction>,
        TransitionImpossibleError,
    >)
        ensures
            match transition(old(self).state, *event) {
                Some((state, action)) => final(self).state == state && r == Ok::<
                    Option<WorkerExecutionAction>,
                    TransitionImpossibleError,
                >(Some(action)),
                None => final(self).state == old(self).state && r == Err::<
                    Option<WorkerExecutionAction>,
                    TransitionImpossibleError,
                >(TransitionImpossibleError),
            },
    {
        let (next, action) = match (self.state, *event) {
            (WorkerExecutionState::Idle, WorkerExecutionEvent::StartExecution) => (
                WorkerExecutionState::ReceivingPlan,
                WorkerExecutionAction::OpenPlanFlow,
            ),
            (WorkerExecutionState::ReceivingPlan, WorkerExecutionEvent::PlanFrame) => (
                WorkerExecutionState::ReceivingPlan,
                WorkerExecutionAction::AcceptPlanFrame,
            ),
            (WorkerExecutionState::ReceivingPlan, WorkerExecutionEvent::PlanDecoded) => (
                WorkerExecutionState::Planning,
                WorkerExecutionAction::PlanPhysical,
            ),
            (WorkerExecutionState::Planning, WorkerExecutionEvent::PhysicalPlanReady) => (
                WorkerExecutionState::Running,
                WorkerExecutionAction::MarkRunning,
            ),
            (WorkerExecutionState::Running, WorkerExecutionEvent::OpenScan) => (
                WorkerExecutionState::Running,
                WorkerExecutionAction::OpenScan,
            ),
            (WorkerExecutionState::Running, WorkerExecutionEvent::ScanPage) => (
                WorkerExecutionState::Running,
                WorkerExecutionAction::AcceptScanPage,
            ),
            (WorkerExecutionState::Running, WorkerExecutionEvent::ScanEof) => (
                WorkerExecutionState::Running,
                WorkerExecutionAction::ObserveScanEof,
            ),
            (WorkerExecutionState::Running, WorkerExecutionEvent::CompleteExecution) => (
                WorkerExecutionState::Terminal,
                WorkerExecutionAction::CompleteExecution,
            ),
            (WorkerExecutionState::Terminal, WorkerExecutionEvent::Cleanup) => (
                WorkerExecutionState::Idle,
                WorkerExecutionAction::CleanupExecution,
            ),
            (WorkerExecutionState::Terminal, _) => {
                return Err(TransitionImpossibleError);
            },
            (_, WorkerExecutionEvent::TransportRestart) => (
                WorkerExecutionState::Terminal,
                WorkerExecutionAction::AbortForTransportRestart,
            ),
            (WorkerExecutionState::Idle, _) => {
                return Err(TransitionImpossibleError);
            },
            (_, WorkerExecutionEvent::FailExecution) => (
                WorkerExecutionState::Terminal,
                WorkerExecutionAction::FailExecution,
            ),
            (_, WorkerExecutionEvent::CancelExecution) => (
                WorkerExecutionState::Terminal,
                WorkerExecutionAction::CancelExecution,
            ),
            _ => {
                return Err(TransitionImpossibleError);
            },
        };
        self.state = next;
        Ok(Some(action))
    }
}

/// The one action that each event can lead to.
pub open spec fn action_of(event: WorkerExecutionEvent) -> WorkerExecutionAction {
    match event {
        WorkerExecutionEvent::StartExecution => WorkerExecutionAction::OpenPlanFlow,
        WorkerExecutionEvent::PlanFrame => WorkerExecutionAction::AcceptPlanFrame,
        WorkerExecutionEvent::PlanDecoded => WorkerExecutionAction::PlanPhysical,
        WorkerExecutionEvent::PhysicalPlanReady => WorkerExecutionAction::MarkRunning,
        WorkerExecutionEvent::OpenScan => WorkerExecutionAction::OpenScan,
        WorkerExecutionEvent::ScanPage => WorkerExecutionAction::AcceptScanPage,
        WorkerExecutionEvent::ScanEof => WorkerExecutionAction::ObserveScanEof,
        WorkerExecutionEvent::CompleteExecution => WorkerExecutionAction::CompleteExecution,
        WorkerExecutionEvent::FailExecution => WorkerExecutionAction::FailExecution,
        WorkerExecutionEvent::CancelExecution => WorkerExecutionAction::CancelExecution,
        WorkerExecutionEvent::TransportRestart => WorkerExecutionAction::AbortForTransportRestart,
        WorkerExecutionEvent::Cleanup => WorkerExecutionAction::CleanupExecution,
    }
}

/// What is done depends on the event alone; the state only decides whether the
/// event is taken.
pub proof fn law_event_decides_action(state: WorkerExecutionState, event: WorkerExecutionEvent)
    ensures
        transition(state, event) matches Some((_, action)) ==> action == action_of(event),
{
}

/// An execution that has ended takes nothing but its cleanup, and only the
/// cleanup leads back to idle.
pub proof fn law_terminal_needs_cleanup(
    state: WorkerExecutionState,
    event: WorkerExecutionEvent,
)
    ensures
        transition(WorkerExecutionState::Terminal, event) is Some <==> event
            == WorkerExecutionEvent::Cleanup,
        transition(state, event) matches Some((next, _)) ==> (next == WorkerExecutionState::Idle
            <==> state == WorkerExecutionState::Terminal && event == WorkerExecutionEvent::Cleanup),
{
}

/// A restart of the transport ends every execution that has not ended.
pub proof fn law_restart_ends_execution(state: WorkerExecutionState)
    requires
        state != WorkerExecutionState::Terminal,
    ensures
        transition(state, WorkerExecutionEvent::TransportRestart) == Some(
            (WorkerExecutionState::Terminal, WorkerExecutionAction::AbortForTransportRestart),
        ),
{
}

/// Failure and cancellation end an execution once it has started.
pub proof fn law_started_execution_can_be_ended(state: WorkerExecutionState)
    requires
        state != WorkerExecutionState::Terminal,
        state != WorkerExecutionState::Idle,
    ensures
        transition(state, WorkerExecutionEvent::FailExecution) == Some(
            (WorkerExecutionState::Terminal, WorkerExecutionAction::FailExecution),
        ),
        transition(state, WorkerExecutionEvent::CancelExecution) == Some(
            (WorkerExecutionState::Terminal, WorkerExecutionAction::CancelExecution),
        ),
{
}

/// Scans are only for running executions, which they leave running.
pub proof fn law_scans_need_running(state: WorkerExecutionState, event: WorkerExecutionEvent)
    requires
        event == WorkerExecutionEvent::OpenScan || event == WorkerExecutionEvent::ScanPage || event
            == WorkerExecutionEvent::ScanEof,
    ensures
        transition(state, event) is Some <==> state == WorkerExecutionState::Running,
        transition(state, event) matches Some((next, _)) ==> next == WorkerExecutionState::Running,
{
}

} // verus!
