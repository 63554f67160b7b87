//! The readiness-gated scheduler: waits for a one-shot readiness
//! signal, runs the pipeline once immediately, then once per elapsed
//! interval, never overlapping runs.

use vstd::prelude::*;

verus! {

/// Where the scheduler stands.
#[derive(PartialEq, Eq, Structural, Clone, Copy, Debug)]
pub enum GateState {
    /// Before the one-shot readiness signal has fired; nothing runs.
    WaitingForReadiness,
    /// After readiness; a run is triggered on each elapsed interval.
    Running,
}

/// What the surrounding loop observed.
#[derive(PartialEq, Eq, Structural, Clone, Copy, Debug)]
pub enum GateEvent {
    /// The one-shot readiness signal fired.
    ReadinessFired,
    /// The fixed interval elapsed.
    IntervalElapsed,
}

/// What the surrounding loop must do next.
#[derive(PartialEq, Eq, Structural, Clone, Copy, Debug)]
pub enum GateAction {
    /// Execute one pipeline run to completion, then keep ticking.
    RunPipeline,
    /// Do nothing; keep waiting.
    Wait,
}

/// The scheduler's transition function as a value.
pub open spec fn gate_step_spec(s: GateState, e: GateEvent) -> (GateState, GateAction) {
    match (s, e) {
        (GateState::WaitingForReadiness, GateEvent::ReadinessFired) => (
            GateState::Running,
            GateAction::RunPipeline,
        ),
        (GateState::WaitingForReadiness, GateEvent::IntervalElapsed) => (
            GateState::WaitingForReadiness,
            GateAction::Wait,
        ),
        (GateState::Running, GateEvent::IntervalElapsed) => (
            GateState::Running,
            GateAction::RunPipeline,
        ),
        (GateState::Running, GateEvent::ReadinessFired) => (GateState::Running, GateAction::Wait),
    }
}

/// Advances the scheduler: readiness moves it from waiting to running
/// and triggers the first run at once, without waiting for the first
/// interval; afterwards every elapsed interval triggers exactly one
/// run. An interval elapsing before readiness does nothing, and a
/// (contractually impossible) second readiness signal is ignored, so
/// running is never left once entered.
pub fn gate_step(s: GateState, e: GateEvent) -> (r: (GateState, GateAction))
    ensures
        r == gate_step_spec(s, e),
        s == GateState::Running ==> r.0 == GateState::Running,
        r.0 == GateState::Running || r.1 == GateAction::Wait,
{
    match (s, e) {
        (GateState::WaitingForReadiness, GateEvent::ReadinessFired) => (
            GateState::Running,
            GateAction::RunPipeline,
        ),
        (GateState::WaitingForReadiness, GateEvent::IntervalElapsed) => (
            GateState::WaitingForReadiness,
            GateAction::Wait,
        ),
        (GateState::Running, GateEvent::IntervalElapsed) => (
            GateState::Running,
            GateAction::RunPipeline,
        ),
        (GateState::Running, GateEvent::ReadinessFired) => (GateState::Running, GateAction::Wait),
    }
}

} // verus!
