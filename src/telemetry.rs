//! The life of the process-wide telemetry providers: installed once at
//! startup, flushed and closed once at exit.
use vstd::prelude::*;

verus! {

#[derive(Clone, Copy, Debug, PartialEq, Eq, Structural)]
pub enum TelemetryPhase {
    Uninitialized,
    Running,
    ShutDown,
}

#[derive(Clone, Copy, Debug, PartialEq, Eq, Structural)]
pub enum TelemetryEvent {
    Start,
    Stop,
}

/// What the caller must do with the providers after a step.
#[derive(Clone, Copy, Debug, PartialEq, Eq, Structural)]
pub enum TelemetryAction {
    /// Build the exporters and providers and install the subscriber.
    Install,
    /// Flush and close both providers.
    FlushAndClose,
    Nothing,
}

/// Start installs from the initial phase only; Stop closes a running pair
/// only. Every other event leaves the phase as it is and asks for nothing.
pub open spec fn spec_telemetry_step(phase: TelemetryPhase, event: TelemetryEvent) -> (
    TelemetryPhase,
    TelemetryAction,
) {
    match (phase, event) {
        (TelemetryPhase::Uninitialized, TelemetryEvent::Start) => (
            TelemetryPhase::Running,
            TelemetryAction::Install,
        ),
        (TelemetryPhase::Running, TelemetryEvent::Stop) => (
            TelemetryPhase::ShutDown,
            TelemetryAction::FlushAndClose,
        ),
        _ => (phase, TelemetryAction::Nothing),
    }
}

pub fn telemetry_step(phase: TelemetryPhase, event: TelemetryEvent) -> (r: (
    TelemetryPhase,
    TelemetryAction,
))
    ensures
        r == spec_telemetry_step(phase, event),
{
    match (phase, event) {
        (TelemetryPhase::Uninitialized, TelemetryEvent::Start) => (
            TelemetryPhase::Running,
            TelemetryAction::Install,
        ),
        (TelemetryPhase::Running, TelemetryEvent::Stop) => (
            TelemetryPhase::ShutDown,
            TelemetryAction::FlushAndClose,
        ),
        _ => (phase, TelemetryAction::Nothing),
    }
}

/// How many flushes a run of events from `phase` asks for.
pub open spec fn flush_count(phase: TelemetryPhase, events: Seq<TelemetryEvent>) -> nat
    decreases events.len(),
{
    if events.len() == 0 {
        0
    } else {
        let (next, action) = spec_telemetry_step(phase, events[0]);
        flush_count(next, events.drop_first()) + if action == TelemetryAction::FlushAndClose {
            1nat
        } else {
            0nat
        }
    }
}

/// Whatever events arrive, the providers are flushed and closed at most once,
/// and never again once shut down.
pub proof fn lemma_flushed_at_most_once(phase: TelemetryPhase, events: Seq<TelemetryEvent>)
    ensures
        flush_count(phase, events) <= 1,
        phase == TelemetryPhase::ShutDown ==> flush_count(phase, events) == 0,
    decreases events.len(),
{
    if events.len() > 0 {
        let (next, action) = spec_telemetry_step(phase, events[0]);
        lemma_flushed_at_most_once(next, events.drop_first());
    }
}

} // verus!
