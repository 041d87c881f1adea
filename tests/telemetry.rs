use user_service::telemetry::{telemetry_step, TelemetryAction, TelemetryEvent, TelemetryPhase};

#[test]
fn start_installs_once() {
    let (p, a) = telemetry_step(TelemetryPhase::Uninitialized, TelemetryEvent::Start);
    assert_eq!((p, a), (TelemetryPhase::Running, TelemetryAction::Install));
    assert_eq!(telemetry_step(p, TelemetryEvent::Start), (TelemetryPhase::Running, TelemetryAction::Nothing));
}

#[test]
fn stop_flushes_once() {
    let (p, a) = telemetry_step(TelemetryPhase::Running, TelemetryEvent::Stop);
    assert_eq!((p, a), (TelemetryPhase::ShutDown, TelemetryAction::FlushAndClose));
    assert_eq!(telemetry_step(p, TelemetryEvent::Stop), (TelemetryPhase::ShutDown, TelemetryAction::Nothing));
    assert_eq!(telemetry_step(p, TelemetryEvent::Start), (TelemetryPhase::ShutDown, TelemetryAction::Nothing));
}

#[test]
fn stop_before_start_does_nothing() {
    assert_eq!(
        telemetry_step(TelemetryPhase::Uninitialized, TelemetryEvent::Stop),
        (TelemetryPhase::Uninitialized, TelemetryAction::Nothing)
    );
}

#[test]
fn any_event_run_flushes_at_most_once() {
    let events = [TelemetryEvent::Stop, TelemetryEvent::Start, TelemetryEvent::Start, TelemetryEvent::Stop, TelemetryEvent::Stop, TelemetryEvent::Start, TelemetryEvent::Stop];
    let mut phase = TelemetryPhase::Uninitialized;
    let mut flushes = 0;
    for e in events {
        let (next, action) = telemetry_step(phase, e);
        if action == TelemetryAction::FlushAndClose {
            flushes += 1;
        }
        phase = next;
    }
    assert_eq!(flushes, 1);
    assert_eq!(phase, TelemetryPhase::ShutDown);
}
