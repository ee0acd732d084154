use virtualgamepad::backend_api::{
    BackendError, BackendFrame, BackendReverseEvent, BackendReverseEventKind, BackendSession,
    EventReadiness,
};
use virtualgamepad::fake_backend::{backend_factory, FakeFailure};
use virtualgamepad::recorder::{record, replay};
use virtualgamepad::reverse_translation::{OutputFunction, ReversePayload, ReverseTarget};
use virtualgamepad::runtime_model::{
    BackendFamily, BackendLevel, BackendOpenContext, FidelityTier, HostPlatform,
};
use virtualgamepad::testkit::{
    BackendTrace, BackendTracePayload, BackendTraceStep, TraceDirection, TraceOperation,
};

fn open_context() -> BackendOpenContext {
    BackendOpenContext {
        session_id: 9,
        profile_id: "dualsense".to_string(),
        fidelity_tier: FidelityTier::IdentityAware,
        backend_level: BackendLevel::Hid,
        host_platform: HostPlatform::Linux,
    }
}

fn reverse_event() -> BackendReverseEvent {
    BackendReverseEvent {
        session_id: 9,
        profile_id: Some("dualsense".to_string()),
        timestamp: 5,
        sequence: 7,
        kind: BackendReverseEventKind::HidOutputReport,
        target: Some(ReverseTarget::SemanticOutput(OutputFunction::Rumble)),
        payload: ReversePayload::Hid {
            report_id: Some(5),
            bytes: vec![0x10, 0x20],
        },
    }
}

fn input_frame() -> BackendFrame {
    BackendFrame::HidInputReport {
        report_id: Some(1),
        bytes: vec![1, 2, 3],
    }
}

#[test]
fn replay_send_mismatch_names_expected_step_kind() {
    let factory = backend_factory()
        .reverse_events_from_iter(vec![reverse_event()])
        .build();
    let inner = factory.open_fake_session(&open_context()).expect("open");
    let mut recorder = record(inner);
    recorder.open().expect("open");
    let mut drained = Vec::new();
    recorder
        .drain_reverse_events(&mut drained)
        .expect("drain reverse");
    recorder.send(input_frame()).expect("send");
    let trace = recorder.into_trace();

    let mut session = replay(trace).session(9);
    session.open().expect("open replay");
    let error = session
        .send(input_frame())
        .expect_err("send before drain should error");
    let BackendError::WriteFailed { reason } = error else {
        panic!("expected WriteFailed, got {error:?}");
    };
    assert!(
        reason.contains("`reverse-event`"),
        "reason should name the recorded next step: {reason}"
    );
    assert!(
        reason.contains("drain reverse events first"),
        "reason should hint at remediation: {reason}"
    );
    assert_eq!(
        reason,
        "replay expected next operation to be `reverse-event`, got send(hid-input-report); drain reverse events first if the trace interleaves them"
    );
}

#[test]
fn replay_peek_exposes_next_step() {
    let factory = backend_factory()
        .reverse_events_from_iter(vec![reverse_event()])
        .build();
    let inner = factory.open_fake_session(&open_context()).expect("open");
    let mut recorder = record(inner);
    recorder.open().expect("open");
    recorder.send(input_frame()).expect("send");
    let trace = recorder.into_trace();

    let session = replay(trace).session(9);
    let next = session.peek_next_step().expect("peek next");
    assert_eq!(
        next.payload.kind_label(),
        "hid-input-report",
        "peek should reveal the recorded outbound step"
    );
}

#[test]
fn replay_diagnostics_carry_recorded_backend_identity() {
    let factory = backend_factory()
        .backend_id("fake-dualsense-recorder".to_string())
        .family(BackendFamily::LinuxUhid)
        .reverse_events_from_iter(vec![reverse_event()])
        .build();
    let inner = factory.open_fake_session(&open_context()).expect("open");
    let mut recorder = record(inner);
    recorder.open().expect("open");
    recorder.send(input_frame()).expect("send");
    let trace = recorder.into_trace();
    assert_eq!(trace.backend_id.as_deref(), Some("fake-dualsense-recorder"));

    let mut session = replay(trace).session(9);
    session.open().expect("open replay");
    let diagnostics = session.diagnostics();
    assert_eq!(diagnostics.backend_id, "fake-dualsense-recorder");
    assert_eq!(diagnostics.family, BackendFamily::LinuxUhid);
}

#[test]
fn recorder_records_open_failure() {
    let factory = backend_factory()
        .with_failure(FakeFailure::OpenRefused(BackendError::OpenFailed {
            reason: "refused".to_string(),
        }))
        .build();
    // The refusal trips at the factory, before a session exists to record.
    assert!(factory.open_fake_session(&open_context()).is_err());
}

#[test]
fn recorder_records_send_failure() {
    let factory = backend_factory()
        .with_failure(FakeFailure::SendPermanentlyFails(BackendError::WriteFailed {
            reason: "permanent".to_string(),
        }))
        .build();
    let inner = factory.open_fake_session(&open_context()).expect("open");
    let mut recorder = record(inner);
    recorder.open().expect("open runtime");
    let _ = recorder.send(input_frame());
    let trace = recorder.into_trace();
    assert_eq!(trace.steps.len(), 1);
    assert_eq!(trace.steps[0].direction, TraceDirection::Error);
    assert!(matches!(
        trace.steps[0].payload,
        BackendTracePayload::Failure {
            operation: TraceOperation::Send,
            ..
        }
    ));
}

#[test]
fn recorder_records_drain_failure() {
    let factory = backend_factory()
        .with_failure(FakeFailure::DrainParseError)
        .reverse_events_from_iter(vec![reverse_event()])
        .build();
    let inner = factory.open_fake_session(&open_context()).expect("open");
    let mut recorder = record(inner);
    recorder.open().expect("open runtime");
    let _ = recorder.drain_reverse_events(&mut Vec::new());
    let trace = recorder.into_trace();
    assert_eq!(trace.steps.len(), 1);
    assert_eq!(trace.steps[0].direction, TraceDirection::Error);
    assert!(matches!(
        trace.steps[0].payload,
        BackendTracePayload::Failure {
            operation: TraceOperation::DrainReverseEvents,
            ..
        }
    ));
}

#[test]
fn recorder_records_close_failure() {
    let factory = backend_factory()
        .with_failure(FakeFailure::CloseFails)
        .build();
    let inner = factory.open_fake_session(&open_context()).expect("open");
    let mut recorder = record(inner);
    recorder.open().expect("open runtime");
    let _ = recorder.close();
    let trace = recorder.into_trace();
    assert_eq!(trace.steps.len(), 1);
    assert_eq!(trace.steps[0].direction, TraceDirection::Error);
    assert!(matches!(
        trace.steps[0].payload,
        BackendTracePayload::Failure {
            operation: TraceOperation::Close,
            ..
        }
    ));
}

#[test]
fn recorder_trace_replays_back_into_backend_session() {
    let factory = backend_factory()
        .reverse_events_from_iter(vec![reverse_event()])
        .build();
    let inner = factory.open_fake_session(&open_context()).expect("open");
    let mut recorder = record(inner);
    recorder.open().expect("open");
    recorder.send(input_frame()).expect("send");
    let mut drained = Vec::new();
    recorder
        .drain_reverse_events(&mut drained)
        .expect("drain reverse");
    let trace = recorder.into_trace();

    let replay_backend = replay(trace.clone());
    let mut session = replay_backend.session(9);
    session.open().expect("open replay");
    session.send(input_frame()).expect("replay send");
    assert_eq!(session.readiness(), EventReadiness::AlwaysPoll);
    let mut replayed = Vec::new();
    session
        .drain_reverse_events(&mut replayed)
        .expect("replay reverse");
    assert_eq!(drained, replayed);
    assert_eq!(trace.steps.len(), 2);
    assert_eq!(session.readiness(), EventReadiness::NoReverseEvents);
    assert_eq!(session.send(input_frame()), Err(BackendError::WouldBlock));
}

#[test]
fn replay_reports_recorded_failures_and_unknown_steps() {
    let trace = BackendTrace {
        backend_id: None,
        family: None,
        transport: None,
        steps: vec![
            BackendTraceStep {
                direction: TraceDirection::Inbound,
                payload: BackendTracePayload::ReverseEvent {
                    event: reverse_event(),
                },
            },
            BackendTraceStep {
                direction: TraceDirection::Error,
                payload: BackendTracePayload::Failure {
                    operation: TraceOperation::DrainReverseEvents,
                    error: "garbled".to_string(),
                },
            },
            BackendTraceStep {
                direction: TraceDirection::Error,
                payload: BackendTracePayload::Failure {
                    operation: TraceOperation::Send,
                    error: "unplugged".to_string(),
                },
            },
            BackendTraceStep {
                direction: TraceDirection::Outbound,
                payload: BackendTracePayload::Unsupported {
                    frame_kind: "FuturisticReport".to_string(),
                },
            },
        ],
    };
    let mut session = replay(trace).session(3);
    assert_eq!(session.diagnostics().backend_id, "replay-backend");
    let mut out = Vec::new();
    assert_eq!(
        session.drain_reverse_events(&mut out),
        Err(BackendError::ReverseEventParseFailed {
            reason: "garbled".to_string()
        })
    );
    assert_eq!(out, vec![reverse_event()]);
    assert_eq!(
        session.send(input_frame()),
        Err(BackendError::WriteFailed {
            reason: "unplugged".to_string()
        })
    );
    assert_eq!(
        session.send(input_frame()),
        Err(BackendError::Unsupported {
            reason: "recorded trace step is unsupported frame variant `FuturisticReport`"
                .to_string()
        })
    );
    assert_eq!(session.diagnostics().reverse_events_drained, 1);
}
