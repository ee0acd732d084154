use virtualgamepad::backend_api::{
    BackendFactory, BackendSession,
    BackendError, BackendFrame, BackendRealizationRequest, BackendReverseEvent,
    BackendReverseEventKind, BackendState, EventReadiness, SupportLevel,
};
use virtualgamepad::fake_backend::{backend_factory, failing_backend, FakeFailure};
use virtualgamepad::reverse_translation::{OutputFunction, ReversePayload, ReverseTarget};
use virtualgamepad::runtime_model::{
    BackendFamily, BackendLevel, BackendOpenContext, EmulationGoal, FidelityTier, HostPlatform,
};

fn open_context() -> BackendOpenContext {
    BackendOpenContext {
        session_id: 7,
        profile_id: "dualsense".to_string(),
        fidelity_tier: FidelityTier::IdentityAware,
        backend_level: BackendLevel::Hid,
        host_platform: HostPlatform::Linux,
    }
}

fn reverse_event() -> BackendReverseEvent {
    BackendReverseEvent {
        session_id: 7,
        profile_id: Some("dualsense".to_string()),
        timestamp: 12,
        sequence: 3,
        kind: BackendReverseEventKind::HidOutputReport,
        target: Some(ReverseTarget::SemanticOutput(OutputFunction::Rumble)),
        payload: ReversePayload::Hid {
            report_id: Some(5),
            bytes: vec![0x11, 0x22],
        },
    }
}

#[test]
fn can_realize_marks_unsupported_requested_output_functions() {
    let factory = backend_factory()
        .family(BackendFamily::LinuxUhid)
        .declares_reverse_output(OutputFunction::Rumble)
        .support_report(SupportLevel::Full, SupportLevel::Full)
        .build();
    let report = factory.can_realize(&BackendRealizationRequest {
        profile_id: "dualsense".to_string(),
        requested_goal: EmulationGoal::IdentityAware,
        requested_fidelity_tier: FidelityTier::IdentityAware,
        host_platform: HostPlatform::Linux,
        required_output_functions: vec![OutputFunction::Rumble, OutputFunction::Lighting],
    });
    assert_eq!(report.forward_support, SupportLevel::Full);
    assert_eq!(report.reverse_support, SupportLevel::Partial);
    assert_eq!(report.supported_output_functions, vec![OutputFunction::Rumble]);
    assert_eq!(report.unsupported_output_functions.len(), 1);
    assert_eq!(report.unsupported_output_functions[0].function, OutputFunction::Lighting);
}

#[test]
fn can_realize_notes_unlisted_tier_and_foreign_host() {
    let factory = backend_factory()
        .note("fake inventory".to_string())
        .declares_reverse_output(OutputFunction::Rumble)
        .declares_reverse_output(OutputFunction::Rumble)
        .build();
    assert_eq!(factory.config.supported_output_functions, vec![OutputFunction::Rumble]);
    let report = factory.can_realize(&BackendRealizationRequest {
        profile_id: "dualsense".to_string(),
        requested_goal: EmulationGoal::HardwareFaithful,
        requested_fidelity_tier: FidelityTier::HardwareFaithful,
        host_platform: HostPlatform::Windows,
        required_output_functions: vec![OutputFunction::Rumble],
    });
    assert_eq!(report.forward_support, SupportLevel::Unsupported);
    assert_eq!(report.reverse_support, SupportLevel::Unsupported);
    assert_eq!(
        report.notes,
        vec![
            "fake inventory".to_string(),
            "requested fidelity `hardware-faithful` is not present in fake inventory".to_string(),
            "requested host `windows` does not match fake host `linux`".to_string(),
        ]
    );
    let entry = factory.inventory_entry();
    assert_eq!(entry.backend_id, "fake-backend");
    assert_eq!(entry.family, BackendFamily::LinuxUhid);
    assert_eq!(entry.supported_fidelity_tiers, vec![FidelityTier::IdentityAware]);
}

/// A caller-side collector that gathers drained events from several
/// drains.
struct Collector {
    inner: Vec<BackendReverseEvent>,
}

impl Extend<BackendReverseEvent> for Collector {
    fn extend<T: IntoIterator<Item = BackendReverseEvent>>(&mut self, iter: T) {
        self.inner.extend(iter);
    }
}

#[test]
fn reverse_event_sink_accepts_vec_and_custom_collector() {
    let factory = backend_factory()
        .reverse_events_from_iter(vec![reverse_event()])
        .build();
    let mut session = factory.open_fake_session(&open_context()).expect("open");
    session.open().expect("open runtime");
    let mut vec_sink = Vec::new();
    session
        .drain_reverse_events(&mut vec_sink)
        .expect("drains into vec");
    assert_eq!(vec_sink.len(), 1);
    assert_eq!(vec_sink[0], reverse_event());

    let factory = backend_factory()
        .reverse_events_from_iter(vec![reverse_event()])
        .build();
    let mut session = factory.open_fake_session(&open_context()).expect("open");
    session.open().expect("open runtime");
    let mut collector = Collector { inner: Vec::new() };
    let mut drained = Vec::new();
    session
        .drain_reverse_events(&mut drained)
        .expect("drains into custom collector");
    collector.extend(drained);
    assert_eq!(collector.inner.len(), 1);
}

#[test]
fn send_would_block_then_recovers_and_captures_frame() {
    let factory = backend_factory()
        .with_failure(FakeFailure::SendWouldBlock)
        .build();
    let mut session = factory.open_fake_session(&open_context()).expect("open");
    session.open().expect("open runtime");
    let frame = BackendFrame::HidInputReport {
        report_id: Some(1),
        bytes: vec![1, 2, 3],
    };
    let error = session
        .send(frame.clone())
        .expect_err("first send should block");
    assert!(matches!(error, BackendError::WouldBlock));
    session.send(frame.clone()).expect("second send succeeds");
    assert_eq!(session.captured_frames(), vec![frame]);
    let diagnostics = session.diagnostics();
    assert_eq!(diagnostics.frames_sent, 1);
    assert_eq!(diagnostics.write_failures, 1);
}

#[test]
fn readiness_flaps_between_readable_and_no_events() {
    let factory = backend_factory()
        .with_failure(FakeFailure::EventReadinessFlapping)
        .build();
    let mut session = factory.open_fake_session(&open_context()).expect("open");
    session.open().expect("open runtime");
    let first = session.readiness();
    let second = session.readiness();
    assert_ne!(format!("{first:?}"), format!("{second:?}"));
    assert!(matches!(first, EventReadiness::Readable(_)));
    assert_eq!(second, EventReadiness::NoReverseEvents);
}

#[test]
fn open_refused_returns_configured_error() {
    let factory = backend_factory()
        .with_failure(FakeFailure::OpenRefused(BackendError::OpenFailed {
            reason: "refused for test".to_string(),
        }))
        .build();
    let error = factory
        .open_fake_session(&open_context())
        .expect_err("open should be refused");
    let BackendError::OpenFailed { reason } = error else {
        panic!("expected OpenFailed, got {error:?}");
    };
    assert_eq!(reason, "refused for test");
}

#[test]
fn provider_panic_surfaces_as_open_failed_for_isolation() {
    let factory = failing_backend(FakeFailure::ProviderPanic);
    let error = factory
        .open_fake_session(&open_context())
        .expect_err("provider panic should surface as open failure");
    let BackendError::OpenFailed { reason } = error else {
        panic!("expected OpenFailed for isolated provider panic, got {error:?}");
    };
    assert!(
        reason.contains("provider panic"),
        "reason should name the simulated panic: {reason}"
    );
}

#[test]
fn send_permanently_fails_returns_error_every_call() {
    let factory = backend_factory()
        .with_failure(FakeFailure::SendPermanentlyFails(BackendError::WriteFailed {
            reason: "permanent".to_string(),
        }))
        .build();
    let mut session = factory.open_fake_session(&open_context()).expect("open");
    session.open().expect("open runtime");
    let frame = BackendFrame::HidInputReport {
        report_id: Some(1),
        bytes: vec![1, 2, 3],
    };
    for attempt in 0..3 {
        let error = session
            .send(frame.clone())
            .expect_err("send should always fail");
        assert!(
            matches!(error, BackendError::WriteFailed { ref reason } if reason == "permanent"),
            "attempt {attempt}: unexpected error {error:?}"
        );
    }
    assert!(session.captured_frames().is_empty());
    assert_eq!(session.state, BackendState::Failed);
}

#[test]
fn drain_parse_error_is_reported_once() {
    let factory = backend_factory()
        .with_failure(FakeFailure::DrainParseError)
        .reverse_events_from_iter(vec![reverse_event()])
        .build();
    let mut session = factory.open_fake_session(&open_context()).expect("open");
    session.open().expect("open runtime");
    let error = session
        .drain_reverse_events(&mut Vec::new())
        .expect_err("first drain should fail");
    assert!(matches!(error, BackendError::ReverseEventParseFailed { .. }));
    let mut sink = Vec::new();
    session
        .drain_reverse_events(&mut sink)
        .expect("second drain succeeds");
    assert_eq!(sink.len(), 1);
    assert_eq!(
        session.drain_reverse_events(&mut sink),
        Err(BackendError::WouldBlock)
    );
}

#[test]
fn closed_sessions_refuse_work_and_report_close_failures() {
    let factory = failing_backend(FakeFailure::CloseFails);
    let mut session = factory.open_fake_session(&open_context()).expect("open");
    session.open().expect("open runtime");
    let error = session.close().expect_err("close should fail");
    assert_eq!(
        error,
        BackendError::CloseFailed {
            reason: "fake backend close failure".to_string()
        }
    );
    assert_eq!(session.state, BackendState::Closed);
    let frame = BackendFrame::EvdevEvents { events: Vec::new() };
    assert_eq!(session.send(frame), Err(BackendError::SessionClosed));
    assert_eq!(
        session.drain_reverse_events(&mut Vec::new()),
        Err(BackendError::SessionClosed)
    );
    assert_eq!(
        session.diagnostics().last_error.as_deref(),
        Some("backend close failed: fake backend close failure")
    );
}

#[test]
fn injected_reverse_events_reach_only_the_bound_session() {
    let factory = backend_factory().build();
    let mut session = factory.open_fake_session(&open_context()).expect("open");
    assert!(!session.inject_reverse_event(7, reverse_event()));
    session.open().expect("start");
    assert!(!session.inject_reverse_event(8, reverse_event()));
    assert!(session.inject_reverse_event(7, reverse_event()));
    let mut drained = Vec::new();
    session.drain_reverse_events(&mut drained).expect("drain");
    assert_eq!(drained, vec![reverse_event()]);
}
