use virtualgamepad::backend_api::{
    BackendError, BackendFrame, BackendReverseEvent, BackendReverseEventKind,
};
use virtualgamepad::fake_backend::{backend_factory, FakeBackendFactory, FakeFailure};
use virtualgamepad::inputs::{
    Dpad, DualSenseButtons, DualSenseFaceButtons, DualSenseInput, DualSenseShoulders,
    DualSenseStickClicks, DualSenseSystemButtons, DualSenseTouchContact, DualSenseTouchpad,
    DualSenseTriggers, ProfileInputFrame, ProfileInputPayload, TwinStickAxes,
};
use virtualgamepad::reverse_translation::{OutputFunction, ReversePayload, ReverseTarget};
use virtualgamepad::runtime_model::{
    BackendFamily, BackendLevel, BackendOpenContext, BackpressurePolicy,
    CapabilityNegotiationResult, ControllerOutputCommand, DegradationReport,
    DeploymentRequirements, EmulationGoal, FidelityTier, HostPlatform, OutputCommandType,
    OutputFunctionRef, OutputPayload, PlanRejection, ProviderId, ReverseEventDeliveryPolicy,
    RumblePayload, SessionHostMetadata, SessionLifecycleState, SessionOptionsSnapshot,
    SessionPlan, SessionRequest, TranslatorFamily,
};
use virtualgamepad::session::SessionSendError;
use virtualgamepad::session_archive::{SessionArchive, SessionRegistry};
use virtualgamepad::session_core::check_delta_submission;
use virtualgamepad::session_options::AcceptedUpdateKind;
use virtualgamepad::session_runtime::{
    start_session, translate_reverse_event, ActiveSession, FrameStep, ManagerConfig,
    ManagerError, ReverseDrain,
};
use virtualgamepad::session_state::CounterKey;
use virtualgamepad::fake_backend::FakeBackendSession;
use virtualgamepad::translators::{TranslationError, TranslationScratch, TranslatorRegistry};

fn request(session_id: u64) -> SessionRequest {
    SessionRequest {
        session_id,
        profile_id: "dualsense".to_string(),
        goal: EmulationGoal::IdentityAware,
        requested_fidelity_tier: FidelityTier::IdentityAware,
        host_platform_preference: Some(HostPlatform::Linux),
        backend_preference: Some(BackendLevel::Hid),
        provider_preference: Some(ProviderId::new("fake-backend")),
        host_metadata: SessionHostMetadata::default(),
    }
}

fn plan(session_id: u64) -> SessionPlan {
    SessionPlan {
        session_id,
        profile_id: "dualsense".to_string(),
        requested_goal: EmulationGoal::IdentityAware,
        requested_fidelity_tier: FidelityTier::IdentityAware,
        selected_level: BackendLevel::Hid,
        target_host_platform: HostPlatform::Linux,
        selected_backend_family: BackendFamily::LinuxUhid,
        selected_provider_id: ProviderId::new("fake-backend"),
        selected_translator_family: TranslatorFamily::DualSense,
        capability_result: CapabilityNegotiationResult::default(),
        degradation: DegradationReport::default(),
        warnings: Vec::new(),
        deployment_requirements: DeploymentRequirements::default(),
        backend_open_context: BackendOpenContext {
            session_id,
            profile_id: "dualsense".to_string(),
            fidelity_tier: FidelityTier::IdentityAware,
            backend_level: BackendLevel::Hid,
            host_platform: HostPlatform::Linux,
        },
        session_options: SessionOptionsSnapshot {
            accepted_update_kinds: vec!["frame".to_string(), "delta".to_string()],
            unknown_field_policy: "reject".to_string(),
            range_validation_policy: "reject".to_string(),
            coerce_integer_like_values: false,
            allow_missing_optional_fields: true,
            require_monotonic_sequence: false,
            preferred_provider: Some(ProviderId::new("fake-backend")),
            reject_unsupported_provider_preference: true,
            unsupported_capability_policy: "report".to_string(),
            delivery_policy: ReverseEventDeliveryPolicy::Callback {
                callback_namespace: "virtualGamepad".to_string(),
            },
            backpressure_policy: BackpressurePolicy::DropOldest {
                log_dropped_outputs: true,
                max_queue_depth: Some(8),
            },
        },
    }
}

fn fake_backend() -> FakeBackendFactory {
    backend_factory()
        .backend_id("fake-backend".to_string())
        .family(BackendFamily::LinuxUhid)
        .level(BackendLevel::Hid)
        .platform(HostPlatform::Linux)
        .supported_fidelity_tiers(vec![FidelityTier::IdentityAware])
        .declares_reverse_output(OutputFunction::Rumble)
        .build()
}

fn started(config: &ManagerConfig, backend: FakeBackendFactory) -> ActiveSession<FakeBackendSession> {
    start_session(config, &vec![backend], &Vec::new(), &TranslatorRegistry::new(), &request(7), Ok(plan(7)))
        .expect("session starts")
}

fn dualsense_frame(sequence: u64) -> ProfileInputFrame {
    ProfileInputFrame {
        profile_id: "dualsense".to_string(),
        timestamp: sequence,
        sequence,
        payload: ProfileInputPayload::DualSense(DualSenseInput {
            buttons: DualSenseButtons {
                face: DualSenseFaceButtons { cross: true, ..DualSenseFaceButtons::neutral() },
                shoulders: DualSenseShoulders::neutral(),
                stick_clicks: DualSenseStickClicks::neutral(),
                system: DualSenseSystemButtons::neutral(),
            },
            dpad: Dpad::neutral(),
            sticks: TwinStickAxes::neutral(),
            triggers: DualSenseTriggers::neutral(),
            touchpad: DualSenseTouchpad {
                contact_1: DualSenseTouchContact::neutral(),
                contact_2: DualSenseTouchContact::neutral(),
            },
        }),
    }
}

fn rumble_event(session_id: u64) -> BackendReverseEvent {
    BackendReverseEvent {
        session_id,
        profile_id: None,
        timestamp: 40,
        sequence: 1,
        kind: BackendReverseEventKind::HidOutputReport,
        target: Some(ReverseTarget::SemanticOutput(OutputFunction::Rumble)),
        payload: ReversePayload::Hid {
            report_id: Some(0x02),
            bytes: vec![0x02, 0x03, 0x00, 0x80, 0x40],
        },
    }
}

#[test]
fn manager_config_default_matches_spec_defaults() {
    let config = ManagerConfig::default();
    assert_eq!(config.session_input_queue_depth, 8);
    assert_eq!(config.session_reverse_queue_depth, 32);
    assert!(config.worker_pool_size.is_none());
    assert_eq!(
        config.default_session_options.input_validation_policy.accepted_update_kinds,
        vec![AcceptedUpdateKind::Frame, AcceptedUpdateKind::Delta]
    );
}

#[test]
fn manager_rejects_empty_inventory() {
    let error = start_session::<FakeBackendFactory>(
        &ManagerConfig::default(),
        &Vec::new(),
        &Vec::new(),
        &TranslatorRegistry::new(),
        &request(7),
        Ok(plan(7)),
    )
    .err()
    .expect("should reject empty backends");
    assert!(matches!(error, ManagerError::NoBackendsRegistered));
}

#[test]
fn duplicate_session_id_is_rejected() {
    let error = start_session(
        &ManagerConfig::default(),
        &vec![fake_backend()],
        &vec![3, 7],
        &TranslatorRegistry::new(),
        &request(7),
        Ok(plan(7)),
    )
    .err()
    .expect("duplicate should fail");
    assert_eq!(error, ManagerError::SessionAlreadyActive { session_id: 7 });
}

#[test]
fn provider_open_failure_is_isolated() {
    let failing = backend_factory()
        .backend_id("fake-backend".to_string())
        .with_failure(FakeFailure::ProviderPanic)
        .build();
    let error = start_session(
        &ManagerConfig::default(),
        &vec![failing],
        &Vec::new(),
        &TranslatorRegistry::new(),
        &request(11),
        Ok(plan(11)),
    )
    .err()
    .expect("provider failure should surface");
    assert!(matches!(
        error,
        ManagerError::BackendOpenFailed { ref backend_id, .. } if backend_id == "fake-backend"
    ));
}

#[test]
fn planner_rejection_and_unprepared_context_are_reported() {
    let rejection = PlanRejection {
        profile_id: "dualsense".to_string(),
        requested_goal: EmulationGoal::IdentityAware,
        requested_fidelity_tier: FidelityTier::IdentityAware,
        reasons: Vec::new(),
        considered_backends: vec!["fake-backend".to_string()],
    };
    let error = start_session(
        &ManagerConfig::default(),
        &vec![fake_backend()],
        &Vec::new(),
        &TranslatorRegistry::new(),
        &request(7),
        Err(rejection.clone()),
    )
    .err()
    .expect("rejected");
    assert_eq!(error, ManagerError::PlanRejected(rejection));

    let mut unprepared = plan(7);
    unprepared.selected_level = BackendLevel::Transport;
    let error = start_session(
        &ManagerConfig::default(),
        &vec![fake_backend()],
        &Vec::new(),
        &TranslatorRegistry::new(),
        &request(7),
        Ok(unprepared),
    )
    .err()
    .expect("no translator");
    assert_eq!(
        error,
        ManagerError::TranslatorContextFailed(TranslationError::NoTranslatorRegistered {
            family: TranslatorFamily::DualSense,
            level: BackendLevel::Transport,
        })
    );
}

#[test]
fn unregistered_provider_is_refused_by_name() {
    let mut elsewhere = plan(7);
    elsewhere.selected_provider_id = ProviderId::new("linux-uhid");
    let error = start_session(
        &ManagerConfig::default(),
        &vec![fake_backend()],
        &Vec::new(),
        &TranslatorRegistry::new(),
        &request(7),
        Ok(elsewhere),
    )
    .err()
    .expect("unregistered");
    assert_eq!(
        error,
        ManagerError::BackendOpenFailed {
            backend_id: "linux-uhid".to_string(),
            source: BackendError::OpenFailed {
                reason: "selected provider was not registered".to_string(),
            },
        }
    );
}

#[test]
fn started_session_runs_on_the_planned_backend() {
    let session = started(&ManagerConfig::default(), fake_backend());
    assert_eq!(session.state.lifecycle, SessionLifecycleState::Running);
    assert_eq!(session.state.session_id, 7);
    assert_eq!(session.backend_id, "fake-backend");
    assert_eq!(session.backend.bound_session, Some(7));
    assert_eq!(session.translator_family, TranslatorFamily::DualSense);
    assert_eq!(session.level, BackendLevel::Hid);
    assert_eq!(session.translation_context.profile_family.as_deref(), Some("dualsense"));
    assert!(session.input_queue.is_empty());
    assert_eq!(
        session.backpressure_policy,
        BackpressurePolicy::DropOldest { log_dropped_outputs: true, max_queue_depth: Some(8) }
    );
}

#[test]
fn frames_are_queued_translated_and_written() {
    let mut session = started(&ManagerConfig::default(), fake_backend());
    assert_eq!(session.send_input(dualsense_frame(1)), Ok(()));
    assert_eq!(session.state.counter_value(CounterKey::FramesReceived), 1);
    let mut frames = session.input_queue.pop_all();
    assert_eq!(frames.len(), 1);
    let frame = frames.remove(0);
    let registry = TranslatorRegistry::new();
    let mut scratch = TranslationScratch::new();
    let translated = registry
        .translate_forward(session.translator_family, session.level, &frame, &mut scratch)
        .expect("translator");
    assert!(matches!(session.process_frame(translated), FrameStep::Written));
    assert_eq!(session.state.counter_value(CounterKey::FramesWritten), 1);
    assert_eq!(session.backend.written_frames.len(), 1);
    assert!(session.state.last_backend_diagnostics.is_some());
}

#[test]
fn blocked_writes_hand_the_frame_back() {
    let backend = backend_factory()
        .backend_id("fake-backend".to_string())
        .with_failure(FakeFailure::SendWouldBlock)
        .build();
    let mut session = started(&ManagerConfig::default(), backend);
    let frame = BackendFrame::HidInputReport { report_id: Some(1), bytes: vec![1, 2] };
    let step = session.send_translated(frame.clone());
    let FrameStep::Blocked(again) = step else {
        panic!("the first write should block");
    };
    assert_eq!(again, frame);
    assert_eq!(session.state.counter_value(CounterKey::FramesWritten), 0);
    assert!(matches!(session.send_translated(again), FrameStep::Written));
    assert_eq!(session.state.counter_value(CounterKey::FramesWritten), 1);
}

#[test]
fn translation_errors_become_write_failures_and_fail_the_session() {
    let mut session = started(&ManagerConfig::default(), fake_backend());
    let step = session.process_frame(Err(TranslationError::DescriptorUnavailable));
    let FrameStep::Failed(error) = step else {
        panic!("a translation error cannot be written");
    };
    assert_eq!(
        error,
        BackendError::WriteFailed {
            reason: "descriptor template is unavailable for the selected fidelity tier".to_string(),
        }
    );
    session.fail(&error);
    assert_eq!(session.state.lifecycle, SessionLifecycleState::Failed);
    assert_eq!(session.state.counter_value(CounterKey::WriteFailures), 1);
    assert_eq!(
        session.state.last_error.as_deref(),
        Some("backend write failed: descriptor template is unavailable for the selected fidelity tier")
    );
    assert!(session.backend.closed);
}

#[test]
fn finishing_closes_the_backend_and_the_session() {
    let mut session = started(&ManagerConfig::default(), fake_backend());
    session.finish();
    assert_eq!(session.state.lifecycle, SessionLifecycleState::Closed);
    assert!(session.backend.closed);
    assert!(session.state.last_backend_diagnostics.is_some());
    assert_eq!(session.send_input(dualsense_frame(2)), Err(SessionSendError::SessionClosed));
}

#[test]
fn reverse_events_become_queued_output_commands() {
    let backend = backend_factory()
        .backend_id("fake-backend".to_string())
        .reverse_events_from_iter(vec![rumble_event(7)])
        .build();
    let mut session = started(&ManagerConfig::default(), backend);
    let mut inbound = Vec::new();
    assert_eq!(session.drain_reverse(&mut inbound), ReverseDrain::Drained { count: 1 });
    assert_eq!(session.state.counter_value(CounterKey::ReverseEventsReceived), 1);
    let commands = session.translate_reverse_batch(&TranslatorRegistry::new(), &inbound);
    assert_eq!(commands.len(), 1);
    assert_eq!(commands[0].session_id, 7);
    assert_eq!(commands[0].profile_id, "dualsense");
    assert_eq!(commands[0].timestamp, 40);
    assert_eq!(commands[0].command_type, OutputCommandType::StateUpdate);
    assert_eq!(commands[0].function, OutputFunctionRef::Semantic(OutputFunction::Rumble));
    let waiting = session.queue_output_commands(commands);
    assert!(waiting.is_empty());
    assert_eq!(session.state.counter_value(CounterKey::ReverseQueueDepthHwm), 1);
    assert!(session.reverse_queue.pop_next().is_some());
}

#[test]
fn reverse_event_commands_fall_back_to_the_context_profile() {
    let registry = TranslatorRegistry::new();
    let session = started(&ManagerConfig::default(), fake_backend());
    let mut out: Vec<ControllerOutputCommand> = Vec::new();
    let result = translate_reverse_event(
        &registry,
        TranslatorFamily::DualSense,
        &rumble_event(7),
        &session.translation_context,
        &mut out,
    );
    assert_eq!(result, Some(Ok(())));
    assert_eq!(out.len(), 1);
    assert_eq!(out[0].profile_id, "dualsense");
    assert!(matches!(out[0].payload, OutputPayload::Rumble(RumblePayload { .. })));
    assert_eq!(
        translate_reverse_event(
            &registry,
            TranslatorFamily::GenericGamepad,
            &rumble_event(7),
            &session.translation_context,
            &mut out,
        ),
        None
    );
    assert_eq!(out.len(), 1);
}

#[test]
fn blocking_backpressure_hands_back_the_commands_that_must_wait() {
    let mut config = ManagerConfig::default();
    config.session_reverse_queue_depth = 1;
    config.default_session_options.backpressure_policy =
        BackpressurePolicy::BlockProducer { log_dropped_outputs: false, max_queue_depth: Some(1) };
    let mut session = started(&config, fake_backend());
    let mut out: Vec<ControllerOutputCommand> = Vec::new();
    let registry = TranslatorRegistry::new();
    for _ in 0..3 {
        translate_reverse_event(
            &registry,
            TranslatorFamily::DualSense,
            &rumble_event(7),
            &session.translation_context,
            &mut out,
        );
    }
    assert_eq!(out.len(), 3);
    let waiting = session.queue_output_commands(out);
    assert_eq!(waiting.len(), 2);
    assert_eq!(session.state.counter_value(CounterKey::ReverseEventsDropped), 0);
}

#[test]
fn drains_without_reverse_events_or_with_failures_are_recorded() {
    let quiet = backend_factory()
        .backend_id("fake-backend".to_string())
        .with_failure(FakeFailure::EventReadinessFlapping)
        .build();
    let mut session = started(&ManagerConfig::default(), quiet);
    let mut inbound = Vec::new();
    let first = session.drain_reverse(&mut inbound);
    let second = session.drain_reverse(&mut inbound);
    assert!(
        first == ReverseDrain::NoReverseEvents || second == ReverseDrain::NoReverseEvents,
        "a flapping backend reports no reverse events every other poll"
    );

    let broken = backend_factory()
        .backend_id("fake-backend".to_string())
        .reverse_events_from_iter(vec![rumble_event(7)])
        .with_failure(FakeFailure::DrainParseError)
        .build();
    let mut session = started(&ManagerConfig::default(), broken);
    assert_eq!(session.drain_reverse(&mut inbound), ReverseDrain::Failed);
    assert!(session.state.last_error.is_some());
    assert_eq!(session.state.counter_value(CounterKey::ReverseEventsReceived), 0);
}

#[test]
fn close_session_archives_status_and_diagnostics() {
    let config = ManagerConfig::default();
    let mut session = started(&config, fake_backend());
    let mut archive = SessionArchive::new();
    assert!(archive.archived(7).is_none());
    session.send_input(dualsense_frame(1)).expect("frame");
    session.close_and_archive(&mut archive);
    assert_eq!(session.state.lifecycle, SessionLifecycleState::Closed);
    assert!(archive.archived(8).is_none());
    let archived = archive.archived(7).expect("status");
    assert!(matches!(
        archived.status.state,
        SessionLifecycleState::Closed | SessionLifecycleState::Failed
    ));
    assert_eq!(archived.status.state, SessionLifecycleState::Closed);
    assert_eq!(archived.status.session_id, Some(7));
    assert_eq!(archived.status.profile_id.as_deref(), Some("dualsense"));
    assert_eq!(archived.diagnostics.session_id, Some(7));
    assert!(archived
        .diagnostics
        .counters
        .iter()
        .any(|(name, value)| name == "frames.received" && *value == 1));
}

#[test]
fn archiving_a_session_again_replaces_what_it_left() {
    let config = ManagerConfig::default();
    let mut first = started(&config, fake_backend());
    let mut archive = SessionArchive::new();
    first.close_and_archive(&mut archive);
    let mut second = started(&config, fake_backend());
    second.send_input(dualsense_frame(1)).expect("frame");
    second.close_and_archive(&mut archive);
    let archived = archive.archived(7).expect("archived");
    assert!(archived
        .diagnostics
        .counters
        .iter()
        .any(|(name, value)| name == "frames.received" && *value == 1));
}

#[test]
fn send_input_delta_requires_baseline_frame() {
    let mut session = started(&ManagerConfig::default(), fake_backend());
    let error = check_delta_submission(
        &session.state,
        &session.accepted_update_kinds,
        session.require_monotonic_sequence,
        1,
    )
    .expect_err("delta should fail");
    assert!(matches!(error, SessionSendError::InvalidInput { .. }));
    session.send_input(dualsense_frame(1)).expect("frame");
    assert_eq!(
        check_delta_submission(
            &session.state,
            &session.accepted_update_kinds,
            session.require_monotonic_sequence,
            2
        ),
        Ok(())
    );
    session.finish();
    assert_eq!(
        check_delta_submission(
            &session.state,
            &session.accepted_update_kinds,
            session.require_monotonic_sequence,
            3
        ),
        Err(SessionSendError::SessionClosed)
    );
}

#[test]
fn registry_tracks_active_and_closed_sessions() {
    let config = ManagerConfig::default();
    let mut registry = SessionRegistry::new();
    assert!(!registry.is_active(7));
    registry.register(7).expect("register");
    assert!(registry.is_active(7));
    assert_eq!(
        registry.register(7),
        Err(ManagerError::SessionAlreadyActive { session_id: 7 })
    );
    assert_eq!(registry.active_ids(), vec![7]);
    let mut session = started(&config, fake_backend());
    session.finish();
    registry.close(&session.state).expect("close");
    assert!(!registry.is_active(7));
    assert_eq!(
        registry.close(&session.state),
        Err(ManagerError::SessionNotFound { session_id: 7 })
    );
    let archived = registry.archived(7).expect("status after close");
    assert_eq!(archived.status.state, SessionLifecycleState::Closed);
    assert_eq!(archived.diagnostics.session_id, Some(7));
}
