use std::collections::BTreeMap;

use virtualgamepad::backend_api::{
    BackendDiagnostics, BackendError, BackendFrame, BackendReverseEvent, BackendReverseEventKind,
    BackendState,
};
use virtualgamepad::realization::EvdevEvent;
use virtualgamepad::reverse_translation::ReversePayload;
use virtualgamepad::runtime_model::{
    BackendFamily, BackendLevel, EmulationGoal, FidelityTier, HostPlatform, SessionLifecycleState,
};
use virtualgamepad::testkit::{
    check_scenario_assertion, read_counter, scenario_next, session_request, ScenarioAction,
    ScenarioAssertion, ScenarioObservation, ScenarioStep, BackendTrace, BackendTracePayload, BackendTraceStep, TraceDirection,
    TraceOperation,
};
use virtualgamepad::trace_assertions::{
    assert_captured_frames, assert_diagnostics_counters, assert_trace_directions,
};
use virtualgamepad::transport_trace::TransportControlStep;

fn frame(report_id: u8, bytes: Vec<u8>) -> BackendFrame {
    BackendFrame::HidInputReport {
        report_id: Some(report_id),
        bytes,
    }
}

#[test]
fn captured_frames_failure_message_is_stable() {
    let actual = vec![frame(1, vec![1, 2, 3])];
    let expected = vec![frame(1, vec![1, 2, 3]), frame(2, vec![4, 5])];
    let message = assert_captured_frames(&actual, &expected).expect_err("mismatch");
    assert_eq!(
        message,
        "assert_captured_frames failed\n  expected len: 2\n  actual len:   1\n  [0]   expected=\"hid-input-report\" actual=\"hid-input-report\"\n  [1] * expected=\"hid-input-report\" actual=<missing>\n"
    );
}

#[test]
fn trace_directions_failure_message_is_stable() {
    let trace = BackendTrace {
        backend_id: None,
        family: None,
        transport: None,
        steps: vec![BackendTraceStep {
            direction: TraceDirection::Outbound,
            payload: BackendTracePayload::HidInputReport {
                report_id: Some(1),
                bytes: vec![1],
            },
        }],
    };
    let expected = vec![TraceDirection::Outbound, TraceDirection::Inbound];
    let message = assert_trace_directions(&trace, &expected).expect_err("mismatch");
    assert_eq!(
        message,
        "assert_trace_directions failed\n  expected: [Outbound, Inbound]\n  actual:   [Outbound]\n"
    );
    assert_eq!(assert_trace_directions(&trace, &[TraceDirection::Outbound]), Ok(()));
}

#[test]
fn diagnostics_counters_failure_message_is_stable() {
    let diagnostics = BackendDiagnostics {
        backend_id: "fake-dualsense".to_string(),
        family: BackendFamily::LinuxUhid,
        state: BackendState::Open,
        frames_sent: 0,
        reverse_events_drained: 1,
        write_failures: 0,
        last_error: None,
        vendor_counters: BTreeMap::new(),
    };
    let message = assert_diagnostics_counters(&diagnostics, 1, 1).expect_err("mismatch");
    assert_eq!(
        message,
        "assert_diagnostics_counters failed\n  frames_sent:            expected=1 actual=0\n  reverse_events_drained: expected=1 actual=1\n"
    );
    assert_eq!(assert_diagnostics_counters(&diagnostics, 0, 1), Ok(()));
}

#[test]
fn captured_frames_passes_on_equal_input() {
    let frames = vec![frame(1, vec![1, 2, 3])];
    assert_eq!(assert_captured_frames(&frames, &frames), Ok(()));
}

#[test]
fn captured_frames_mark_each_differing_position() {
    let actual = vec![
        BackendFrame::TransportPacket {
            endpoint_id: 1,
            bytes: vec![9],
        },
        frame(1, vec![1]),
    ];
    let expected = vec![
        BackendFrame::TransportPacket {
            endpoint_id: 1,
            bytes: vec![8],
        },
        frame(1, vec![1]),
    ];
    let message = assert_captured_frames(&actual, &expected).expect_err("mismatch");
    assert_eq!(
        message,
        "assert_captured_frames failed\n  expected len: 2\n  actual len:   2\n  [0] * expected=\"transport-packet\" actual=\"transport-packet\"\n  [1]   expected=\"hid-input-report\" actual=\"hid-input-report\"\n"
    );
}

#[test]
fn recorded_frames_replay_as_the_same_frame() {
    let frames = vec![
        frame(3, vec![1, 2]),
        BackendFrame::HidFeatureReport {
            report_id: 5,
            bytes: vec![7],
        },
        BackendFrame::TransportPacket {
            endpoint_id: 2,
            bytes: vec![0xaa, 0xbb],
        },
        BackendFrame::EvdevEvents {
            events: vec![EvdevEvent {
                event_type: 1,
                code: 0x130,
                value: 1,
            }],
        },
    ];
    let labels = [
        "hid-input-report",
        "hid-feature-report",
        "transport-packet",
        "evdev-events",
    ];
    for (frame, label) in frames.into_iter().zip(labels) {
        let payload = BackendTracePayload::from_frame(frame.clone());
        assert_eq!(payload.kind_label(), label);
        assert_eq!(payload.as_frame(), Some(frame));
    }
    let control = BackendTracePayload::TransportControl {
        step: TransportControlStep::Connect,
        endpoint_id: None,
        bytes: Vec::new(),
    };
    assert_eq!(control.kind_label(), "transport-control");
    assert!(control.as_frame().is_none());
    let unsupported = BackendTracePayload::Unsupported {
        frame_kind: "FuturisticReport".to_string(),
    };
    assert_eq!(unsupported.kind_label(), "unsupported-frame");
    assert!(unsupported.as_frame().is_none());
}

#[test]
fn session_request_defaults_are_identity_aware_dualsense() {
    let request = session_request("dualsense").build();
    assert_eq!(request.session_id, 1);
    assert_eq!(request.profile_id.as_str(), "dualsense");
    assert_eq!(request.goal, EmulationGoal::IdentityAware);
    assert_eq!(request.requested_fidelity_tier, FidelityTier::IdentityAware);
    assert!(request.host_platform_preference.is_none());
    assert!(request.backend_preference.is_none());
    assert!(request.provider_preference.is_none());
}

#[test]
fn session_request_builder_threads_all_hints() {
    let request = session_request("xbox360")
        .session_id(42)
        .goal(EmulationGoal::Compatibility)
        .requested_fidelity_tier(FidelityTier::Compatibility)
        .host_platform(HostPlatform::Linux)
        .backend_preference(BackendLevel::Evdev)
        .provider_preference("linux-uinput")
        .build();
    assert_eq!(request.session_id, 42);
    assert_eq!(request.goal, EmulationGoal::Compatibility);
    assert_eq!(request.requested_fidelity_tier, FidelityTier::Compatibility);
    assert_eq!(request.host_platform_preference, Some(HostPlatform::Linux));
    assert_eq!(request.backend_preference, Some(BackendLevel::Evdev));
    assert_eq!(
        request.provider_preference.as_ref().map(|p| p.0.as_str()),
        Some("linux-uinput")
    );
}

#[test]
fn trace_payload_hands_out_only_reverse_events() {
    let event = BackendReverseEvent {
        session_id: 3,
        profile_id: None,
        timestamp: 1,
        sequence: 2,
        kind: BackendReverseEventKind::HidFeatureReport,
        target: None,
        payload: ReversePayload::Hid { report_id: None, bytes: vec![1, 2, 3] },
    };
    let payload = BackendTracePayload::ReverseEvent { event: event.clone() };
    assert_eq!(payload.as_reverse_event(), Some(event));
    let other = BackendTracePayload::Unsupported { frame_kind: "x".to_string() };
    assert_eq!(other.as_reverse_event(), None);
}

#[test]
fn backend_error_is_recorded_as_drain_failure() {
    let payload = BackendTracePayload::from_error(&BackendError::WouldBlock);
    assert_eq!(
        payload,
        BackendTracePayload::Failure {
            operation: TraceOperation::DrainReverseEvents,
            error: "backend would block".to_string(),
        }
    );
}

#[test]
fn smoke() {}

fn observed() -> ScenarioObservation {
    ScenarioObservation {
        frames_written: 2,
        counters: vec![("frames.received".to_string(), 3), ("frames.received".to_string(), 9)],
        outputs: 1,
        state: Some(SessionLifecycleState::Running),
    }
}

#[test]
fn scenario_assertions_pass_at_their_thresholds() {
    let observed = observed();
    assert_eq!(check_scenario_assertion(&ScenarioAssertion::FramesWritten { at_least: 2 }, &observed), Ok(()));
    assert_eq!(
        check_scenario_assertion(
            &ScenarioAssertion::Counter { key: "frames.received".into(), at_least: 3 },
            &observed
        ),
        Ok(())
    );
    assert_eq!(check_scenario_assertion(&ScenarioAssertion::OutputCount { at_least: 1 }, &observed), Ok(()));
    assert_eq!(
        check_scenario_assertion(
            &ScenarioAssertion::SessionState { state: SessionLifecycleState::Running },
            &observed
        ),
        Ok(())
    );
    assert_eq!(read_counter(&observed.counters, "frames.received"), 3);
    assert_eq!(read_counter(&observed.counters, "frames.written"), 0);
}

#[test]
fn failed_scenario_assertions_say_what_was_expected() {
    let mut observed = observed();
    assert_eq!(
        check_scenario_assertion(&ScenarioAssertion::FramesWritten { at_least: 12 }, &observed),
        Err("expected at least 12 written frames, got 2".to_string())
    );
    assert_eq!(
        check_scenario_assertion(
            &ScenarioAssertion::Counter { key: "write.failures".into(), at_least: 1 },
            &observed
        ),
        Err("expected counter `write.failures` >= 1, got 0".to_string())
    );
    assert_eq!(
        check_scenario_assertion(&ScenarioAssertion::OutputCount { at_least: 3 }, &observed),
        Err("expected at least 3 output commands, got 1".to_string())
    );
    assert_eq!(
        check_scenario_assertion(
            &ScenarioAssertion::SessionState { state: SessionLifecycleState::Closed },
            &observed
        ),
        Err("expected session state Closed, got Running".to_string())
    );
    observed.state = None;
    assert_eq!(
        check_scenario_assertion(
            &ScenarioAssertion::SessionState { state: SessionLifecycleState::Closed },
            &observed
        ),
        Err("expected session state Closed, got missing".to_string())
    );
}

#[test]
fn scenario_steps_run_in_order_and_assertions_poll_until_they_hold() {
    let steps = vec![
        ScenarioStep::SleepMs { millis: 1 },
        ScenarioStep::Check(ScenarioAssertion::FramesWritten { at_least: 2 }),
        ScenarioStep::CloseSession,
    ];
    let decision = scenario_next(&steps, 0, 0, None);
    assert!(matches!(decision.action, ScenarioAction::Perform { index: 0 }));
    assert_eq!(decision.next_index, 1);
    let decision = scenario_next(&steps, 1, 0, None);
    assert!(matches!(decision.action, ScenarioAction::Observe));
    let mut early = observed();
    early.frames_written = 1;
    let decision = scenario_next(&steps, 1, 0, Some(&early));
    assert!(matches!(decision.action, ScenarioAction::Wait { millis: 5 }));
    assert_eq!((decision.next_index, decision.waited_ms), (1, 5));
    let decision = scenario_next(&steps, 1, 5, Some(&observed()));
    assert!(matches!(decision.action, ScenarioAction::Advance));
    assert_eq!((decision.next_index, decision.waited_ms), (2, 0));
    assert!(matches!(scenario_next(&steps, 2, 0, None).action, ScenarioAction::Perform { index: 2 }));
    assert!(matches!(scenario_next(&steps, 3, 0, None).action, ScenarioAction::Done));
}

#[test]
fn a_scenario_assertion_fails_once_polling_runs_out() {
    let steps = vec![ScenarioStep::Check(ScenarioAssertion::OutputCount { at_least: 3 })];
    let decision = scenario_next(&steps, 0, 500, Some(&observed()));
    assert!(matches!(
        decision.action,
        ScenarioAction::Fail(ref message) if message == "expected at least 3 output commands, got 1"
    ));
}
