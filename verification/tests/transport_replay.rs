use virtualgamepad::transport_trace::{
    replay_transport_trace, required_previous_step, TransportControlStep, TransportEndpoints, TransportReplayError,
    TransportTraceState, TransportTraceStep,
};

fn step(kind: TransportControlStep) -> TransportTraceStep {
    TransportTraceStep {
        step: kind,
        endpoint_id: None,
        bytes: Vec::new(),
    }
}

fn endpoint_step(kind: TransportControlStep, endpoint_id: u8) -> TransportTraceStep {
    TransportTraceStep {
        step: kind,
        endpoint_id: Some(endpoint_id),
        bytes: Vec::new(),
    }
}

#[test]
fn dualsense_usb_enumeration_reaches_ready() {
    let summary = replay_transport_trace(
        Some(TransportEndpoints {
            input: 0x01,
            reverse: 0x02,
        }),
        &[
            step(TransportControlStep::Connect),
            step(TransportControlStep::ReadDescriptor),
            step(TransportControlStep::ConfigureEndpoints),
            step(TransportControlStep::ReadySignal),
            endpoint_step(TransportControlStep::InputPacket, 0x01),
        ],
        Some(TransportTraceState::Ready),
    )
    .expect("replay");

    assert_eq!(summary.final_state, TransportTraceState::Ready);
    assert_eq!(summary.consumed_steps, 5);
}

#[test]
fn missing_configure_endpoints_surfaces_step_index_and_required_step() {
    let error = replay_transport_trace(
        None,
        &[
            step(TransportControlStep::Connect),
            step(TransportControlStep::ReadDescriptor),
            step(TransportControlStep::ReadySignal),
        ],
        Some(TransportTraceState::Ready),
    )
    .expect_err("missing configure-endpoints should fail");

    assert!(matches!(
        error,
        TransportReplayError::MissingTransition {
            step_index: 3,
            step: TransportControlStep::ReadySignal,
            current_state: TransportTraceState::DescriptorRead,
            required_step: TransportControlStep::ConfigureEndpoints,
        }
    ));
}

#[test]
fn disconnect_from_idle_renders_actionable_error_text() {
    let error = replay_transport_trace(None, &[step(TransportControlStep::Disconnect)], None)
        .expect_err("disconnect from idle should fail");

    assert!(matches!(
        error,
        TransportReplayError::MissingTransition {
            step_index: 1,
            step: TransportControlStep::Disconnect,
            current_state: TransportTraceState::Idle,
            required_step: TransportControlStep::Connect,
        }
    ));
    let rendered = error.message();
    assert!(
        rendered.contains("`disconnect`")
            && rendered.contains("requires `connect`")
            && rendered.contains("current state is `idle`"),
        "unexpected error rendering: {rendered}"
    );
}

#[test]
fn endpoint_mismatch_is_caught_when_endpoints_are_supplied() {
    let error = replay_transport_trace(
        Some(TransportEndpoints {
            input: 0x01,
            reverse: 0x02,
        }),
        &[
            step(TransportControlStep::Connect),
            step(TransportControlStep::ReadDescriptor),
            step(TransportControlStep::ConfigureEndpoints),
            step(TransportControlStep::ReadySignal),
            endpoint_step(TransportControlStep::InputPacket, 0x05),
        ],
        None,
    )
    .expect_err("endpoint mismatch should fail");

    assert!(matches!(
        error,
        TransportReplayError::InvalidEndpoint {
            step_index: 5,
            step: TransportControlStep::InputPacket,
            expected: 0x01,
            actual: 0x05,
        }
    ));
}

#[test]
fn unexpected_final_state_is_reported() {
    let error = replay_transport_trace(
        None,
        &[
            step(TransportControlStep::Connect),
            step(TransportControlStep::Disconnect),
        ],
        Some(TransportTraceState::Ready),
    )
    .expect_err("expected ready but reached disconnected");

    assert!(matches!(
        error,
        TransportReplayError::UnexpectedFinalState {
            expected: TransportTraceState::Ready,
            actual: TransportTraceState::Disconnected,
        }
    ));
}

#[test]
fn an_error_stops_the_replay_and_later_steps_cannot_rescue_it() {
    // The first refused step decides the error, whatever follows.
    let error = replay_transport_trace(
        None,
        &[
            step(TransportControlStep::ReadDescriptor),
            step(TransportControlStep::Connect),
            step(TransportControlStep::ReadDescriptor),
        ],
        None,
    )
    .expect_err("descriptor read before connect");
    assert!(matches!(
        error,
        TransportReplayError::MissingTransition { step_index: 1, .. }
    ));
}

#[test]
fn disconnect_is_terminal() {
    let error = replay_transport_trace(
        None,
        &[
            step(TransportControlStep::Connect),
            step(TransportControlStep::Disconnect),
            step(TransportControlStep::Connect),
        ],
        None,
    )
    .expect_err("nothing follows a disconnect");
    assert!(matches!(
        error,
        TransportReplayError::MissingTransition { step_index: 3, .. }
    ));
}

#[test]
fn empty_trace_stays_idle() {
    let summary = replay_transport_trace(None, &[], Some(TransportTraceState::Idle)).expect("idle");
    assert_eq!(summary.final_state, TransportTraceState::Idle);
    assert_eq!(summary.consumed_steps, 0);
}

#[test]
fn each_step_names_its_immediate_predecessor() {
    assert_eq!(required_previous_step(TransportControlStep::Connect), TransportControlStep::Connect);
    assert_eq!(required_previous_step(TransportControlStep::ReadDescriptor), TransportControlStep::Connect);
    assert_eq!(required_previous_step(TransportControlStep::Disconnect), TransportControlStep::Connect);
    assert_eq!(required_previous_step(TransportControlStep::ConfigureEndpoints), TransportControlStep::ReadDescriptor);
    assert_eq!(required_previous_step(TransportControlStep::ReadySignal), TransportControlStep::ConfigureEndpoints);
    assert_eq!(required_previous_step(TransportControlStep::InputPacket), TransportControlStep::ReadySignal);
    assert_eq!(required_previous_step(TransportControlStep::ReversePacket), TransportControlStep::ReadySignal);
}
