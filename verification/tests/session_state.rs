use virtualgamepad::inputs::{
    Dpad, GenericGamepadButtons, GenericGamepadInput, GenericGamepadTriggers, ProfileInputFrame,
    ProfileInputPayload, TwinStickAxes,
};
use std::collections::BTreeMap;

use virtualgamepad::backend_api::{BackendDiagnostics, BackendState};
use virtualgamepad::runtime_model::BackendFamily;
use virtualgamepad::runtime_model::SessionLifecycleState;
use virtualgamepad::session_state::{CounterKey, SessionState};

fn generic_frame(sequence: u64) -> ProfileInputFrame {
    ProfileInputFrame {
        profile_id: "generic-gamepad".to_string(),
        timestamp: 10,
        sequence,
        payload: ProfileInputPayload::GenericGamepad(GenericGamepadInput {
            buttons: GenericGamepadButtons::neutral(),
            dpad: Dpad::neutral(),
            sticks: TwinStickAxes::neutral(),
            triggers: GenericGamepadTriggers::neutral(),
        }),
    }
}

#[test]
fn new_session_state_starts_created_with_zero_counters() {
    let state = SessionState::new(7, "dualsense".to_string());
    assert_eq!(state.lifecycle, SessionLifecycleState::Created);
    assert!(!state.is_closed());
    assert_eq!(state.counter_value(CounterKey::FramesReceived), 0);
    assert_eq!(state.counter_value(CounterKey::TranslationLatencyP95Us), 0);
    assert!(state.last_error.is_none());
    assert!(state.last_payload.is_none());
}

#[test]
fn counters_increment_and_high_water_marks_never_drop() {
    let mut state = SessionState::new(1, "xbox360".to_string());
    state.increment_counter(CounterKey::FramesWritten, 2);
    state.increment_counter(CounterKey::FramesWritten, 3);
    assert_eq!(state.counter_value(CounterKey::FramesWritten), 5);
    assert_eq!(state.counter_value(CounterKey::WriteFailures), 0);
    state.observe_hwm(CounterKey::InputQueueDepthHwm, 4);
    state.observe_hwm(CounterKey::InputQueueDepthHwm, 2);
    assert_eq!(state.counter_value(CounterKey::InputQueueDepthHwm), 4);
    state.observe_hwm(CounterKey::InputQueueDepthHwm, 9);
    assert_eq!(state.counter_value(CounterKey::InputQueueDepthHwm), 9);
}

#[test]
fn frame_submission_becomes_the_delta_baseline() {
    let mut state = SessionState::new(1, "generic-gamepad".to_string());
    let frame = generic_frame(42);
    state.note_frame_submission(&frame);
    state.note_frame_submission(&generic_frame(43));
    assert_eq!(state.last_payload, Some(frame.payload));
    assert_eq!(state.last_sequence, Some(43));
    assert_eq!(state.counter_value(CounterKey::FramesReceived), 2);
}

#[test]
fn diagnostics_snapshot_reports_every_counter_by_name() {
    let mut state = SessionState::new(3, "dualsense".to_string());
    state.increment_counter(CounterKey::ReverseEventsDropped, 6);
    state.set_last_error("backend write failed".to_string());
    let snapshot = state.diagnostics_snapshot();
    assert_eq!(snapshot.session_id, Some(3));
    assert_eq!(snapshot.last_error.as_deref(), Some("backend write failed"));
    let names: Vec<&str> = snapshot.counters.iter().map(|(name, _)| name.as_str()).collect();
    assert_eq!(
        names,
        vec![
            "frames.received",
            "frames.coalesced",
            "frames.written",
            "write_failures",
            "reverse_events.received",
            "reverse_events.emitted",
            "reverse_events.dropped",
            "queue_depth.input.hwm",
            "queue_depth.reverse.hwm",
            "translation.latency_p95_us",
        ]
    );
    assert_eq!(snapshot.counters[6].1, 6);
    assert_eq!(CounterKey::ReverseEventsDropped.name(), "reverse_events.dropped");
}

#[test]
fn status_snapshot_surfaces_the_backend_error_as_a_warning() {
    let mut state = SessionState::new(5, "steam-controller".to_string());
    assert!(state.status_snapshot().warnings.is_empty());
    state.note_backend_diagnostics(BackendDiagnostics {
        backend_id: "linux-uhid".to_string(),
        family: BackendFamily::LinuxUhid,
        state: BackendState::Open,
        frames_sent: 1,
        reverse_events_drained: 0,
        write_failures: 1,
        last_error: Some("uhid write failed".to_string()),
        vendor_counters: BTreeMap::new(),
    });
    state.set_state(SessionLifecycleState::Failed);
    let status = state.status_snapshot();
    assert_eq!(status.state, SessionLifecycleState::Failed);
    assert_eq!(status.session_id, Some(5));
    assert_eq!(status.profile_id.as_deref(), Some("steam-controller"));
    assert_eq!(status.warnings, vec!["uhid write failed".to_string()]);
    assert!(state.is_closed());
}

use virtualgamepad::runtime_model::BackpressurePolicy;
use virtualgamepad::session::SessionSendError;
use virtualgamepad::session_core::{
    fail_session, note_reverse_batch, offer_output_command, record_delivery, submit_frame,
};
use virtualgamepad::session_options::AcceptedUpdateKind;
use virtualgamepad::session_queues::{InputQueue, ReverseAdmission, ReverseQueue};

#[test]
fn submitted_frames_are_queued_coalesced_and_counted() {
    let mut state = SessionState::new(1, "generic-gamepad".to_string());
    state.set_state(SessionLifecycleState::Running);
    let mut queue = InputQueue::new(1);
    let accepted = [AcceptedUpdateKind::Frame];
    assert_eq!(submit_frame(&mut state, &mut queue, &accepted, true, generic_frame(1)), Ok(()));
    assert_eq!(submit_frame(&mut state, &mut queue, &accepted, true, generic_frame(2)), Ok(()));
    assert_eq!(state.counter_value(CounterKey::FramesReceived), 2);
    assert_eq!(state.counter_value(CounterKey::FramesCoalesced), 1);
    assert_eq!(state.counter_value(CounterKey::InputQueueDepthHwm), 1);
    let frames = queue.pop_all();
    assert_eq!(frames.len(), 1);
    assert_eq!(frames[0].sequence, 2);
    // An out-of-order sequence is refused before it is recorded.
    assert_eq!(
        submit_frame(&mut state, &mut queue, &accepted, true, generic_frame(2)),
        Err(SessionSendError::InvalidInput {
            reason: "sequence 2 is not greater than the previous sequence".to_string()
        })
    );
    assert_eq!(state.counter_value(CounterKey::FramesReceived), 2);
    // A policy that takes only deltas refuses full frames.
    assert_eq!(
        submit_frame(&mut state, &mut queue, &[AcceptedUpdateKind::Delta], true, generic_frame(9)),
        Err(SessionSendError::InvalidInput {
            reason: "compiled session options reject full-frame updates".to_string()
        })
    );
    state.set_state(SessionLifecycleState::Closing);
    assert_eq!(
        submit_frame(&mut state, &mut queue, &accepted, true, generic_frame(10)),
        Err(SessionSendError::SessionClosed)
    );
}

#[test]
fn output_commands_follow_the_backpressure_policy_and_count_drops() {
    let mut state = SessionState::new(1, "dualsense".to_string());
    let mut queue: ReverseQueue<u32> = ReverseQueue::new(2);
    let oldest = BackpressurePolicy::DropOldest {
        log_dropped_outputs: true,
        max_queue_depth: Some(2),
    };
    assert_eq!(
        offer_output_command(&mut state, &mut queue, 1, &oldest),
        ReverseAdmission::Enqueued { depth: 1 }
    );
    assert_eq!(
        offer_output_command(&mut state, &mut queue, 2, &oldest),
        ReverseAdmission::Enqueued { depth: 2 }
    );
    assert_eq!(
        offer_output_command(&mut state, &mut queue, 3, &oldest),
        ReverseAdmission::ReplacedOldest { depth: 2 }
    );
    let newest = BackpressurePolicy::DropNewest {
        log_dropped_outputs: false,
        max_queue_depth: None,
    };
    assert_eq!(
        offer_output_command(&mut state, &mut queue, 4, &newest),
        ReverseAdmission::Dropped
    );
    let block = BackpressurePolicy::BlockProducer {
        log_dropped_outputs: false,
        max_queue_depth: None,
    };
    assert_eq!(
        offer_output_command(&mut state, &mut queue, 5, &block),
        ReverseAdmission::MustWait(5)
    );
    assert_eq!(state.counter_value(CounterKey::ReverseEventsDropped), 2);
    assert_eq!(state.counter_value(CounterKey::ReverseQueueDepthHwm), 2);
    assert_eq!(queue.pop_next(), Some(2));
    assert_eq!(queue.pop_next(), Some(3));
    assert_eq!(queue.pop_next(), None);
}

#[test]
fn failures_drains_and_deliveries_are_recorded() {
    let mut state = SessionState::new(4, "xbox360".to_string());
    let mut reverse: ReverseQueue<u32> = ReverseQueue::new(4);
    note_reverse_batch(
        &mut state,
        3,
        BackendDiagnostics {
            backend_id: "linux-uinput".to_string(),
            family: BackendFamily::LinuxUinput,
            state: BackendState::Open,
            frames_sent: 0,
            reverse_events_drained: 3,
            write_failures: 0,
            last_error: None,
            vendor_counters: BTreeMap::new(),
        },
    );
    assert_eq!(state.counter_value(CounterKey::ReverseEventsReceived), 3);
    record_delivery(&mut state, true);
    record_delivery(&mut state, false);
    assert_eq!(state.counter_value(CounterKey::ReverseEventsEmitted), 1);
    assert_eq!(
        state.last_error.as_deref(),
        Some("output sink panicked; detaching subscription")
    );
    fail_session(&mut state, &mut reverse, "uinput write failed".to_string());
    assert_eq!(state.lifecycle, SessionLifecycleState::Failed);
    assert_eq!(state.counter_value(CounterKey::WriteFailures), 1);
    assert_eq!(state.last_error.as_deref(), Some("uinput write failed"));
    let closed = BackpressurePolicy::DropNewest {
        log_dropped_outputs: false,
        max_queue_depth: None,
    };
    assert_eq!(
        offer_output_command(&mut state, &mut reverse, 1, &closed),
        ReverseAdmission::Closed
    );
}
