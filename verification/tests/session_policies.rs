use virtualgamepad::runtime_model::{BackpressurePolicy, HostPlatform, ReverseEventDeliveryPolicy};
use virtualgamepad::session::counter_keys::{
    all_counter_keys, FRAMES_COALESCED, FRAMES_RECEIVED, TRANSLATION_LATENCY_P95_US,
};
use virtualgamepad::session::{SessionError, SessionSendError};
use virtualgamepad::session_options::{
    compile_session_options, AcceptedUpdateKind, CompileError, ConfigBackpressurePolicy,
    HostPlatformPreference, InputSection, OutputHandlingMode, OutputHandlingSection,
    RangeValidationPolicy, SessionConfig, SessionSection, UnknownFieldPolicy, ValidationSection,
};
use virtualgamepad::session_queues::{
    validate_delta_policy, validate_frame_policy, validate_monotonic_sequence, InputAdmission,
    InputQueue, ReverseAdmission, ReverseQueue,
};

#[test]
fn counter_keys_module_constants_match_slice() {
    let keys = all_counter_keys();
    assert!(keys.contains(&FRAMES_RECEIVED));
    assert!(keys.contains(&FRAMES_COALESCED));
    assert!(keys.contains(&TRANSLATION_LATENCY_P95_US));
    assert_eq!(keys.len(), 10);
}

#[test]
fn session_error_audio_not_available_displays() {
    let error = SessionError::AudioNotAvailable;
    assert!(error.message().contains("audio"));
}

#[test]
fn send_error_messages_are_stable() {
    assert_eq!(
        SessionSendError::QueueFull.message(),
        "session input queue is full; frame would not coalesce"
    );
    assert_eq!(
        SessionSendError::InvalidInput {
            reason: "bad".into()
        }
        .message(),
        "input frame does not satisfy the profile contract: bad"
    );
}

#[test]
fn full_input_queue_coalesces_the_newest_frame() {
    let mut queue = InputQueue::new(2);
    assert_eq!(
        queue.enqueue(1),
        Ok(InputAdmission {
            coalesced: false,
            depth: 1
        })
    );
    assert_eq!(
        queue.enqueue(2),
        Ok(InputAdmission {
            coalesced: false,
            depth: 2
        })
    );
    assert_eq!(
        queue.enqueue(3),
        Ok(InputAdmission {
            coalesced: true,
            depth: 2
        })
    );
    assert_eq!(queue.pop_all(), vec![1, 3]);
    assert!(queue.is_empty());
}

#[test]
fn zero_capacity_and_closed_input_queues_refuse_frames() {
    let mut none = InputQueue::new(0);
    assert_eq!(none.enqueue(1), Err(SessionSendError::QueueFull));
    let mut queue = InputQueue::new(4);
    queue.enqueue(1).expect("open");
    queue.close();
    assert_eq!(queue.enqueue(2), Err(SessionSendError::SessionClosed));
    assert_eq!(queue.pop_all(), vec![1]);
}

fn drop_oldest() -> BackpressurePolicy {
    BackpressurePolicy::DropOldest {
        log_dropped_outputs: true,
        max_queue_depth: Some(2),
    }
}

#[test]
fn reverse_queue_applies_each_backpressure_policy() {
    let newest = BackpressurePolicy::DropNewest {
        log_dropped_outputs: false,
        max_queue_depth: None,
    };
    let block = BackpressurePolicy::BlockProducer {
        log_dropped_outputs: false,
        max_queue_depth: None,
    };
    let mut queue = ReverseQueue::new(2);
    assert_eq!(queue.offer("a", &newest), ReverseAdmission::Enqueued { depth: 1 });
    assert_eq!(queue.offer("b", &newest), ReverseAdmission::Enqueued { depth: 2 });
    let dropped = queue.offer("c", &newest);
    assert_eq!(dropped, ReverseAdmission::Dropped);
    assert_eq!(dropped.dropped_count(), 1);
    assert_eq!(queue.offer("d", &block), ReverseAdmission::MustWait("d"));
    let replaced = queue.offer("e", &drop_oldest());
    assert_eq!(replaced, ReverseAdmission::ReplacedOldest { depth: 2 });
    assert_eq!(replaced.observed_depth(), Some(2));
    assert_eq!(queue.pop_next(), Some("b"));
    assert_eq!(queue.pop_next(), Some("e"));
    assert_eq!(queue.pop_next(), None);
    queue.close();
    assert_eq!(queue.offer("f", &drop_oldest()), ReverseAdmission::Closed);
}

#[test]
fn zero_capacity_reverse_queue_drops_everything() {
    let mut queue = ReverseQueue::new(0);
    assert_eq!(queue.offer(1u8, &drop_oldest()), ReverseAdmission::Dropped);
    assert_eq!(queue.pop_next(), None);
}

#[test]
fn monotonic_sequences_are_enforced_only_when_required() {
    assert!(validate_monotonic_sequence(true, Some(5), 6).is_ok());
    assert!(validate_monotonic_sequence(true, None, 0).is_ok());
    assert!(validate_monotonic_sequence(false, Some(5), 5).is_ok());
    assert_eq!(
        validate_monotonic_sequence(true, Some(5), 5),
        Err(SessionSendError::InvalidInput {
            reason: "sequence 5 is not greater than the previous sequence".into()
        })
    );
}

#[test]
fn update_kind_policies_refuse_unaccepted_updates() {
    let frames_only = [AcceptedUpdateKind::Frame];
    assert!(validate_frame_policy(&frames_only, false, None, true, 1).is_ok());
    assert_eq!(
        validate_delta_policy(&frames_only, false, None, 1),
        Err(SessionSendError::InvalidInput {
            reason: "compiled session options reject delta updates".into()
        })
    );
    let deltas_only = [AcceptedUpdateKind::Delta];
    assert_eq!(
        validate_frame_policy(&deltas_only, false, None, true, 1),
        Err(SessionSendError::InvalidInput {
            reason: "compiled session options reject full-frame updates".into()
        })
    );
    // A frame that is not a full frame skips the update-kind check.
    assert!(validate_frame_policy(&deltas_only, false, None, false, 1).is_ok());
    assert!(validate_delta_policy(&deltas_only, true, Some(3), 2).is_err());
}

fn config(kinds: Vec<AcceptedUpdateKind>) -> SessionConfig {
    SessionConfig {
        session: SessionSection {
            host_platform_preference: Some(HostPlatformPreference::Linux),
            provider_preference: Some("linux-uhid".to_string()),
        },
        input: InputSection {
            accepted_update_kinds: kinds,
            reject_unknown_fields: true,
            reject_out_of_range_values: true,
            coerce_integer_like_values: false,
            allow_missing_optional_fields: true,
            require_monotonic_sequence: false,
        },
        output_handling: OutputHandlingSection {
            mode: OutputHandlingMode::Callback,
            callback_namespace: Some("virtualGamepad".to_string()),
            state_field_prefix: None,
            backpressure_policy: ConfigBackpressurePolicy::DropOldest,
            log_dropped_outputs: true,
            max_queue_depth: Some(8),
        },
        validation: ValidationSection {
            reject_unsupported_provider_preference: true,
        },
    }
}

#[test]
fn empty_update_kinds_is_rejected() {
    let error = compile_session_options(&config(Vec::new())).expect_err("compile should fail");
    assert!(matches!(error, CompileError::EmptyAcceptedUpdateKinds));
    assert_eq!(error.message(), "acceptedUpdateKinds must not be empty");
}

#[test]
fn compiled_options_follow_the_configuration() {
    let compiled = compile_session_options(&config(vec![
        AcceptedUpdateKind::Frame,
        AcceptedUpdateKind::Delta,
    ]))
    .expect("compile options");
    let policy = &compiled.input_validation_policy;
    assert_eq!(
        policy.accepted_update_kinds,
        vec![AcceptedUpdateKind::Frame, AcceptedUpdateKind::Delta]
    );
    assert_eq!(policy.unknown_field_policy, UnknownFieldPolicy::Reject);
    assert_eq!(policy.range_validation_policy, RangeValidationPolicy::Reject);
    assert!(policy.allow_missing_optional_fields);
    assert_eq!(compiled.provider_hints.host_platform_preference, Some(HostPlatform::Linux));
    assert_eq!(
        compiled.provider_hints.preferred_provider.as_ref().map(|id| id.0.as_str()),
        Some("linux-uhid")
    );
    assert_eq!(
        compiled.delivery_policy,
        ReverseEventDeliveryPolicy::Callback {
            callback_namespace: "virtualGamepad".to_string()
        }
    );
    assert_eq!(
        compiled.backpressure_policy,
        BackpressurePolicy::DropOldest {
            log_dropped_outputs: true,
            max_queue_depth: Some(8)
        }
    );
}

#[test]
fn callback_without_namespace_uses_the_default_namespace() {
    let mut lenient = config(vec![AcceptedUpdateKind::Frame]);
    lenient.output_handling.callback_namespace = None;
    lenient.input.reject_unknown_fields = false;
    lenient.input.reject_out_of_range_values = false;
    let compiled = compile_session_options(&lenient).expect("compile options");
    assert_eq!(
        compiled.delivery_policy,
        ReverseEventDeliveryPolicy::Callback {
            callback_namespace: "virtualGamepad".to_string()
        }
    );
    assert_eq!(compiled.input_validation_policy.unknown_field_policy, UnknownFieldPolicy::Warn);
    assert_eq!(
        compiled.input_validation_policy.range_validation_policy,
        RangeValidationPolicy::Allow
    );
}
