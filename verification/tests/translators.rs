use virtualgamepad::backend_api::BackendFrame;
use virtualgamepad::forward_translation::{
    generic_evdev_event_list, translate_dualsense_hid, ABS_HAT0X, ABS_HAT0Y, ABS_RX,
    ABS_RY, ABS_RZ, ABS_X, ABS_Y, ABS_Z, BTN_EAST, BTN_MODE, BTN_NORTH, BTN_SELECT, BTN_SOUTH,
    BTN_START, BTN_THUMBL, BTN_THUMBR, BTN_TL, BTN_TR, BTN_WEST, DUALSENSE_INPUT_REPORT_ID, EV_ABS,
    EV_KEY, STEAM_CONTROLLER_INPUT_REPORT_ID,
};
use virtualgamepad::inputs::{
    Dpad, DualSenseButtons, DualSenseFaceButtons, DualSenseInput, DualSenseShoulders,
    DualSenseStickClicks, DualSenseSystemButtons, DualSenseTouchContact, DualSenseTouchpad,
    DualSenseTriggers, GenericGamepadButtons, GenericGamepadInput, GenericGamepadTriggers,
    ProfileInputFrame, ProfileInputPayload, SteamControllerButtons, SteamControllerInput,
    SteamControllerSticks, SteamControllerTriggers, TwinStickAxes, Xbox360Buttons,
    Xbox360FaceButtons, Xbox360Input, Xbox360Shoulders, Xbox360StickClicks, Xbox360SystemButtons,
    Xbox360Triggers,
};
use virtualgamepad::realization::EvdevEvent;
use virtualgamepad::reverse_translation::{
    reverse_required, translate_dualsense_reverse, translate_steam_reverse,
    translate_xbox_reverse, OutputFunction, ReverseOutput, ReversePayload, ReverseTarget,
};
use virtualgamepad::profiles::ProfileFamily;
use virtualgamepad::runtime_model::{
    BackendFamily, BackendLevel, BackendOpenContext, BackpressurePolicy,
    CapabilityNegotiationResult, DegradationReport, DeploymentRequirements,
    DescriptorTemplateSummary, EmulationGoal, FidelityTier, HostPlatform, LightingPayload,
    OutputPayload, ProviderId, ReverseEventDeliveryPolicy, RumblePayload, SessionOptionsSnapshot,
    SessionPlan, TranslatorFamily,
};
use virtualgamepad::translation_context::prepared_translation_context;
use virtualgamepad::translators::{
    bool_bit, dpad_axis, encode_axis_u8, encode_dpad_hat, encode_dualsense_touch_contact,
    encode_trigger_u8, ensure_hid_report_shape, profile_family_name, scale_u8_to_u16,
    TranslationError, TranslationScratch, TranslatorRegistry,
};

fn hid(bytes: Vec<u8>) -> ReversePayload {
    ReversePayload::Hid {
        report_id: Some(0x02),
        bytes,
    }
}

#[test]
fn dualsense_reverse_translation_decodes_rumble() {
    let mut bytes = vec![0_u8; 48];
    bytes[3] = 10;
    bytes[4] = 20;
    let mut out = Vec::new();
    translate_dualsense_reverse(
        Some(ReverseTarget::SemanticOutput(OutputFunction::Rumble)),
        &hid(bytes),
        &mut out,
    )
    .expect("reverse");
    assert_eq!(out.len(), 1);
    match &out[0].payload {
        OutputPayload::Rumble(payload) => {
            assert_eq!(payload.strong, 20 * 257);
            assert_eq!(payload.weak, 10 * 257);
        }
        other => panic!("expected rumble, got {other:?}"),
    }
}

#[test]
fn steam_reverse_translation_decodes_lighting() {
    let mut out = Vec::new();
    translate_steam_reverse(
        Some(ReverseTarget::SemanticOutput(OutputFunction::Lighting)),
        &hid(vec![1, 2, 3, 0, 0, 0]),
        &mut out,
    )
    .expect("reverse");
    assert_eq!(out.len(), 1);
    match &out[0].payload {
        OutputPayload::Lighting(payload) => {
            assert_eq!(payload.red, Some(1));
            assert_eq!(payload.green, Some(2));
            assert_eq!(payload.blue, Some(3));
        }
        other => panic!("expected lighting, got {other:?}"),
    }
}

#[test]
fn dualsense_unnarrowed_report_decodes_every_section_in_order() {
    let mut bytes = vec![0_u8; 48];
    bytes[3] = 1;
    bytes[4] = 2;
    bytes[9] = 1;
    bytes[11] = 0x26;
    bytes[12] = 7;
    bytes[13] = 200;
    bytes[44] = 0x13;
    bytes[45] = 10;
    bytes[46] = 20;
    bytes[47] = 30;
    let mut out = Vec::new();
    translate_dualsense_reverse(None, &hid(bytes), &mut out).expect("reverse");
    let functions: Vec<OutputFunction> = out.iter().map(|output| output.function).collect();
    assert_eq!(
        functions,
        vec![
            OutputFunction::Rumble,
            OutputFunction::Lighting,
            OutputFunction::PlayerIndicators,
            OutputFunction::TriggerEffect,
            OutputFunction::Audio,
        ]
    );
    assert_eq!(
        out[2].payload,
        OutputPayload::Lighting(LightingPayload {
            red: None,
            green: None,
            blue: None,
            player_index: Some(0x03),
        })
    );
    match &out[3].payload {
        OutputPayload::TriggerEffect(effect) => {
            assert_eq!(effect.mode, "0x26");
            assert_eq!(effect.parameters.get("left-strength").map(String::as_str), Some("7"));
            assert_eq!(effect.parameters.get("right-strength").map(String::as_str), Some("200"));
        }
        other => panic!("expected trigger effect, got {other:?}"),
    }
    match &out[4].payload {
        OutputPayload::Audio(command) => {
            assert_eq!(command.action, "speaker-update");
            assert_eq!(command.target.as_deref(), Some("speaker"));
        }
        other => panic!("expected audio, got {other:?}"),
    }
}

#[test]
fn dualsense_requires_a_recognized_section() {
    let mut out = Vec::new();
    let error = translate_dualsense_reverse(None, &hid(vec![0; 4]), &mut out)
        .expect_err("nothing to decode");
    assert_eq!(
        error,
        TranslationError::InvalidReverseEvent {
            reason: "DualSense reverse event did not contain any recognized output command".into()
        }
    );
    let error = translate_dualsense_reverse(None, &ReversePayload::Other, &mut out)
        .expect_err("not HID");
    assert_eq!(
        error.message(),
        "reverse event payload is malformed: DualSense reverse translator requires HID payload"
    );
    assert!(out.is_empty());
}

#[test]
fn steam_rumble_uses_bytes_four_and_five() {
    let mut out = Vec::new();
    translate_steam_reverse(
        Some(ReverseTarget::SemanticOutput(OutputFunction::Rumble)),
        &hid(vec![1, 2, 3, 4, 5, 6]),
        &mut out,
    )
    .expect("rumble");
    assert_eq!(
        out,
        vec![ReverseOutput {
            function: OutputFunction::Rumble,
            payload: OutputPayload::Rumble(RumblePayload {
                strong: 6 * 257,
                weak: 5 * 257,
            }),
        }]
    );
}

#[test]
fn xbox_reverse_translation_handles_hid_and_evdev() {
    let mut out = Vec::new();
    translate_xbox_reverse(None, &hid(vec![0x10, 0x20]), &mut out).expect("rumble");
    assert_eq!(
        out[0].payload,
        OutputPayload::Rumble(RumblePayload {
            strong: 0x10 * 257,
            weak: 0x20 * 257,
        })
    );
    let mut out = Vec::new();
    translate_xbox_reverse(
        Some(ReverseTarget::SemanticOutput(OutputFunction::PlayerIndicators)),
        &hid(vec![0x42]),
        &mut out,
    )
    .expect("player slot");
    assert_eq!(out[0].function, OutputFunction::PlayerIndicators);
    assert_eq!(
        out[0].payload,
        OutputPayload::Lighting(LightingPayload {
            red: None,
            green: None,
            blue: None,
            player_index: Some(2),
        })
    );
    let mut out = Vec::new();
    assert!(translate_xbox_reverse(
        Some(ReverseTarget::SemanticOutput(OutputFunction::Lighting)),
        &hid(vec![1, 2]),
        &mut out,
    )
    .is_err());
    let events = ReversePayload::Evdev {
        events: vec![
            EvdevEvent {
                event_type: 21,
                code: 3,
                value: 1,
            },
            EvdevEvent {
                event_type: 21,
                code: 0,
                value: 70_000,
            },
        ],
    };
    translate_xbox_reverse(None, &events, &mut out).expect("evdev rumble");
    assert_eq!(
        out,
        vec![ReverseOutput {
            function: OutputFunction::Rumble,
            payload: OutputPayload::Rumble(RumblePayload {
                strong: u16::MAX,
                weak: u16::MAX,
            }),
        }]
    );
}

#[test]
fn reverse_translators_never_emit_undeclared_outputs() {
    let declared_dualsense = [
        OutputFunction::Rumble,
        OutputFunction::Haptics,
        OutputFunction::Lighting,
        OutputFunction::PlayerIndicators,
        OutputFunction::TriggerEffect,
        OutputFunction::Audio,
    ];
    let declared_steam = [OutputFunction::Rumble, OutputFunction::Lighting];
    let declared_xbox = [
        OutputFunction::Rumble,
        OutputFunction::Lighting,
        OutputFunction::PlayerIndicators,
    ];
    for seed in 0_u8..=255 {
        let bytes: Vec<u8> = (0..64_u8).map(|i| i.wrapping_mul(31).wrapping_add(seed)).collect();
        for length in [0_usize, 3, 6, 10, 14, 45, 48, 64] {
            let mut out = Vec::new();
            let _ = translate_dualsense_reverse(None, &hid(bytes[..length].to_vec()), &mut out);
            assert!(out.iter().all(|o| declared_dualsense.contains(&o.function)));
            let mut out = Vec::new();
            let _ = translate_steam_reverse(None, &hid(bytes[..length.min(16)].to_vec()), &mut out);
            assert!(out.iter().all(|o| declared_steam.contains(&o.function)));
            let mut out = Vec::new();
            let _ = translate_xbox_reverse(None, &hid(bytes[..length.min(8)].to_vec()), &mut out);
            assert!(out.iter().all(|o| declared_xbox.contains(&o.function)));
        }
    }
}

#[test]
fn registry_resolves_known_phase6_entries() {
    let registry = TranslatorRegistry::new();
    assert!(registry.forward_registered(TranslatorFamily::GenericGamepad, BackendLevel::Evdev));
    assert!(registry.forward_registered(TranslatorFamily::XboxStyle, BackendLevel::Evdev));
    assert!(registry.forward_registered(TranslatorFamily::DualSense, BackendLevel::Hid));
    assert!(registry.forward_registered(TranslatorFamily::SteamController, BackendLevel::Hid));
    assert!(!registry.forward_registered(TranslatorFamily::DualSense, BackendLevel::Evdev));
    assert!(registry.reverse_registered(TranslatorFamily::DualSense));
    assert!(!registry.reverse_registered(TranslatorFamily::GenericGamepad));
    let mut out = Vec::new();
    assert!(registry
        .translate_reverse(TranslatorFamily::GenericGamepad, None, &hid(vec![1, 2]), &mut out)
        .is_none());
    assert!(out.is_empty());
}

#[test]
fn reverse_translation_is_required_above_compatibility_for_families_with_outputs() {
    assert!(!reverse_required(ProfileFamily::DualSense, FidelityTier::Compatibility));
    assert!(reverse_required(ProfileFamily::DualSense, FidelityTier::IdentityAware));
    assert!(!reverse_required(ProfileFamily::GenericGamepad, FidelityTier::HardwareFaithful));
}

#[test]
fn translation_error_display_is_human_readable() {
    let error = TranslationError::DescriptorUnavailable;
    assert!(error.message().contains("descriptor template"));
    let missing = TranslationError::NoTranslatorRegistered {
        family: TranslatorFamily::DualSense,
        level: BackendLevel::Evdev,
    };
    assert_eq!(
        missing.message(),
        "profile family `DualSense` has no registered translator for backend level `Evdev`"
    );
}

#[test]
fn translation_scratch_clears_without_releasing() {
    let mut scratch = TranslationScratch::new();
    scratch.bytes.extend_from_slice(&[1, 2, 3, 4]);
    let before = scratch.bytes.capacity();
    scratch.clear();
    assert!(scratch.bytes.is_empty());
    assert_eq!(scratch.bytes.capacity(), before);
}

#[test]
fn value_encodings_match_their_formulas() {
    assert_eq!(dpad_axis(true, false), -1);
    assert_eq!(dpad_axis(false, true), 1);
    assert_eq!(dpad_axis(true, true), 0);
    assert_eq!(encode_axis_u8(i16::MIN), 0);
    assert_eq!(encode_axis_u8(i16::MAX), 255);
    assert_eq!(encode_axis_u8(0), 127);
    assert_eq!(encode_trigger_u8(u16::MAX), 255);
    assert_eq!(encode_trigger_u8(256), 0);
    assert_eq!(scale_u8_to_u16(255), u16::MAX);
    assert_eq!(bool_bit(true, 3), 8);
    assert_eq!(bool_bit(false, 3), 0);
    assert_eq!(encode_dpad_hat(Dpad { up: true, down: false, left: false, right: false }), 0);
    assert_eq!(encode_dpad_hat(Dpad { up: false, down: true, left: true, right: false }), 5);
    assert_eq!(encode_dpad_hat(Dpad { up: true, down: true, left: true, right: true }), 8);
    assert_eq!(profile_family_name(ProfileFamily::SteamController), "steam-controller");
}

#[test]
fn touch_contacts_pack_counter_and_clamped_coordinates() {
    let mut bytes = vec![0xff_u8; 6];
    encode_dualsense_touch_contact(&mut bytes, 1, true, 0x123, 0x456, 0x85);
    assert_eq!(bytes, vec![0xff, 0x05, 0x23, 0x61, 0x45, 0xff]);
    encode_dualsense_touch_contact(&mut bytes, 0, false, 0xffff, 0, 1);
    assert_eq!(&bytes[..4], &[0x81, 0xff, 0x0f, 0x00]);
}

#[test]
fn report_shape_check_names_both_lengths() {
    assert!(ensure_hid_report_shape("dualsense", &[0; 64], 64).is_ok());
    assert_eq!(
        ensure_hid_report_shape("dualsense", &[0; 3], 64),
        Err(TranslationError::DescriptorViolation {
            reason: "dualsense translator emitted 3 bytes, expected 64".into()
        })
    );
}

fn frame(profile_id: &str, payload: ProfileInputPayload) -> ProfileInputFrame {
    ProfileInputFrame {
        profile_id: profile_id.to_string(),
        timestamp: 1,
        sequence: 1,
        payload,
    }
}

#[test]
fn xbox_evdev_translation_emits_expected_buttons_and_axes() {
    let registry = TranslatorRegistry::new();
    let input = frame(
        "xbox360",
        ProfileInputPayload::Xbox360(Xbox360Input {
            buttons: Xbox360Buttons {
                face: Xbox360FaceButtons {
                    a: true,
                    ..Xbox360FaceButtons::neutral()
                },
                shoulders: Xbox360Shoulders::neutral(),
                stick_clicks: Xbox360StickClicks::neutral(),
                system: Xbox360SystemButtons::neutral(),
            },
            dpad: Dpad {
                right: true,
                ..Dpad::neutral()
            },
            sticks: TwinStickAxes {
                left_x: 1200,
                left_y: -2400,
                right_x: 3000,
                right_y: -4000,
            },
            triggers: Xbox360Triggers { lt: 10, rt: 20 },
        }),
    );
    let mut scratch = TranslationScratch::new();
    let translated = registry
        .translate_forward(TranslatorFamily::XboxStyle, BackendLevel::Evdev, &input, &mut scratch)
        .expect("translator")
        .expect("translate");
    let BackendFrame::EvdevEvents { events } = translated else {
        panic!("expected evdev events");
    };
    assert!(events.iter().any(|event| event.code == BTN_SOUTH && event.value == 1));
    assert!(events.iter().any(|event| event.code == ABS_HAT0X && event.value == 1));
    assert!(events.iter().any(|event| event.code == ABS_X && event.value == 1200));
    assert!(events.iter().any(|event| event.code == ABS_RZ && event.value == 20));
}

fn dualsense_frame() -> ProfileInputFrame {
    frame(
        "dualsense",
        ProfileInputPayload::DualSense(DualSenseInput {
            buttons: DualSenseButtons {
                face: DualSenseFaceButtons {
                    cross: true,
                    triangle: true,
                    ..DualSenseFaceButtons::neutral()
                },
                shoulders: DualSenseShoulders { l1: true, r1: false },
                stick_clicks: DualSenseStickClicks::neutral(),
                system: DualSenseSystemButtons {
                    touchpad_click: true,
                    ..DualSenseSystemButtons::neutral()
                },
            },
            dpad: Dpad {
                up: true,
                ..Dpad::neutral()
            },
            sticks: TwinStickAxes::neutral(),
            triggers: DualSenseTriggers { l2: 1028, r2: 2056 },
            touchpad: DualSenseTouchpad {
                contact_1: DualSenseTouchContact {
                    active: true,
                    x: 1000,
                    y: 512,
                },
                contact_2: DualSenseTouchContact::neutral(),
            },
        }),
    )
}

#[test]
fn dualsense_hid_translation_encodes_buttons_touch_and_report_id() {
    let registry = TranslatorRegistry::new();
    let input = dualsense_frame();
    let mut scratch = TranslationScratch::new();
    let translated = registry
        .translate_forward(TranslatorFamily::DualSense, BackendLevel::Hid, &input, &mut scratch)
        .expect("translator")
        .expect("translate");
    let BackendFrame::HidInputReport { report_id, bytes } = translated else {
        panic!("expected hid report");
    };
    assert_eq!(report_id, Some(DUALSENSE_INPUT_REPORT_ID));
    assert_eq!(bytes[7] & 0x0f, 0x00);
    assert_ne!(bytes[7] & 0b1111_0000, 0);
    assert_eq!(bytes[8] & 0x01, 0x01);
    assert_eq!(bytes[9] & 0x02, 0x02);
    assert_eq!(bytes[32] & 0x80, 0x00);
}

#[test]
fn steam_hid_translation_encodes_axes_and_triggers() {
    let registry = TranslatorRegistry::new();
    let input = frame(
        "steam-controller",
        ProfileInputPayload::SteamController(SteamControllerInput {
            buttons: SteamControllerButtons {
                a: true,
                steam: true,
                ..SteamControllerButtons::neutral()
            },
            sticks: SteamControllerSticks {
                left_pad_x: 11,
                left_pad_y: -22,
                right_pad_x: 33,
                right_pad_y: -44,
                left_stick_x: 55,
                left_stick_y: -66,
            },
            triggers: SteamControllerTriggers { lt: 77, rt: 88 },
        }),
    );
    let mut scratch = TranslationScratch::new();
    let translated = registry
        .translate_forward(
            TranslatorFamily::SteamController,
            BackendLevel::Hid,
            &input,
            &mut scratch,
        )
        .expect("translator")
        .expect("translate");
    let BackendFrame::HidInputReport { report_id, bytes } = translated else {
        panic!("expected hid report");
    };
    assert_eq!(report_id, Some(STEAM_CONTROLLER_INPUT_REPORT_ID));
    assert_eq!(bytes[0] & 0x01, 0x01);
    assert_eq!(bytes[1] & 0x04, 0x04);
    assert_eq!(i16::from_le_bytes([bytes[2], bytes[3]]), 11);
    assert_eq!(u16::from_le_bytes([bytes[14], bytes[15]]), 77);
    assert_eq!(u16::from_le_bytes([bytes[16], bytes[17]]), 88);
}

#[test]
fn dualsense_report_layout_is_exact() {
    let input = dualsense_frame();
    let mut scratch = TranslationScratch::new();
    let translated = translate_dualsense_hid(&input, &mut scratch).expect("translate");
    let BackendFrame::HidInputReport { bytes, .. } = translated else {
        panic!("expected hid report");
    };
    assert_eq!(bytes.len(), 64);
    assert_eq!(&bytes[0..4], &[127, 127, 127, 127]);
    assert_eq!(bytes[4], 4);
    assert_eq!(bytes[5], 8);
    assert_eq!(bytes[6], 0);
    // hat 0 (up), cross (bit 5), triangle (bit 7)
    assert_eq!(bytes[7], 0b1010_0000);
    assert_eq!(bytes[8], 0x01);
    assert_eq!(bytes[9], 0x02);
    // contact 1: counter 0, x = 1000 = 0x3e8, y = 512 = 0x200
    assert_eq!(&bytes[32..36], &[0x00, 0xe8, 0x03, 0x20]);
    // contact 2: inactive, counter 1
    assert_eq!(&bytes[36..40], &[0x81, 0x00, 0x00, 0x00]);
    assert!(bytes[10..32].iter().all(|byte| *byte == 0));
    assert!(bytes[40..].iter().all(|byte| *byte == 0));
    assert_eq!(scratch.bytes, bytes);
}

#[test]
fn generic_evdev_translation_lists_every_control_in_order() {
    let payload = GenericGamepadInput {
        buttons: GenericGamepadButtons {
            south: true,
            guide: true,
            ..GenericGamepadButtons::neutral()
        },
        dpad: Dpad {
            left: true,
            right: true,
            up: true,
            down: false,
        },
        sticks: TwinStickAxes {
            left_x: -5,
            left_y: 6,
            right_x: -7,
            right_y: 8,
        },
        triggers: GenericGamepadTriggers {
            left_trigger: 65535,
            right_trigger: 3,
        },
    };
    let events = generic_evdev_event_list(&payload);
    let expected: Vec<(u16, u16, i32)> = vec![
        (EV_KEY, BTN_SOUTH, 1),
        (EV_KEY, BTN_EAST, 0),
        (EV_KEY, BTN_WEST, 0),
        (EV_KEY, BTN_NORTH, 0),
        (EV_KEY, BTN_TL, 0),
        (EV_KEY, BTN_TR, 0),
        (EV_KEY, BTN_THUMBL, 0),
        (EV_KEY, BTN_THUMBR, 0),
        (EV_KEY, BTN_START, 0),
        (EV_KEY, BTN_SELECT, 0),
        (EV_KEY, BTN_MODE, 1),
        (EV_ABS, ABS_HAT0X, 0),
        (EV_ABS, ABS_HAT0Y, -1),
        (EV_ABS, ABS_X, -5),
        (EV_ABS, ABS_Y, 6),
        (EV_ABS, ABS_RX, -7),
        (EV_ABS, ABS_RY, 8),
        (EV_ABS, ABS_Z, 65535),
        (EV_ABS, ABS_RZ, 3),
    ];
    let actual: Vec<(u16, u16, i32)> = events
        .iter()
        .map(|event| (event.event_type, event.code, event.value))
        .collect();
    assert_eq!(actual, expected);
}

#[test]
fn forward_translators_refuse_other_payloads() {
    let registry = TranslatorRegistry::new();
    let input = dualsense_frame();
    let mut scratch = TranslationScratch::new();
    scratch.bytes = vec![9, 9];
    let refused = registry
        .translate_forward(TranslatorFamily::SteamController, BackendLevel::Hid, &input, &mut scratch)
        .expect("translator");
    assert_eq!(
        refused,
        Err(TranslationError::InvalidInput {
            reason: "Steam Controller HID translator expected steam-controller payload, got `dualsense`"
                .to_string()
        })
    );
    assert_eq!(scratch.bytes, vec![9, 9]);
    let refused = registry
        .translate_forward(TranslatorFamily::GenericGamepad, BackendLevel::Evdev, &input, &mut scratch)
        .expect("translator");
    assert!(matches!(
        refused,
        Err(TranslationError::InvalidInput { reason })
            if reason == "generic evdev translator expected generic-gamepad payload, got `dualsense`"
    ));
    assert!(registry
        .translate_forward(TranslatorFamily::DualSense, BackendLevel::Evdev, &input, &mut scratch)
        .is_none());
}

fn base_plan() -> SessionPlan {
    SessionPlan {
        session_id: 7,
        profile_id: "dualsense".to_string(),
        requested_goal: EmulationGoal::IdentityAware,
        requested_fidelity_tier: FidelityTier::IdentityAware,
        selected_level: BackendLevel::Hid,
        target_host_platform: HostPlatform::Linux,
        selected_backend_family: BackendFamily::LinuxUhid,
        selected_provider_id: ProviderId::new("linux-uhid"),
        selected_translator_family: TranslatorFamily::DualSense,
        capability_result: CapabilityNegotiationResult::default(),
        degradation: DegradationReport::default(),
        warnings: Vec::new(),
        deployment_requirements: DeploymentRequirements::default(),
        backend_open_context: BackendOpenContext {
            session_id: 7,
            profile_id: "dualsense".to_string(),
            fidelity_tier: FidelityTier::IdentityAware,
            backend_level: BackendLevel::Hid,
            host_platform: HostPlatform::Linux,
        },
        session_options: SessionOptionsSnapshot {
            accepted_update_kinds: vec!["frame".to_string()],
            unknown_field_policy: "reject".to_string(),
            range_validation_policy: "reject".to_string(),
            coerce_integer_like_values: false,
            allow_missing_optional_fields: true,
            require_monotonic_sequence: false,
            preferred_provider: Some(ProviderId::new("linux-uhid")),
            reject_unsupported_provider_preference: true,
            unsupported_capability_policy: "report".to_string(),
            delivery_policy: ReverseEventDeliveryPolicy::Callback {
                callback_namespace: "virtualGamepad".to_string(),
            },
            backpressure_policy: BackpressurePolicy::DropOldest {
                log_dropped_outputs: true,
                max_queue_depth: Some(8),
            },
        },
    }
}

#[test]
fn prepared_context_populates_live_descriptor_template() {
    let registry = TranslatorRegistry::new();
    let plan = base_plan();
    let ctx = prepared_translation_context(&plan, &registry).expect("context");
    assert_eq!(ctx.session_id, Some(7));
    assert_eq!(ctx.profile_family.as_deref(), Some("dualsense"));
    assert_eq!(ctx.level, Some(BackendLevel::Hid));
    assert!(ctx.descriptor_template.is_some());
    assert_eq!(
        ctx.descriptor_template,
        Some(DescriptorTemplateSummary {
            fidelity: Some(FidelityTier::IdentityAware),
            descriptor_len: Some(273),
        })
    );
    assert_eq!(ctx.session_options, Some(plan.session_options.clone()));
    assert_eq!(ctx.provider_id, Some(ProviderId::new("linux-uhid")));
}

#[test]
fn prepared_context_reports_missing_translator() {
    let registry = TranslatorRegistry::new();
    let mut plan = base_plan();
    plan.selected_level = BackendLevel::Transport;
    let error = prepared_translation_context(&plan, &registry).expect_err("missing");
    assert_eq!(
        error,
        TranslationError::NoTranslatorRegistered {
            family: TranslatorFamily::DualSense,
            level: BackendLevel::Transport
        }
    );
}

fn uinput_plan(profile_id: &str, fidelity: FidelityTier, family: TranslatorFamily) -> SessionPlan {
    let mut plan = base_plan();
    plan.profile_id = profile_id.to_string();
    plan.requested_goal = EmulationGoal::Compatibility;
    plan.requested_fidelity_tier = fidelity;
    plan.selected_level = BackendLevel::Evdev;
    plan.selected_backend_family = BackendFamily::LinuxUinput;
    plan.selected_provider_id = ProviderId::new("linux-uinput");
    plan.selected_translator_family = family;
    plan.backend_open_context = BackendOpenContext {
        session_id: 7,
        profile_id: profile_id.to_string(),
        fidelity_tier: fidelity,
        backend_level: BackendLevel::Evdev,
        host_platform: HostPlatform::Linux,
    };
    plan
}

#[test]
fn prepared_context_reports_missing_descriptor_for_selected_tier() {
    let registry = TranslatorRegistry::new();
    let plan = uinput_plan(
        "generic-gamepad",
        FidelityTier::IdentityAware,
        TranslatorFamily::GenericGamepad,
    );
    let error = prepared_translation_context(&plan, &registry).expect_err("missing");
    assert_eq!(error, TranslationError::DescriptorUnavailable);
}

#[test]
fn prepared_context_supports_evdev_translator_family_resolution() {
    let registry = TranslatorRegistry::new();
    let plan = uinput_plan("xbox360", FidelityTier::Compatibility, TranslatorFamily::XboxStyle);
    let ctx = prepared_translation_context(&plan, &registry).expect("context");
    assert_eq!(ctx.profile_family.as_deref(), Some("xbox360"));
    assert_eq!(ctx.level, Some(BackendLevel::Evdev));
}

#[test]
fn prepared_context_refuses_unknown_profiles_and_missing_reverse_translators() {
    let registry = TranslatorRegistry::new();
    let mut plan = base_plan();
    plan.profile_id = "ps5".to_string();
    assert_eq!(
        prepared_translation_context(&plan, &registry),
        Err(TranslationError::InvalidInput {
            reason: "unknown built-in profile `ps5`".to_string()
        })
    );
    // An identity-aware xbox360 session needs a reverse translator; the
    // generic family has none.
    let mut plan = uinput_plan(
        "xbox360",
        FidelityTier::IdentityAware,
        TranslatorFamily::GenericGamepad,
    );
    plan.requested_goal = EmulationGoal::IdentityAware;
    assert_eq!(
        prepared_translation_context(&plan, &registry),
        Err(TranslationError::NoTranslatorRegistered {
            family: TranslatorFamily::GenericGamepad,
            level: BackendLevel::Evdev
        })
    );
}
