use virtualgamepad::realization::{
    device_node_preflight, validate_provider, DeviceNodeProbe, ProviderPreflightError, ControllerId, DeploymentTarget, NativeControllerRealization,
    NativeDeviceIdentity, NativeEvdevRealization, NativeRealizationError, ProviderCapabilities,
    ProviderOpenRequest, ProviderOpenValidationError, ProviderRequirements, RealizationError,
    RealizationSelection, RealizationSessionId, RealizationTarget, RealizationTargetSet,
    TransportValidationTarget,
};

fn uinput_request() -> ProviderOpenRequest {
    ProviderOpenRequest {
        session: RealizationSessionId(1),
        selection: RealizationSelection {
            controller: ControllerId::new("test.provider"),
            target: RealizationTarget::Evdev,
        },
        requirements: ProviderRequirements::default(),
        realization: NativeControllerRealization::Evdev(NativeEvdevRealization {
            device_name: "test".into(),
            identity: NativeDeviceIdentity {
                vendor_id: 1,
                product_id: 2,
                version: 3,
            },
            event_codes: vec![],
            key_codes: vec![],
            absolute_axes: vec![],
            relative_axes: vec![],
            led_codes: vec![],
            switch_codes: vec![],
            force_feedback_codes: vec![],
        }),
    }
}

#[test]
fn targets_are_exact_and_independent() {
    assert_ne!(RealizationTarget::Evdev, RealizationTarget::Hid);
    assert_ne!(RealizationTarget::Hid, RealizationTarget::UsbTransportValidation);
}

#[test]
fn deployment_and_usb_validation_targets_are_explicitly_separate() {
    assert_eq!(DeploymentTarget::Evdev.realization_target(), RealizationTarget::Evdev);
    assert_eq!(DeploymentTarget::Hid.realization_target(), RealizationTarget::Hid);
    assert_eq!(
        TransportValidationTarget::UsbGadget.realization_target(),
        RealizationTarget::UsbTransportValidation
    );
}

#[test]
fn target_sets_are_unordered_membership_sets() {
    let targets = RealizationTargetSet::singleton(RealizationTarget::UsbTransportValidation)
        .union(RealizationTargetSet::singleton(RealizationTarget::Evdev));
    assert!(targets.contains(RealizationTarget::UsbTransportValidation));
    assert!(targets.contains(RealizationTarget::Evdev));
    assert!(!targets.contains(RealizationTarget::Hid));
}

#[test]
fn provider_validation_rejects_target_mismatch_without_fallback() {
    let selection = RealizationSelection {
        controller: ControllerId::new("test.hardware-only"),
        target: RealizationTarget::Evdev,
    };
    let error = validate_provider(
        selection,
        ProviderCapabilities::for_target(RealizationTarget::Hid, true),
        ProviderRequirements::default(),
    )
    .expect_err("providers cannot substitute targets");
    assert!(matches!(error, RealizationError::TargetMismatch { .. }));
}

#[test]
fn provider_validation_checks_reverse_output_separately() {
    let selection = RealizationSelection {
        controller: ControllerId::new("test.identity"),
        target: RealizationTarget::Hid,
    };
    let error = validate_provider(
        selection,
        ProviderCapabilities::for_target(RealizationTarget::Hid, false),
        ProviderRequirements {
            requires_reverse_output: true,
        },
    )
    .expect_err("reverse output is required");
    assert!(matches!(error, RealizationError::MissingReverseOutput { .. }));
}

#[test]
fn open_validation_uses_the_actual_provider_capabilities() {
    uinput_request()
        .validate_against(ProviderCapabilities::for_target(RealizationTarget::Evdev, false))
        .expect("no reverse output is required");

    let mut request = uinput_request();
    request.requirements.requires_reverse_output = true;
    let error = request
        .validate_against(ProviderCapabilities::for_target(RealizationTarget::Evdev, false))
        .expect_err("provider cannot satisfy reverse output");
    assert!(matches!(
        error,
        ProviderOpenValidationError::Realization(RealizationError::MissingReverseOutput { .. })
    ));
}

#[test]
fn malformed_realization_is_rejected_before_open() {
    let mut request = uinput_request();
    let NativeControllerRealization::Evdev(specification) = &mut request.realization else {
        unreachable!("test creates evdev realization");
    };
    specification.device_name.clear();
    let error = request
        .validate_against(ProviderCapabilities::for_target(RealizationTarget::Evdev, false))
        .expect_err("empty name is invalid");
    assert!(matches!(
        error,
        ProviderOpenValidationError::Specification(NativeRealizationError::EmptyDeviceName {
            target: RealizationTarget::Evdev
        })
    ));
}

#[test]
fn realization_target_sets_union_and_emptiness() {
    assert!(RealizationTargetSet::empty().is_empty());
    let hid = RealizationTargetSet::singleton(RealizationTarget::Hid);
    assert!(!hid.is_empty());
    let both = hid.union(RealizationTargetSet::singleton(RealizationTarget::Hid));
    assert!(both.contains(RealizationTarget::Hid));
    assert!(!both.contains(RealizationTarget::Evdev));
}

#[test]
fn validation_error_messages_name_the_targets() {
    let error = RealizationError::TargetMismatch {
        requested_target: RealizationTarget::Evdev,
        actual_target: RealizationTarget::Hid,
    };
    let text = error.message();
    assert!(text.contains("linux uinput/evdev"), "{text}");
    assert!(text.contains("linux UHID"), "{text}");
}

#[test]
fn device_node_preflight_names_the_node_and_the_failure() {
    assert_eq!(
        device_node_preflight(RealizationTarget::Hid, "/dev/uhid", true, DeviceNodeProbe::Opened),
        Ok(())
    );
    assert_eq!(
        device_node_preflight(RealizationTarget::Evdev, "/dev/uinput", true, DeviceNodeProbe::Missing),
        Err(ProviderPreflightError::MissingDeviceNode {
            target: RealizationTarget::Evdev,
            path: "/dev/uinput".into()
        })
    );
    assert_eq!(
        device_node_preflight(RealizationTarget::Hid, "/dev/uhid", true, DeviceNodeProbe::Refused),
        Err(ProviderPreflightError::AccessDenied {
            target: RealizationTarget::Hid,
            path: "/dev/uhid".into()
        })
    );
    assert_eq!(
        device_node_preflight(RealizationTarget::Hid, "/dev/uhid", false, DeviceNodeProbe::Opened),
        Err(ProviderPreflightError::UnsupportedPlatform { target: RealizationTarget::Hid })
    );
}

#[test]
fn target_set_union_is_commutative_associative_and_idempotent() {
    let evdev = RealizationTargetSet::singleton(RealizationTarget::Evdev);
    let hid = RealizationTargetSet::singleton(RealizationTarget::Hid);
    let usb = RealizationTargetSet::singleton(RealizationTarget::UsbTransportValidation);
    assert_eq!(evdev.union(hid), hid.union(evdev));
    assert_eq!(evdev.union(hid).union(usb), evdev.union(hid.union(usb)));
    assert_eq!(hid.union(hid), hid);
    assert_eq!(hid.union(RealizationTargetSet::empty()), hid);
    assert!(evdev.union(hid).contains(RealizationTarget::Hid));
    assert!(!evdev.union(hid).contains(RealizationTarget::UsbTransportValidation));
}
