use virtualgamepad::builtin_profiles::generic_gamepad_profile;
use virtualgamepad::profile_contract::{
    CapabilityCategory, CapabilityItem, SemanticInputFunction, SemanticRef,
};
use virtualgamepad::runtime_model::FidelityTier;
use virtualgamepad::profiles::{registry, Optionality, ProfileFamily, RegistryError};
use virtualgamepad::reverse_translation::OutputFunction;
use virtualgamepad::testkit::ad_hoc_profile;

#[test]
fn lib_smoke() {}

#[test]
fn lookup_works_by_profile_id_and_str() {
    let registry = registry();
    assert_eq!(registry.profile_family("dualsense"), Some(ProfileFamily::DualSense));
    assert_eq!(registry.profile_family("generic-gamepad"), Some(ProfileFamily::GenericGamepad));
    assert_eq!(registry.profile_family("xbox360"), Some(ProfileFamily::Xbox360));
    assert_eq!(registry.profile_family("steam-controller"), Some(ProfileFamily::SteamController));
    assert_eq!(registry.profile_family("ps5"), None);
    let by_str = registry.profile_by_str("dualsense").expect("dualsense profile");
    let by_id = registry
        .profile("dualsense".to_string())
        .expect("dualsense profile");
    assert_eq!(by_str.profile_id, by_id.profile_id);
    assert!(registry.profile_by_str("ps5").is_none());
}

#[test]
fn built_in_registry_order_is_stable() {
    let profiles = registry().profiles();
    let ids = profiles
        .iter()
        .map(|profile| profile.profile_id.as_str())
        .collect::<Vec<_>>();
    assert_eq!(
        ids,
        vec!["generic-gamepad", "xbox360", "dualsense", "steam-controller"]
    );
}

#[test]
fn built_in_ids_and_display_names_match_spec() {
    let profiles = registry().profiles();
    assert_eq!(profiles[0].display_name, "Generic gamepad");
    assert_eq!(profiles[1].display_name, "Xbox 360");
    assert_eq!(profiles[2].display_name, "DualSense");
    assert_eq!(profiles[3].display_name, "Steam Controller");
}

#[test]
fn duplicate_profile_ids_are_impossible_in_builtins() {
    let profiles = registry().profiles();
    let mut ids = profiles
        .iter()
        .map(|profile| profile.profile_id.as_str())
        .collect::<Vec<_>>();
    ids.sort_unstable();
    ids.dedup();
    assert_eq!(ids.len(), registry().profiles().len());
}

#[test]
fn input_capabilities_use_only_input_semantics() {
    for profile in registry().profiles() {
        assert!(profile
            .capabilities
            .input
            .iter()
            .all(|capability| capability.semantic.is_input()));
    }
}

#[test]
fn output_capabilities_use_only_output_semantics() {
    for profile in registry().profiles() {
        assert!(profile
            .capabilities
            .output
            .iter()
            .all(|capability| capability.semantic.is_output()));
    }
}

#[test]
fn every_declared_output_has_matching_reverse_support() {
    for profile in registry().profiles() {
        registry()
            .validate_profile_contract(&profile)
            .expect("built-in profile validates");
    }
}

#[test]
fn xbox360_declares_led_outputs() {
    let profile = registry()
        .profile_by_str("xbox360")
        .expect("xbox360 profile exists");
    assert!(
        profile.capabilities.output.iter().any(|capability| {
            capability.semantic == SemanticRef::Output(OutputFunction::Lighting)
        }),
        "xbox360 should declare lighting output"
    );
    assert!(
        profile.capabilities.output.iter().any(|capability| {
            capability.semantic == SemanticRef::Output(OutputFunction::PlayerIndicators)
        }),
        "xbox360 should declare player indicator output"
    );
}

#[test]
fn non_dualsense_profiles_do_not_declare_dualsense_specific_outputs() {
    let forbidden = [
        OutputFunction::TriggerEffect,
        OutputFunction::Audio,
        OutputFunction::Haptics,
    ];
    for profile in registry().profiles() {
        if profile.profile_id == "dualsense" {
            continue;
        }
        for capability in profile.capabilities.output {
            let SemanticRef::Output(output) = capability.semantic else {
                continue;
            };
            assert!(
                !forbidden.contains(&output),
                "{} declared dualsense-specific output `{output:?}`",
                profile.profile_id
            );
        }
    }
}

#[test]
fn every_built_in_profile_has_analog_ranges() {
    for profile in registry().profiles() {
        assert!(
            !profile.input_contract.ranges.is_empty(),
            "{} should declare analog ranges",
            profile.profile_id
        );
    }
}

#[test]
fn identity_aware_profiles_have_non_empty_descriptors() {
    for profile_id in ["xbox360", "dualsense", "steam-controller"] {
        let profile = registry()
            .profile_by_str(profile_id)
            .expect("profile exists");
        let descriptor = profile
            .descriptor_templates
            .iter()
            .find(|template| template.fidelity == FidelityTier::IdentityAware)
            .expect("identity-aware descriptor");
        assert!(
            !descriptor.descriptor.0.is_empty(),
            "{profile_id} identity-aware descriptor should be non-empty"
        );
    }
}

#[test]
fn built_in_profiles_carry_their_usb_identity() {
    let profiles = registry().profiles();
    let identities: Vec<(u16, u16, Option<u16>)> = profiles
        .iter()
        .map(|profile| {
            (
                profile.identity.vendor_id,
                profile.identity.product_id,
                profile.identity.version,
            )
        })
        .collect();
    assert_eq!(
        identities,
        vec![
            (1, 1, None),
            (0x045e, 0x028e, None),
            (0x054c, 0x0ce6, Some(0x0100)),
            (0x28de, 0x1102, None),
        ]
    );
    assert_eq!(profiles[2].descriptor_templates[0].descriptor.0.len(), 273);
    assert_eq!(profiles[2].descriptor_templates[0].descriptor.0[..4], [0x05, 0x01, 0x09, 0x05]);
    assert_eq!(profiles[0].descriptor_templates.len(), 1);
    assert!(profiles[0].descriptor_templates[0].descriptor.0.is_empty());
}

#[test]
fn built_in_generic_gamepad_validates() {
    let profile = generic_gamepad_profile();
    assert_eq!(profile.display_name, "Generic gamepad");
    assert_eq!(profile.capabilities.input.len(), 16);
    assert_eq!(profile.input_contract.required_fields.len(), 21);
    registry()
        .validate_profile_contract(&profile)
        .expect("built-in profile validates");
}

#[test]
fn invalid_profiles_fail_with_field_specific_errors() {
    for expected_field in [
        "display_name",
        "supported_fidelity",
        "input_contract.required_fields",
        "capabilities.input",
        "identity.vendor_id",
        "identity.product_id",
    ] {
        let profile = ad_hoc_profile("invalid-test")
            .missing_required_field(expected_field)
            .build();
        let error = registry()
            .validate_profile_contract(&profile)
            .expect_err("invalid profile should fail");
        match error {
            RegistryError::MissingRequiredField { field, profile_id } => {
                assert_eq!(field, expected_field);
                assert_eq!(profile_id, "invalid-test");
            }
            other => panic!("expected MissingRequiredField, got {other:?}"),
        }
    }
}

#[test]
fn empty_profile_id_fails_validation() {
    let mut profile = generic_gamepad_profile();
    profile.profile_id = String::new();
    let error = registry()
        .validate_profile_contract(&profile)
        .expect_err("empty profile_id should fail");
    assert!(matches!(
        error,
        RegistryError::MissingRequiredField {
            field: "profile_id",
            ..
        }
    ));
}

#[test]
fn validator_catches_duplicate_capability() {
    let dup = CapabilityItem {
        category: CapabilityCategory::Button,
        semantic: SemanticRef::Input(SemanticInputFunction::FaceBottom),
        optionality: Optionality::Required,
        range: None,
    };
    let mut profile = generic_gamepad_profile();
    profile.profile_id = "dup-test".to_string();
    profile.capabilities.input = vec![dup, dup];
    profile.capabilities.output = vec![];
    let error = registry()
        .validate_profile_contract(&profile)
        .expect_err("duplicate input capability");
    assert!(matches!(
        error,
        RegistryError::DuplicateCapability { slice: "input", .. }
    ));
    assert_eq!(
        error.message(),
        "profile `dup-test` has a duplicate input capability `button:face-bottom`"
    );
}

#[test]
fn validator_catches_wrong_semantic_kind_in_input_slice() {
    let bad = CapabilityItem {
        category: CapabilityCategory::Haptic,
        semantic: SemanticRef::Output(OutputFunction::Rumble),
        optionality: Optionality::Required,
        range: None,
    };
    let mut profile = generic_gamepad_profile();
    profile.profile_id = "wrong-kind-test".to_string();
    profile.capabilities.input = vec![bad];
    profile.capabilities.output = vec![];
    let error = registry()
        .validate_profile_contract(&profile)
        .expect_err("wrong semantic kind in input slice");
    assert!(matches!(
        error,
        RegistryError::WrongSemanticKind { slice: "input", .. }
    ));
}

#[test]
fn validator_catches_output_capability_without_reverse_support() {
    let output = CapabilityItem {
        category: CapabilityCategory::Haptic,
        semantic: SemanticRef::Output(OutputFunction::Rumble),
        optionality: Optionality::Required,
        range: None,
    };
    let mut profile = generic_gamepad_profile();
    profile.profile_id = "missing-reverse-test".to_string();
    profile.capabilities.output = vec![output];
    let error = registry()
        .validate_profile_contract(&profile)
        .expect_err("output without reverse support");
    assert!(matches!(
        error,
        RegistryError::OutputCapabilityMissingReverseSupport { .. }
    ));
}

#[test]
fn validator_catches_reverse_support_without_output_capability() {
    let mut profile = generic_gamepad_profile();
    profile.profile_id = "orphan-reverse-test".to_string();
    profile.reverse_command_support.supported = vec![OutputFunction::Rumble];
    let error = registry()
        .validate_profile_contract(&profile)
        .expect_err("orphan reverse-support entry");
    assert!(matches!(
        error,
        RegistryError::ReverseSupportMissingOutputCapability { .. }
    ));
    assert_eq!(
        error.message(),
        "profile `orphan-reverse-test` declared reverse support `rumble` without matching output capability"
    );
}

#[test]
fn matched_outputs_and_reverse_support_validate() {
    let mut profile = generic_gamepad_profile();
    profile.capabilities.output = vec![CapabilityItem {
        category: CapabilityCategory::Lighting,
        semantic: SemanticRef::Output(OutputFunction::PlayerIndicators),
        optionality: Optionality::Required,
        range: None,
    }];
    profile.reverse_command_support.supported = vec![OutputFunction::PlayerIndicators];
    registry()
        .validate_profile_contract(&profile)
        .expect("matched output validates");
}

#[test]
fn ad_hoc_profile_records_id_and_missing_fields() {
    let profile = ad_hoc_profile("adhoc")
        .missing_required_field("identity")
        .missing_required_field("not-a-field")
        .build();
    assert_eq!(profile.profile_id, "adhoc");
    assert_eq!(profile.display_name, "Ad hoc test profile");
    assert_eq!(profile.identity.vendor_id, 0);
    assert_eq!(profile.identity.product_id, 1);
    assert_eq!(profile.profile_family, ProfileFamily::GenericGamepad);
    let error = registry()
        .validate_profile_contract(&profile)
        .expect_err("vendor is missing");
    assert!(matches!(
        error,
        RegistryError::MissingRequiredField {
            field: "identity.vendor_id",
            ..
        }
    ));
    let complete = ad_hoc_profile("adhoc").build();
    registry()
        .validate_profile_contract(&complete)
        .expect("an ad-hoc profile with nothing missing validates");
}
