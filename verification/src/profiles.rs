//! Profile vocabulary: families, input contracts, descriptor bytes, the
//! registry handle and the registry's error.

use vstd::prelude::*;

use crate::runtime_model::FidelityTier;
use crate::text::str_eq;

verus! {

/// The controller family a profile belongs to.
#[derive(Debug, Clone, Copy, PartialEq, Eq, Hash, Structural)]
#[non_exhaustive]
pub enum ProfileFamily {
    GenericGamepad,
    Xbox360,
    DualSense,
    SteamController,
}

/// Whether a capability must be present.
#[derive(Debug, Clone, Copy, PartialEq, Eq, Hash, Structural)]
pub enum Optionality {
    Required,
    Optional,
}

/// The input fields a profile requires or accepts, with their ranges.
#[derive(Debug, Clone)]
pub struct ProfileInputContract {
    pub required_fields: Vec<InputFieldRef>,
    pub optional_fields: Vec<InputFieldRef>,
    pub ranges: Vec<InputFieldRange>,
    pub delta_support: DeltaSupportRule,
}

/// A dotted path naming one input field (`sticks.left.x`).
#[derive(Debug, Clone, Copy, PartialEq, Eq, Hash)]
pub struct InputFieldRef(pub &'static str);

/// The value range one input field must stay within.
#[derive(Debug, Clone, Copy, PartialEq, Eq)]
pub struct InputFieldRange {
    pub field: InputFieldRef,
    pub range: ValueRange,
}

/// An inclusive range of a signed or unsigned 16-bit field.
#[derive(Debug, Clone, Copy, PartialEq, Eq, Structural)]
pub enum ValueRange {
    I16 { min: i16, max: i16 },
    U16 { min: u16, max: u16 },
}

/// Whether a profile accepts sparse partial input updates.
#[derive(Debug, Clone, Copy, PartialEq, Eq, Structural)]
pub enum DeltaSupportRule {
    SparsePartial,
    Unsupported,
}

/// A transport the physical controller is known to use.
#[derive(Debug, Clone, Copy, PartialEq, Eq, Hash, Structural)]
pub enum TransportHint {
    Usb,
    Bluetooth,
}

/// Raw HID report-descriptor bytes.
#[derive(Debug, Clone, PartialEq, Eq)]
pub struct DescriptorBytes(pub Vec<u8>);

/// The HID descriptor a profile presents at one fidelity tier.
#[derive(Debug, Clone, PartialEq, Eq)]
pub struct DescriptorTemplate {
    pub fidelity: FidelityTier,
    pub descriptor: DescriptorBytes,
}

/// Query handle for the closed, built-in profile registry.
#[derive(Debug, Clone, Copy, PartialEq, Eq, Default)]
pub struct CapabilityRegistry;

/// The IDs of the built-in profiles, in registry order.
pub open spec fn builtin_profile_ids() -> Seq<Seq<char>> {
    seq!["generic-gamepad"@, "xbox360"@, "dualsense"@, "steam-controller"@]
}

/// The family of each built-in profile, in registry order.
pub open spec fn builtin_profile_families() -> Seq<ProfileFamily> {
    seq![
        ProfileFamily::GenericGamepad,
        ProfileFamily::Xbox360,
        ProfileFamily::DualSense,
        ProfileFamily::SteamController,
    ]
}

/// `profile_id` names a built-in profile.
pub open spec fn is_builtin_profile(profile_id: Seq<char>) -> bool {
    builtin_profile_ids().contains(profile_id)
}

impl CapabilityRegistry {
    /// The family of the built-in profile `profile_id`, if it is one.
    pub fn profile_family(self, profile_id: &str) -> (family: Option<ProfileFamily>)
        ensures
            family is Some <==> is_builtin_profile(profile_id@),
            forall|i: int|
                0 <= i < 4 && builtin_profile_ids()[i] == profile_id@ ==> family == Some(
                    builtin_profile_families()[i],
                ),
    {
        let ghost ids = builtin_profile_ids();
        proof {
            reveal_strlit("generic-gamepad");
            reveal_strlit("xbox360");
            reveal_strlit("dualsense");
            reveal_strlit("steam-controller");
            assert(ids[0].len() == 15 && ids[1].len() == 7 && ids[2].len() == 9 && ids[3].len()
                == 16);
            assert(ids[1][0] != ids[2][0] && ids[1][0] != ids[3][0] && ids[2][0] != ids[3][0]);
        }
        assert(ids[0] == "generic-gamepad"@ && ids[1] == "xbox360"@ && ids[2] == "dualsense"@
            && ids[3] == "steam-controller"@);
        if str_eq(profile_id, "generic-gamepad") {
            Some(ProfileFamily::GenericGamepad)
        } else if str_eq(profile_id, "xbox360") {
            Some(ProfileFamily::Xbox360)
        } else if str_eq(profile_id, "dualsense") {
            Some(ProfileFamily::DualSense)
        } else if str_eq(profile_id, "steam-controller") {
            Some(ProfileFamily::SteamController)
        } else {
            assert(!ids.contains(profile_id@)) by {
                if ids.contains(profile_id@) {
                    let i = choose|i: int| 0 <= i < ids.len() && ids[i] == profile_id@;
                    assert(0 <= i < 4);
                }
            }
            None
        }
    }
}

/// The registry handle.
pub fn registry() -> (handle: CapabilityRegistry)
    ensures
        handle == CapabilityRegistry,
{
    CapabilityRegistry
}

/// A profile whose registry contract is violated.
#[derive(Debug, Clone, PartialEq, Eq)]
pub enum RegistryError {
    MissingRequiredField { profile_id: String, field: &'static str },
    DuplicateCapability { profile_id: String, slice: &'static str, capability: String },
    WrongSemanticKind { profile_id: String, slice: &'static str, capability: String },
    OutputCapabilityMissingReverseSupport { profile_id: String, capability: String },
    ReverseSupportMissingOutputCapability { profile_id: String, capability: String },
}

impl RegistryError {
    pub open spec fn spec_message(&self) -> Seq<char> {
        match self {
            RegistryError::MissingRequiredField { profile_id, field } => "profile `"@ + profile_id@
                + "` is missing required field `"@ + field@ + "`"@,
            RegistryError::DuplicateCapability { profile_id, slice, capability } => "profile `"@
                + profile_id@ + "` has a duplicate "@ + slice@ + " capability `"@ + capability@
                + "`"@,
            RegistryError::WrongSemanticKind { profile_id, slice, capability } => "profile `"@
                + profile_id@ + "` declared an "@ + slice@
                + " capability with the wrong semantic kind: `"@ + capability@ + "`"@,
            RegistryError::OutputCapabilityMissingReverseSupport { profile_id, capability } =>
                "profile `"@ + profile_id@ + "` declared output capability `"@ + capability@
                + "` without matching reverse support"@,
            RegistryError::ReverseSupportMissingOutputCapability { profile_id, capability } =>
                "profile `"@ + profile_id@ + "` declared reverse support `"@ + capability@
                + "` without matching output capability"@,
        }
    }

    /// The error's human-readable message.
    pub fn message(&self) -> (text: String)
        ensures
            text@ == self.spec_message(),
    {
        match self {
            RegistryError::MissingRequiredField { profile_id, field } => {
                let mut text = String::from_str("profile `");
                text.append(profile_id.as_str());
                text.append("` is missing required field `");
                text.append(field);
                text.append("`");
                text
            },
            RegistryError::DuplicateCapability { profile_id, slice, capability } => {
                let mut text = String::from_str("profile `");
                text.append(profile_id.as_str());
                text.append("` has a duplicate ");
                text.append(slice);
                text.append(" capability `");
                text.append(capability.as_str());
                text.append("`");
                text
            },
            RegistryError::WrongSemanticKind { profile_id, slice, capability } => {
                let mut text = String::from_str("profile `");
                text.append(profile_id.as_str());
                text.append("` declared an ");
                text.append(slice);
                text.append(" capability with the wrong semantic kind: `");
                text.append(capability.as_str());
                text.append("`");
                text
            },
            RegistryError::OutputCapabilityMissingReverseSupport { profile_id, capability } => {
                let mut text = String::from_str("profile `");
                text.append(profile_id.as_str());
                text.append("` declared output capability `");
                text.append(capability.as_str());
                text.append("` without matching reverse support");
                text
            },
            RegistryError::ReverseSupportMissingOutputCapability { profile_id, capability } => {
                let mut text = String::from_str("profile `");
                text.append(profile_id.as_str());
                text.append("` declared reverse support `");
                text.append(capability.as_str());
                text.append("` without matching output capability");
                text
            },
        }
    }
}

} // verus!
