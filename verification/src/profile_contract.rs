//! A controller profile's declared capabilities and the registry's
//! consistency rules for them: required fields present, capability slices
//! of the right semantic kind and free of duplicates, and output
//! capabilities matched one-for-one by reverse-command support.

use vstd::prelude::*;

use crate::profiles::{
    DescriptorTemplate, InputFieldRef, Optionality, ProfileFamily, ProfileInputContract,
    RegistryError, TransportHint, ValueRange,
};
use crate::reverse_translation::OutputFunction;
use crate::runtime_model::FidelityTier;

verus! {

/// The kind of control a capability belongs to.
#[derive(Debug, Clone, Copy, PartialEq, Eq, Hash, Structural)]
pub enum CapabilityCategory {
    Button,
    Stick,
    Trigger,
    System,
    TouchSurface,
    MotionSensor,
    Haptic,
    Lighting,
    Audio,
}

/// A semantic input function of a controller.
#[derive(Debug, Clone, Copy, PartialEq, Eq, Hash, Structural)]
pub enum SemanticInputFunction {
    FaceBottom,
    FaceRight,
    FaceLeft,
    FaceTop,
    LeftShoulder,
    RightShoulder,
    LeftStickButton,
    RightStickButton,
    MenuPrimary,
    MenuSecondary,
    Guide,
    Dpad,
    LeftStick,
    RightStick,
    LeftTrigger,
    RightTrigger,
    TouchSurface,
    TouchClick,
    Accelerometer,
    Gyroscope,
    PaddleLeft,
    PaddleRight,
}

/// A category-typed reference to a semantic input or output function.
#[derive(Debug, Clone, Copy, PartialEq, Eq, Hash, Structural)]
pub enum SemanticRef {
    Input(SemanticInputFunction),
    Output(OutputFunction),
}

impl SemanticRef {
    pub fn is_input(self) -> (input: bool)
        ensures
            input == self is Input,
    {
        match self {
            SemanticRef::Input(_) => true,
            SemanticRef::Output(_) => false,
        }
    }

    pub fn is_output(self) -> (output: bool)
        ensures
            output == self is Output,
    {
        match self {
            SemanticRef::Input(_) => false,
            SemanticRef::Output(_) => true,
        }
    }
}

/// One declared capability.
#[derive(Debug, Clone, Copy, PartialEq, Eq, Structural)]
pub struct CapabilityItem {
    pub category: CapabilityCategory,
    pub semantic: SemanticRef,
    pub optionality: Optionality,
    pub range: Option<ValueRange>,
}

/// The USB identity of a controller profile.
#[derive(Debug, Clone)]
pub struct ProfileIdentity {
    pub vendor_id: u16,
    pub product_id: u16,
    pub version: Option<u16>,
    pub transport_hints: Vec<TransportHint>,
}

/// The input and output capabilities a profile declares.
#[derive(Debug, Clone)]
pub struct ControllerCapabilities {
    pub input: Vec<CapabilityItem>,
    pub output: Vec<CapabilityItem>,
}

/// The outputs a profile can be driven through from the host.
#[derive(Debug, Clone)]
pub struct ReverseCommandSupport {
    pub supported: Vec<OutputFunction>,
}

/// A controller profile: identity, capabilities, input contract, HID
/// descriptors per fidelity tier and reverse-command support.
#[derive(Debug, Clone)]
pub struct ControllerProfile {
    pub profile_id: String,
    pub display_name: String,
    pub profile_family: ProfileFamily,
    pub identity: ProfileIdentity,
    pub capabilities: ControllerCapabilities,
    pub supported_fidelity: Vec<FidelityTier>,
    pub input_contract: ProfileInputContract,
    pub descriptor_templates: Vec<DescriptorTemplate>,
    pub reverse_command_support: ReverseCommandSupport,
}

// ---------------------------------------------------------------------
// Names
// ---------------------------------------------------------------------

pub open spec fn spec_category_name(category: CapabilityCategory) -> Seq<char> {
    match category {
        CapabilityCategory::Button => "button"@,
        CapabilityCategory::Stick => "stick"@,
        CapabilityCategory::Trigger => "trigger"@,
        CapabilityCategory::System => "system"@,
        CapabilityCategory::TouchSurface => "touch-surface"@,
        CapabilityCategory::MotionSensor => "motion-sensor"@,
        CapabilityCategory::Haptic => "haptic"@,
        CapabilityCategory::Lighting => "lighting"@,
        CapabilityCategory::Audio => "audio"@,
    }
}

pub fn category_name(category: CapabilityCategory) -> (name: &'static str)
    ensures
        name@ == spec_category_name(category),
{
    match category {
        CapabilityCategory::Button => "button",
        CapabilityCategory::Stick => "stick",
        CapabilityCategory::Trigger => "trigger",
        CapabilityCategory::System => "system",
        CapabilityCategory::TouchSurface => "touch-surface",
        CapabilityCategory::MotionSensor => "motion-sensor",
        CapabilityCategory::Haptic => "haptic",
        CapabilityCategory::Lighting => "lighting",
        CapabilityCategory::Audio => "audio",
    }
}

pub open spec fn spec_input_name(function: SemanticInputFunction) -> Seq<char> {
    match function {
        SemanticInputFunction::FaceBottom => "face-bottom"@,
        SemanticInputFunction::FaceRight => "face-right"@,
        SemanticInputFunction::FaceLeft => "face-left"@,
        SemanticInputFunction::FaceTop => "face-top"@,
        SemanticInputFunction::LeftShoulder => "left-shoulder"@,
        SemanticInputFunction::RightShoulder => "right-shoulder"@,
        SemanticInputFunction::LeftStickButton => "left-stick-button"@,
        SemanticInputFunction::RightStickButton => "right-stick-button"@,
        SemanticInputFunction::MenuPrimary => "menu-primary"@,
        SemanticInputFunction::MenuSecondary => "menu-secondary"@,
        SemanticInputFunction::Guide => "guide"@,
        SemanticInputFunction::Dpad => "dpad"@,
        SemanticInputFunction::LeftStick => "left-stick"@,
        SemanticInputFunction::RightStick => "right-stick"@,
        SemanticInputFunction::LeftTrigger => "left-trigger"@,
        SemanticInputFunction::RightTrigger => "right-trigger"@,
        SemanticInputFunction::TouchSurface => "touch-surface"@,
        SemanticInputFunction::TouchClick => "touch-click"@,
        SemanticInputFunction::Accelerometer => "accelerometer"@,
        SemanticInputFunction::Gyroscope => "gyroscope"@,
        SemanticInputFunction::PaddleLeft => "paddle-left"@,
        SemanticInputFunction::PaddleRight => "paddle-right"@,
    }
}

pub fn input_name(function: SemanticInputFunction) -> (name: &'static str)
    ensures
        name@ == spec_input_name(function),
{
    match function {
        SemanticInputFunction::FaceBottom => "face-bottom",
        SemanticInputFunction::FaceRight => "face-right",
        SemanticInputFunction::FaceLeft => "face-left",
        SemanticInputFunction::FaceTop => "face-top",
        SemanticInputFunction::LeftShoulder => "left-shoulder",
        SemanticInputFunction::RightShoulder => "right-shoulder",
        SemanticInputFunction::LeftStickButton => "left-stick-button",
        SemanticInputFunction::RightStickButton => "right-stick-button",
        SemanticInputFunction::MenuPrimary => "menu-primary",
        SemanticInputFunction::MenuSecondary => "menu-secondary",
        SemanticInputFunction::Guide => "guide",
        SemanticInputFunction::Dpad => "dpad",
        SemanticInputFunction::LeftStick => "left-stick",
        SemanticInputFunction::RightStick => "right-stick",
        SemanticInputFunction::LeftTrigger => "left-trigger",
        SemanticInputFunction::RightTrigger => "right-trigger",
        SemanticInputFunction::TouchSurface => "touch-surface",
        SemanticInputFunction::TouchClick => "touch-click",
        SemanticInputFunction::Accelerometer => "accelerometer",
        SemanticInputFunction::Gyroscope => "gyroscope",
        SemanticInputFunction::PaddleLeft => "paddle-left",
        SemanticInputFunction::PaddleRight => "paddle-right",
    }
}

pub open spec fn spec_output_name(function: OutputFunction) -> Seq<char> {
    match function {
        OutputFunction::Rumble => "rumble"@,
        OutputFunction::Haptics => "haptics"@,
        OutputFunction::Lighting => "lighting"@,
        OutputFunction::PlayerIndicators => "player-indicators"@,
        OutputFunction::TriggerEffect => "trigger-effect"@,
        OutputFunction::Audio => "audio"@,
    }
}

pub fn output_name(function: OutputFunction) -> (name: &'static str)
    ensures
        name@ == spec_output_name(function),
{
    match function {
        OutputFunction::Rumble => "rumble",
        OutputFunction::Haptics => "haptics",
        OutputFunction::Lighting => "lighting",
        OutputFunction::PlayerIndicators => "player-indicators",
        OutputFunction::TriggerEffect => "trigger-effect",
        OutputFunction::Audio => "audio",
    }
}

/// `category:semantic`, the key a capability is reported under.
pub open spec fn spec_capability_key(capability: CapabilityItem) -> Seq<char> {
    spec_category_name(capability.category) + ":"@ + match capability.semantic {
        SemanticRef::Input(input) => spec_input_name(input),
        SemanticRef::Output(output) => spec_output_name(output),
    }
}

pub fn capability_key(capability: CapabilityItem) -> (key: String)
    ensures
        key@ == spec_capability_key(capability),
{
    let mut key = String::from_str(category_name(capability.category));
    key.append(":");
    match capability.semantic {
        SemanticRef::Input(input) => key.append(input_name(input)),
        SemanticRef::Output(output) => key.append(output_name(output)),
    }
    key
}

// ---------------------------------------------------------------------
// The rules
// ---------------------------------------------------------------------

/// [`RegistryError`] with its text fields taken by their views.
pub ghost enum RegistryErrorView {
    MissingRequiredField { profile_id: Seq<char>, field: Seq<char> },
    DuplicateCapability { profile_id: Seq<char>, slice: Seq<char>, capability: Seq<char> },
    WrongSemanticKind { profile_id: Seq<char>, slice: Seq<char>, capability: Seq<char> },
    OutputCapabilityMissingReverseSupport { profile_id: Seq<char>, capability: Seq<char> },
    ReverseSupportMissingOutputCapability { profile_id: Seq<char>, capability: Seq<char> },
}

impl View for RegistryError {
    type V = RegistryErrorView;

    open spec fn view(&self) -> RegistryErrorView {
        match self {
            RegistryError::MissingRequiredField { profile_id, field } =>
                RegistryErrorView::MissingRequiredField { profile_id: profile_id@, field: field@ },
            RegistryError::DuplicateCapability { profile_id, slice, capability } =>
                RegistryErrorView::DuplicateCapability {
                profile_id: profile_id@,
                slice: slice@,
                capability: capability@,
            },
            RegistryError::WrongSemanticKind { profile_id, slice, capability } =>
                RegistryErrorView::WrongSemanticKind {
                profile_id: profile_id@,
                slice: slice@,
                capability: capability@,
            },
            RegistryError::OutputCapabilityMissingReverseSupport { profile_id, capability } =>
                RegistryErrorView::OutputCapabilityMissingReverseSupport {
                profile_id: profile_id@,
                capability: capability@,
            },
            RegistryError::ReverseSupportMissingOutputCapability { profile_id, capability } =>
                RegistryErrorView::ReverseSupportMissingOutputCapability {
                profile_id: profile_id@,
                capability: capability@,
            },
        }
    }
}

/// The first required field the profile lacks, in the registry's order.
pub open spec fn missing_required_field(profile: ControllerProfile) -> Option<Seq<char>> {
    if profile.profile_id@.len() == 0 {
        Some("profile_id"@)
    } else if profile.display_name@.len() == 0 {
        Some("display_name"@)
    } else if profile.supported_fidelity@.len() == 0 {
        Some("supported_fidelity"@)
    } else if profile.input_contract.required_fields@.len() == 0 {
        Some("input_contract.required_fields"@)
    } else if profile.capabilities.input@.len() == 0 {
        Some("capabilities.input"@)
    } else if profile.identity.vendor_id == 0 {
        Some("identity.vendor_id"@)
    } else if profile.identity.product_id == 0 {
        Some("identity.product_id"@)
    } else {
        None
    }
}

/// Capability `i` has the wrong semantic kind for its slice.
pub open spec fn wrong_kind(caps: Seq<CapabilityItem>, expect_input: bool, i: int) -> bool {
    if expect_input {
        caps[i].semantic is Output
    } else {
        caps[i].semantic is Input
    }
}

/// Capability `i` repeats the category and semantic of an earlier one.
pub open spec fn repeats_earlier(caps: Seq<CapabilityItem>, i: int) -> bool {
    exists|j: int|
        0 <= j < i && #[trigger] caps[j].category == caps[i].category && caps[j].semantic
            == caps[i].semantic
}

/// The first defective capability among the first `n`: one of the wrong
/// kind, or a repeat of an earlier one.
pub open spec fn first_slice_defect(caps: Seq<CapabilityItem>, expect_input: bool, n: nat) -> Option<
    int,
>
    decreases n,
{
    if n == 0 {
        None
    } else {
        match first_slice_defect(caps, expect_input, (n - 1) as nat) {
            Some(i) => Some(i),
            None => if wrong_kind(caps, expect_input, n - 1) || repeats_earlier(caps, n - 1) {
                Some(n - 1)
            } else {
                None
            },
        }
    }
}

/// The error a capability slice is refused with, if any.
pub open spec fn slice_error(
    profile_id: Seq<char>,
    slice: Seq<char>,
    caps: Seq<CapabilityItem>,
    expect_input: bool,
) -> Option<RegistryErrorView> {
    match first_slice_defect(caps, expect_input, caps.len()) {
        Some(i) => if wrong_kind(caps, expect_input, i) {
            Some(
                RegistryErrorView::WrongSemanticKind {
                    profile_id,
                    slice,
                    capability: spec_capability_key(caps[i]),
                },
            )
        } else {
            Some(
                RegistryErrorView::DuplicateCapability {
                    profile_id,
                    slice,
                    capability: spec_capability_key(caps[i]),
                },
            )
        },
        None => None,
    }
}

/// The first output capability (among the first `n`) whose function the
/// profile lists no reverse support for.
pub open spec fn first_unsupported_output(
    caps: Seq<CapabilityItem>,
    reverse: Seq<OutputFunction>,
    n: nat,
) -> Option<OutputFunction>
    decreases n,
{
    if n == 0 {
        None
    } else {
        match first_unsupported_output(caps, reverse, (n - 1) as nat) {
            Some(f) => Some(f),
            None => match caps[n - 1].semantic {
                SemanticRef::Output(f) => if reverse.contains(f) {
                    None
                } else {
                    Some(f)
                },
                SemanticRef::Input(_) => None,
            },
        }
    }
}

/// Some output capability declares `f`.
pub open spec fn declares_output(caps: Seq<CapabilityItem>, f: OutputFunction) -> bool {
    exists|k: int| 0 <= k < caps.len() && #[trigger] caps[k].semantic == SemanticRef::Output(f)
}

/// The first reverse-supported function (among the first `n`) that no
/// output capability declares.
pub open spec fn first_orphan_reverse(
    caps: Seq<CapabilityItem>,
    reverse: Seq<OutputFunction>,
    n: nat,
) -> Option<OutputFunction>
    decreases n,
{
    if n == 0 {
        None
    } else {
        match first_orphan_reverse(caps, reverse, (n - 1) as nat) {
            Some(f) => Some(f),
            None => if declares_output(caps, reverse[n - 1]) {
                None
            } else {
                Some(reverse[n - 1])
            },
        }
    }
}

/// The error the registry refuses a profile with, if any: required
/// fields, then the input slice, then the output slice, then reverse
/// support.
pub open spec fn spec_validate_profile(profile: ControllerProfile) -> Option<RegistryErrorView> {
    let id = profile.profile_id@;
    let inputs = profile.capabilities.input@;
    let outputs = profile.capabilities.output@;
    let reverse = profile.reverse_command_support.supported@;
    match missing_required_field(profile) {
        Some(field) => Some(RegistryErrorView::MissingRequiredField { profile_id: id, field }),
        None => match slice_error(id, "input"@, inputs, true) {
            Some(error) => Some(error),
            None => match slice_error(id, "output"@, outputs, false) {
                Some(error) => Some(error),
                None => match first_unsupported_output(outputs, reverse, outputs.len()) {
                    Some(f) => Some(
                        RegistryErrorView::OutputCapabilityMissingReverseSupport {
                            profile_id: id,
                            capability: spec_output_name(f),
                        },
                    ),
                    None => match first_orphan_reverse(outputs, reverse, reverse.len()) {
                        Some(f) => Some(
                            RegistryErrorView::ReverseSupportMissingOutputCapability {
                                profile_id: id,
                                capability: spec_output_name(f),
                            },
                        ),
                        None => None,
                    },
                },
            },
        },
    }
}

fn validate_required_fields(profile: &ControllerProfile) -> (result: Result<(), RegistryError>)
    ensures
        match missing_required_field(*profile) {
            Some(field) => result matches Err(e) && e@ == (RegistryErrorView::MissingRequiredField {
                profile_id: profile.profile_id@,
                field,
            }),
            None => result is Ok,
        },
{
    let field: &'static str = if profile.profile_id.as_str().unicode_len() == 0 {
        "profile_id"
    } else if profile.display_name.as_str().unicode_len() == 0 {
        "display_name"
    } else if profile.supported_fidelity.len() == 0 {
        "supported_fidelity"
    } else if profile.input_contract.required_fields.len() == 0 {
        "input_contract.required_fields"
    } else if profile.capabilities.input.len() == 0 {
        "capabilities.input"
    } else if profile.identity.vendor_id == 0 {
        "identity.vendor_id"
    } else if profile.identity.product_id == 0 {
        "identity.product_id"
    } else {
        return Ok(());
    };
    Err(RegistryError::MissingRequiredField { profile_id: profile.profile_id.clone(), field })
}

proof fn lemma_first_defect_extends(caps: Seq<CapabilityItem>, expect_input: bool, n: nat, m: nat)
    requires
        n <= m,
        first_slice_defect(caps, expect_input, n) is Some,
    ensures
        first_slice_defect(caps, expect_input, m) == first_slice_defect(caps, expect_input, n),
    decreases m - n,
{
    if n < m {
        lemma_first_defect_extends(caps, expect_input, n, (m - 1) as nat);
    }
}

fn validate_capability_slice(
    profile_id: &String,
    slice: &'static str,
    caps: &Vec<CapabilityItem>,
    expect_input: bool,
) -> (result: Result<(), RegistryError>)
    ensures
        match slice_error(profile_id@, slice@, caps@, expect_input) {
            Some(expected) => result matches Err(e) && e@ == expected,
            None => result is Ok,
        },
{
    let mut index: usize = 0;
    while index < caps.len()
        invariant
            0 <= index <= caps@.len(),
            first_slice_defect(caps@, expect_input, index as nat) is None,
        decreases caps@.len() - index,
    {
        let capability = caps[index];
        let semantic_ok = if expect_input {
            capability.semantic.is_input()
        } else {
            capability.semantic.is_output()
        };
        let mut duplicate = false;
        let mut earlier: usize = 0;
        while earlier < index
            invariant
                0 <= earlier <= index < caps@.len(),
                capability == caps@[index as int],
                duplicate <==> exists|j: int|
                    0 <= j < earlier && #[trigger] caps@[j].category == capability.category
                        && caps@[j].semantic == capability.semantic,
            decreases index - earlier,
        {
            if caps[earlier].category == capability.category && caps[earlier].semantic
                == capability.semantic {
                duplicate = true;
            }
            earlier = earlier + 1;
        }
        assert(duplicate == repeats_earlier(caps@, index as int));
        if !semantic_ok || duplicate {
            proof {
                assert(first_slice_defect(caps@, expect_input, (index + 1) as nat) == Some(
                    index as int,
                ));
                lemma_first_defect_extends(caps@, expect_input, (index + 1) as nat, caps@.len());
            }
            if !semantic_ok {
                return Err(
                    RegistryError::WrongSemanticKind {
                        profile_id: profile_id.clone(),
                        slice,
                        capability: capability_key(capability),
                    },
                );
            }
            return Err(
                RegistryError::DuplicateCapability {
                    profile_id: profile_id.clone(),
                    slice,
                    capability: capability_key(capability),
                },
            );
        }
        index = index + 1;
    }
    Ok(())
}

fn contains_function(functions: &Vec<OutputFunction>, f: OutputFunction) -> (found: bool)
    ensures
        found == functions@.contains(f),
{
    let mut index: usize = 0;
    while index < functions.len()
        invariant
            0 <= index <= functions@.len(),
            forall|k: int| 0 <= k < index ==> functions@[k] != f,
        decreases functions@.len() - index,
    {
        if functions[index] == f {
            assert(functions@[index as int] == f);
            return true;
        }
        index = index + 1;
    }
    false
}

fn declares(caps: &Vec<CapabilityItem>, f: OutputFunction) -> (found: bool)
    ensures
        found == declares_output(caps@, f),
{
    let mut index: usize = 0;
    while index < caps.len()
        invariant
            0 <= index <= caps@.len(),
            forall|k: int| 0 <= k < index ==> caps@[k].semantic != SemanticRef::Output(f),
        decreases caps@.len() - index,
    {
        if caps[index].semantic == SemanticRef::Output(f) {
            return true;
        }
        index = index + 1;
    }
    false
}

proof fn lemma_first_unsupported_extends(
    caps: Seq<CapabilityItem>,
    reverse: Seq<OutputFunction>,
    n: nat,
    m: nat,
)
    requires
        n <= m,
        first_unsupported_output(caps, reverse, n) is Some,
    ensures
        first_unsupported_output(caps, reverse, m) == first_unsupported_output(caps, reverse, n),
    decreases m - n,
{
    if n < m {
        lemma_first_unsupported_extends(caps, reverse, n, (m - 1) as nat);
    }
}

proof fn lemma_first_orphan_extends(caps: Seq<CapabilityItem>, reverse: Seq<OutputFunction>, n: nat, m: nat)
    requires
        n <= m,
        first_orphan_reverse(caps, reverse, n) is Some,
    ensures
        first_orphan_reverse(caps, reverse, m) == first_orphan_reverse(caps, reverse, n),
    decreases m - n,
{
    if n < m {
        lemma_first_orphan_extends(caps, reverse, n, (m - 1) as nat);
    }
}

fn validate_reverse_support(profile: &ControllerProfile) -> (result: Result<(), RegistryError>)
    ensures
        match first_unsupported_output(
            profile.capabilities.output@,
            profile.reverse_command_support.supported@,
            profile.capabilities.output@.len(),
        ) {
            Some(f) => result matches Err(e) && e@
                == (RegistryErrorView::OutputCapabilityMissingReverseSupport {
                profile_id: profile.profile_id@,
                capability: spec_output_name(f),
            }),
            None => match first_orphan_reverse(
                profile.capabilities.output@,
                profile.reverse_command_support.supported@,
                profile.reverse_command_support.supported@.len(),
            ) {
                Some(f) => result matches Err(e) && e@
                    == (RegistryErrorView::ReverseSupportMissingOutputCapability {
                    profile_id: profile.profile_id@,
                    capability: spec_output_name(f),
                }),
                None => result is Ok,
            },
        },
{
    let caps = &profile.capabilities.output;
    let reverse = &profile.reverse_command_support.supported;
    let mut index: usize = 0;
    while index < caps.len()
        invariant
            caps@ == profile.capabilities.output@,
            reverse@ == profile.reverse_command_support.supported@,
            0 <= index <= caps@.len(),
            first_unsupported_output(caps@, reverse@, index as nat) is None,
        decreases caps@.len() - index,
    {
        match caps[index].semantic {
            SemanticRef::Output(output) => {
                if !contains_function(reverse, output) {
                    proof {
                        assert(first_unsupported_output(caps@, reverse@, (index + 1) as nat) == Some(
                            output,
                        ));
                        lemma_first_unsupported_extends(
                            caps@,
                            reverse@,
                            (index + 1) as nat,
                            caps@.len(),
                        );
                    }
                    let capability = String::from_str(output_name(output));
                    let error = RegistryError::OutputCapabilityMissingReverseSupport {
                        profile_id: profile.profile_id.clone(),
                        capability,
                    };
                    return Err(error);
                }
            },
            SemanticRef::Input(_) => {},
        }
        assert(first_unsupported_output(caps@, reverse@, (index + 1) as nat) is None);
        index = index + 1;
    }
    let mut index: usize = 0;
    while index < reverse.len()
        invariant
            caps@ == profile.capabilities.output@,
            reverse@ == profile.reverse_command_support.supported@,
            first_unsupported_output(caps@, reverse@, caps@.len()) is None,
            0 <= index <= reverse@.len(),
            first_orphan_reverse(caps@, reverse@, index as nat) is None,
        decreases reverse@.len() - index,
    {
        let output = reverse[index];
        if !declares(caps, output) {
            proof {
                assert(first_orphan_reverse(caps@, reverse@, (index + 1) as nat) == Some(output));
                lemma_first_orphan_extends(caps@, reverse@, (index + 1) as nat, reverse@.len());
            }
            return Err(
                RegistryError::ReverseSupportMissingOutputCapability {
                    profile_id: profile.profile_id.clone(),
                    capability: String::from_str(output_name(output)),
                },
            );
        }
        assert(first_orphan_reverse(caps@, reverse@, (index + 1) as nat) is None);
        index = index + 1;
    }
    Ok(())
}

impl crate::profiles::CapabilityRegistry {
    /// Validate one profile's registry contract and consistency rules.
    pub fn validate_profile_contract(self, profile: &ControllerProfile) -> (result: Result<
        (),
        RegistryError,
    >)
        ensures
            match spec_validate_profile(*profile) {
                Some(expected) => result matches Err(e) && e@ == expected,
                None => result is Ok,
            },
    {
        validate_required_fields(profile)?;
        validate_capability_slice(&profile.profile_id, "input", &profile.capabilities.input, true)?;
        validate_capability_slice(
            &profile.profile_id,
            "output",
            &profile.capabilities.output,
            false,
        )?;
        validate_reverse_support(profile)?;
        Ok(())
    }
}

} // verus!
