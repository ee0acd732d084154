//! The four built-in controller profiles and the registry's lookups over
//! them.

use vstd::prelude::*;

use crate::profile_contract::{
    CapabilityCategory, CapabilityItem, ControllerCapabilities, ControllerProfile, ProfileIdentity,
    ReverseCommandSupport, SemanticInputFunction, SemanticRef,
};
use crate::profiles::{
    CapabilityRegistry, DeltaSupportRule, DescriptorBytes, DescriptorTemplate, InputFieldRange,
    InputFieldRef, Optionality, ProfileFamily, ProfileInputContract, TransportHint, ValueRange,
    builtin_profile_families, builtin_profile_ids, is_builtin_profile,
};
use crate::reverse_translation::OutputFunction;
use crate::runtime_model::FidelityTier;

verus! {

// ---------------------------------------------------------------------
// Generic gamepad
// ---------------------------------------------------------------------

/// The Generic gamepad profile's required input fields.
pub open spec fn generic_gamepad_required_fields() -> Seq<InputFieldRef> {
    seq![
        InputFieldRef("buttons.south"),
        InputFieldRef("buttons.east"),
        InputFieldRef("buttons.west"),
        InputFieldRef("buttons.north"),
        InputFieldRef("buttons.left_shoulder"),
        InputFieldRef("buttons.right_shoulder"),
        InputFieldRef("buttons.left_stick_button"),
        InputFieldRef("buttons.right_stick_button"),
        InputFieldRef("buttons.menu_primary"),
        InputFieldRef("buttons.menu_secondary"),
        InputFieldRef("buttons.guide"),
        InputFieldRef("dpad.up"),
        InputFieldRef("dpad.down"),
        InputFieldRef("dpad.left"),
        InputFieldRef("dpad.right"),
        InputFieldRef("sticks.left_x"),
        InputFieldRef("sticks.left_y"),
        InputFieldRef("sticks.right_x"),
        InputFieldRef("sticks.right_y"),
        InputFieldRef("triggers.left_trigger"),
        InputFieldRef("triggers.right_trigger"),
    ]
}

/// The ranges of the Generic gamepad profile's analog input fields.
pub open spec fn generic_gamepad_ranges() -> Seq<InputFieldRange> {
    seq![
        InputFieldRange { field: InputFieldRef("sticks.left_x"), range: ValueRange::I16 { min: -32768i16, max: 32767i16 } },
        InputFieldRange { field: InputFieldRef("sticks.left_y"), range: ValueRange::I16 { min: -32768i16, max: 32767i16 } },
        InputFieldRange { field: InputFieldRef("sticks.right_x"), range: ValueRange::I16 { min: -32768i16, max: 32767i16 } },
        InputFieldRange { field: InputFieldRef("sticks.right_y"), range: ValueRange::I16 { min: -32768i16, max: 32767i16 } },
        InputFieldRange { field: InputFieldRef("triggers.left_trigger"), range: ValueRange::U16 { min: 0u16, max: 65535u16 } },
        InputFieldRange { field: InputFieldRef("triggers.right_trigger"), range: ValueRange::U16 { min: 0u16, max: 65535u16 } },
    ]
}

/// The Generic gamepad profile's input capabilities.
pub open spec fn generic_gamepad_inputs() -> Seq<CapabilityItem> {
    seq![
        CapabilityItem { category: CapabilityCategory::Button, semantic: SemanticRef::Input(SemanticInputFunction::FaceBottom), optionality: Optionality::Required, range: None },
        CapabilityItem { category: CapabilityCategory::Button, semantic: SemanticRef::Input(SemanticInputFunction::FaceRight), optionality: Optionality::Required, range: None },
        CapabilityItem { category: CapabilityCategory::Button, semantic: SemanticRef::Input(SemanticInputFunction::FaceLeft), optionality: Optionality::Required, range: None },
        CapabilityItem { category: CapabilityCategory::Button, semantic: SemanticRef::Input(SemanticInputFunction::FaceTop), optionality: Optionality::Required, range: None },
        CapabilityItem { category: CapabilityCategory::Button, semantic: SemanticRef::Input(SemanticInputFunction::LeftShoulder), optionality: Optionality::Required, range: None },
        CapabilityItem { category: CapabilityCategory::Button, semantic: SemanticRef::Input(SemanticInputFunction::RightShoulder), optionality: Optionality::Required, range: None },
        CapabilityItem { category: CapabilityCategory::Button, semantic: SemanticRef::Input(SemanticInputFunction::LeftStickButton), optionality: Optionality::Required, range: None },
        CapabilityItem { category: CapabilityCategory::Button, semantic: SemanticRef::Input(SemanticInputFunction::RightStickButton), optionality: Optionality::Required, range: None },
        CapabilityItem { category: CapabilityCategory::System, semantic: SemanticRef::Input(SemanticInputFunction::MenuPrimary), optionality: Optionality::Required, range: None },
        CapabilityItem { category: CapabilityCategory::System, semantic: SemanticRef::Input(SemanticInputFunction::MenuSecondary), optionality: Optionality::Required, range: None },
        CapabilityItem { category: CapabilityCategory::System, semantic: SemanticRef::Input(SemanticInputFunction::Guide), optionality: Optionality::Required, range: None },
        CapabilityItem { category: CapabilityCategory::Button, semantic: SemanticRef::Input(SemanticInputFunction::Dpad), optionality: Optionality::Required, range: None },
        CapabilityItem { category: CapabilityCategory::Stick, semantic: SemanticRef::Input(SemanticInputFunction::LeftStick), optionality: Optionality::Required, range: Some(ValueRange::I16 { min: -32768i16, max: 32767i16 }) },
        CapabilityItem { category: CapabilityCategory::Stick, semantic: SemanticRef::Input(SemanticInputFunction::RightStick), optionality: Optionality::Required, range: Some(ValueRange::I16 { min: -32768i16, max: 32767i16 }) },
        CapabilityItem { category: CapabilityCategory::Trigger, semantic: SemanticRef::Input(SemanticInputFunction::LeftTrigger), optionality: Optionality::Required, range: Some(ValueRange::U16 { min: 0u16, max: 65535u16 }) },
        CapabilityItem { category: CapabilityCategory::Trigger, semantic: SemanticRef::Input(SemanticInputFunction::RightTrigger), optionality: Optionality::Required, range: Some(ValueRange::U16 { min: 0u16, max: 65535u16 }) },
    ]
}

fn generic_gamepad_required_field_list() -> (fields: Vec<InputFieldRef>)
    ensures
        fields@ == generic_gamepad_required_fields(),
{
    let fields = vec![
        InputFieldRef("buttons.south"),
        InputFieldRef("buttons.east"),
        InputFieldRef("buttons.west"),
        InputFieldRef("buttons.north"),
        InputFieldRef("buttons.left_shoulder"),
        InputFieldRef("buttons.right_shoulder"),
        InputFieldRef("buttons.left_stick_button"),
        InputFieldRef("buttons.right_stick_button"),
        InputFieldRef("buttons.menu_primary"),
        InputFieldRef("buttons.menu_secondary"),
        InputFieldRef("buttons.guide"),
        InputFieldRef("dpad.up"),
        InputFieldRef("dpad.down"),
        InputFieldRef("dpad.left"),
        InputFieldRef("dpad.right"),
        InputFieldRef("sticks.left_x"),
        InputFieldRef("sticks.left_y"),
        InputFieldRef("sticks.right_x"),
        InputFieldRef("sticks.right_y"),
        InputFieldRef("triggers.left_trigger"),
        InputFieldRef("triggers.right_trigger"),
    ];
    assert(fields@ =~= generic_gamepad_required_fields());
    fields
}

fn generic_gamepad_range_list() -> (ranges: Vec<InputFieldRange>)
    ensures
        ranges@ == generic_gamepad_ranges(),
{
    let ranges = vec![
        InputFieldRange { field: InputFieldRef("sticks.left_x"), range: ValueRange::I16 { min: -32768i16, max: 32767i16 } },
        InputFieldRange { field: InputFieldRef("sticks.left_y"), range: ValueRange::I16 { min: -32768i16, max: 32767i16 } },
        InputFieldRange { field: InputFieldRef("sticks.right_x"), range: ValueRange::I16 { min: -32768i16, max: 32767i16 } },
        InputFieldRange { field: InputFieldRef("sticks.right_y"), range: ValueRange::I16 { min: -32768i16, max: 32767i16 } },
        InputFieldRange { field: InputFieldRef("triggers.left_trigger"), range: ValueRange::U16 { min: 0u16, max: 65535u16 } },
        InputFieldRange { field: InputFieldRef("triggers.right_trigger"), range: ValueRange::U16 { min: 0u16, max: 65535u16 } },
    ];
    assert(ranges@ =~= generic_gamepad_ranges());
    ranges
}

fn generic_gamepad_input_list() -> (items: Vec<CapabilityItem>)
    ensures
        items@ == generic_gamepad_inputs(),
{
    let items = vec![
        CapabilityItem { category: CapabilityCategory::Button, semantic: SemanticRef::Input(SemanticInputFunction::FaceBottom), optionality: Optionality::Required, range: None },
        CapabilityItem { category: CapabilityCategory::Button, semantic: SemanticRef::Input(SemanticInputFunction::FaceRight), optionality: Optionality::Required, range: None },
        CapabilityItem { category: CapabilityCategory::Button, semantic: SemanticRef::Input(SemanticInputFunction::FaceLeft), optionality: Optionality::Required, range: None },
        CapabilityItem { category: CapabilityCategory::Button, semantic: SemanticRef::Input(SemanticInputFunction::FaceTop), optionality: Optionality::Required, range: None },
        CapabilityItem { category: CapabilityCategory::Button, semantic: SemanticRef::Input(SemanticInputFunction::LeftShoulder), optionality: Optionality::Required, range: None },
        CapabilityItem { category: CapabilityCategory::Button, semantic: SemanticRef::Input(SemanticInputFunction::RightShoulder), optionality: Optionality::Required, range: None },
        CapabilityItem { category: CapabilityCategory::Button, semantic: SemanticRef::Input(SemanticInputFunction::LeftStickButton), optionality: Optionality::Required, range: None },
        CapabilityItem { category: CapabilityCategory::Button, semantic: SemanticRef::Input(SemanticInputFunction::RightStickButton), optionality: Optionality::Required, range: None },
        CapabilityItem { category: CapabilityCategory::System, semantic: SemanticRef::Input(SemanticInputFunction::MenuPrimary), optionality: Optionality::Required, range: None },
        CapabilityItem { category: CapabilityCategory::System, semantic: SemanticRef::Input(SemanticInputFunction::MenuSecondary), optionality: Optionality::Required, range: None },
        CapabilityItem { category: CapabilityCategory::System, semantic: SemanticRef::Input(SemanticInputFunction::Guide), optionality: Optionality::Required, range: None },
        CapabilityItem { category: CapabilityCategory::Button, semantic: SemanticRef::Input(SemanticInputFunction::Dpad), optionality: Optionality::Required, range: None },
        CapabilityItem { category: CapabilityCategory::Stick, semantic: SemanticRef::Input(SemanticInputFunction::LeftStick), optionality: Optionality::Required, range: Some(ValueRange::I16 { min: -32768i16, max: 32767i16 }) },
        CapabilityItem { category: CapabilityCategory::Stick, semantic: SemanticRef::Input(SemanticInputFunction::RightStick), optionality: Optionality::Required, range: Some(ValueRange::I16 { min: -32768i16, max: 32767i16 }) },
        CapabilityItem { category: CapabilityCategory::Trigger, semantic: SemanticRef::Input(SemanticInputFunction::LeftTrigger), optionality: Optionality::Required, range: Some(ValueRange::U16 { min: 0u16, max: 65535u16 }) },
        CapabilityItem { category: CapabilityCategory::Trigger, semantic: SemanticRef::Input(SemanticInputFunction::RightTrigger), optionality: Optionality::Required, range: Some(ValueRange::U16 { min: 0u16, max: 65535u16 }) },
    ];
    assert(items@ =~= generic_gamepad_inputs());
    items
}

/// What the built-in Generic gamepad profile holds.
pub open spec fn generic_gamepad_matches(profile: ControllerProfile) -> bool {
    &&& profile.profile_id@ == "generic-gamepad"@
    &&& profile.display_name@ == "Generic gamepad"@
    &&& profile.profile_family == ProfileFamily::GenericGamepad
    &&& profile.identity.vendor_id == 1
    &&& profile.identity.product_id == 1
    &&& profile.identity.version == None::<u16>
    &&& profile.identity.transport_hints@ == Seq::<TransportHint>::empty()
    &&& profile.capabilities.input@ == generic_gamepad_inputs()
    &&& profile.capabilities.output@ == Seq::<CapabilityItem>::empty()
    &&& profile.supported_fidelity@ == seq![FidelityTier::Compatibility]
    &&& profile.input_contract.required_fields@ == generic_gamepad_required_fields()
    &&& profile.input_contract.optional_fields@ == Seq::<InputFieldRef>::empty()
    &&& profile.input_contract.ranges@ == generic_gamepad_ranges()
    &&& profile.input_contract.delta_support == DeltaSupportRule::SparsePartial
    &&& profile.descriptor_templates@.len() == 1
    &&& profile.descriptor_templates@[0].fidelity == FidelityTier::Compatibility
    &&& profile.descriptor_templates@[0].descriptor.0@ == Seq::<u8>::empty()
    &&& profile.reverse_command_support.supported@ == Seq::<OutputFunction>::empty()
}

/// The built-in Generic gamepad profile: compatibility tier only, no outputs.
pub fn generic_gamepad_profile() -> (profile: ControllerProfile)
    ensures
        generic_gamepad_matches(profile),
{
    let mut descriptor_templates: Vec<DescriptorTemplate> = Vec::new();
    descriptor_templates.push(
        DescriptorTemplate { fidelity: FidelityTier::Compatibility, descriptor: DescriptorBytes(Vec::new()) },
    );
    let transport_hints: Vec<TransportHint> = vec![];
    assert(transport_hints@ =~= Seq::<TransportHint>::empty());
    let supported_fidelity: Vec<FidelityTier> = vec![FidelityTier::Compatibility];
    assert(supported_fidelity@ =~= seq![FidelityTier::Compatibility]);
    ControllerProfile {
        profile_id: String::from_str("generic-gamepad"),
        display_name: String::from_str("Generic gamepad"),
        profile_family: ProfileFamily::GenericGamepad,
        identity: ProfileIdentity {
            vendor_id: 1,
            product_id: 1,
            version: None,
            transport_hints,
        },
        capabilities: ControllerCapabilities {
            input: generic_gamepad_input_list(),
            output: Vec::new(),
        },
        supported_fidelity,
        input_contract: ProfileInputContract {
            required_fields: generic_gamepad_required_field_list(),
            optional_fields: Vec::new(),
            ranges: generic_gamepad_range_list(),
            delta_support: DeltaSupportRule::SparsePartial,
        },
        descriptor_templates,
        reverse_command_support: ReverseCommandSupport {
            supported: Vec::new(),
        },
    }
}

// ---------------------------------------------------------------------
// Xbox 360
// ---------------------------------------------------------------------

/// The Xbox 360 profile's required input fields.
pub open spec fn xbox360_required_fields() -> Seq<InputFieldRef> {
    seq![
        InputFieldRef("buttons.face.a"),
        InputFieldRef("buttons.face.b"),
        InputFieldRef("buttons.face.x"),
        InputFieldRef("buttons.face.y"),
        InputFieldRef("buttons.shoulders.lb"),
        InputFieldRef("buttons.shoulders.rb"),
        InputFieldRef("buttons.stick_clicks.ls"),
        InputFieldRef("buttons.stick_clicks.rs"),
        InputFieldRef("buttons.system.start"),
        InputFieldRef("buttons.system.back"),
        InputFieldRef("buttons.system.guide"),
        InputFieldRef("dpad.up"),
        InputFieldRef("dpad.down"),
        InputFieldRef("dpad.left"),
        InputFieldRef("dpad.right"),
        InputFieldRef("sticks.left_x"),
        InputFieldRef("sticks.left_y"),
        InputFieldRef("sticks.right_x"),
        InputFieldRef("sticks.right_y"),
        InputFieldRef("triggers.lt"),
        InputFieldRef("triggers.rt"),
    ]
}

/// The ranges of the Xbox 360 profile's analog input fields.
pub open spec fn xbox360_ranges() -> Seq<InputFieldRange> {
    seq![
        InputFieldRange { field: InputFieldRef("sticks.left_x"), range: ValueRange::I16 { min: -32768i16, max: 32767i16 } },
        InputFieldRange { field: InputFieldRef("sticks.left_y"), range: ValueRange::I16 { min: -32768i16, max: 32767i16 } },
        InputFieldRange { field: InputFieldRef("sticks.right_x"), range: ValueRange::I16 { min: -32768i16, max: 32767i16 } },
        InputFieldRange { field: InputFieldRef("sticks.right_y"), range: ValueRange::I16 { min: -32768i16, max: 32767i16 } },
        InputFieldRange { field: InputFieldRef("triggers.lt"), range: ValueRange::U16 { min: 0u16, max: 65535u16 } },
        InputFieldRange { field: InputFieldRef("triggers.rt"), range: ValueRange::U16 { min: 0u16, max: 65535u16 } },
    ]
}

/// The Xbox 360 profile's input capabilities.
pub open spec fn xbox360_inputs() -> Seq<CapabilityItem> {
    seq![
        CapabilityItem { category: CapabilityCategory::Button, semantic: SemanticRef::Input(SemanticInputFunction::FaceBottom), optionality: Optionality::Required, range: None },
        CapabilityItem { category: CapabilityCategory::Button, semantic: SemanticRef::Input(SemanticInputFunction::FaceRight), optionality: Optionality::Required, range: None },
        CapabilityItem { category: CapabilityCategory::Button, semantic: SemanticRef::Input(SemanticInputFunction::FaceLeft), optionality: Optionality::Required, range: None },
        CapabilityItem { category: CapabilityCategory::Button, semantic: SemanticRef::Input(SemanticInputFunction::FaceTop), optionality: Optionality::Required, range: None },
        CapabilityItem { category: CapabilityCategory::Button, semantic: SemanticRef::Input(SemanticInputFunction::LeftShoulder), optionality: Optionality::Required, range: None },
        CapabilityItem { category: CapabilityCategory::Button, semantic: SemanticRef::Input(SemanticInputFunction::RightShoulder), optionality: Optionality::Required, range: None },
        CapabilityItem { category: CapabilityCategory::Button, semantic: SemanticRef::Input(SemanticInputFunction::LeftStickButton), optionality: Optionality::Required, range: None },
        CapabilityItem { category: CapabilityCategory::Button, semantic: SemanticRef::Input(SemanticInputFunction::RightStickButton), optionality: Optionality::Required, range: None },
        CapabilityItem { category: CapabilityCategory::System, semantic: SemanticRef::Input(SemanticInputFunction::MenuPrimary), optionality: Optionality::Required, range: None },
        CapabilityItem { category: CapabilityCategory::System, semantic: SemanticRef::Input(SemanticInputFunction::MenuSecondary), optionality: Optionality::Required, range: None },
        CapabilityItem { category: CapabilityCategory::System, semantic: SemanticRef::Input(SemanticInputFunction::Guide), optionality: Optionality::Required, range: None },
        CapabilityItem { category: CapabilityCategory::Button, semantic: SemanticRef::Input(SemanticInputFunction::Dpad), optionality: Optionality::Required, range: None },
        CapabilityItem { category: CapabilityCategory::Stick, semantic: SemanticRef::Input(SemanticInputFunction::LeftStick), optionality: Optionality::Required, range: Some(ValueRange::I16 { min: -32768i16, max: 32767i16 }) },
        CapabilityItem { category: CapabilityCategory::Stick, semantic: SemanticRef::Input(SemanticInputFunction::RightStick), optionality: Optionality::Required, range: Some(ValueRange::I16 { min: -32768i16, max: 32767i16 }) },
        CapabilityItem { category: CapabilityCategory::Trigger, semantic: SemanticRef::Input(SemanticInputFunction::LeftTrigger), optionality: Optionality::Required, range: Some(ValueRange::U16 { min: 0u16, max: 65535u16 }) },
        CapabilityItem { category: CapabilityCategory::Trigger, semantic: SemanticRef::Input(SemanticInputFunction::RightTrigger), optionality: Optionality::Required, range: Some(ValueRange::U16 { min: 0u16, max: 65535u16 }) },
    ]
}

/// The Xbox 360 profile's output capabilities.
pub open spec fn xbox360_outputs() -> Seq<CapabilityItem> {
    seq![
        CapabilityItem { category: CapabilityCategory::Haptic, semantic: SemanticRef::Output(OutputFunction::Rumble), optionality: Optionality::Required, range: None },
        CapabilityItem { category: CapabilityCategory::Lighting, semantic: SemanticRef::Output(OutputFunction::Lighting), optionality: Optionality::Required, range: None },
        CapabilityItem { category: CapabilityCategory::Lighting, semantic: SemanticRef::Output(OutputFunction::PlayerIndicators), optionality: Optionality::Required, range: None },
    ]
}

/// The outputs the Xbox 360 profile can be driven through.
pub open spec fn xbox360_reverse_support() -> Seq<OutputFunction> {
    seq![OutputFunction::Rumble, OutputFunction::Lighting, OutputFunction::PlayerIndicators]
}

/// The Xbox 360 HID report descriptor.
pub open spec fn xbox360_descriptor() -> Seq<u8> {
    seq![
        0x05, 0x01, 0x09, 0x05, 0xa1, 0x01, 0x05, 0x01, 0x09, 0x3a, 0xa1, 0x02,
        0x75, 0x08, 0x95, 0x02, 0x05, 0x01, 0x09, 0x3f, 0x09, 0x3b, 0x81, 0x01,
        0x75, 0x01, 0x15, 0x00, 0x25, 0x01, 0x35, 0x00, 0x45, 0x01, 0x95, 0x04,
        0x05, 0x09, 0x19, 0x0c, 0x29, 0x0f, 0x81, 0x02, 0x75, 0x01, 0x15, 0x00,
        0x25, 0x01, 0x35, 0x00, 0x45, 0x01, 0x95, 0x04, 0x05, 0x09, 0x09, 0x09,
        0x09, 0x0a, 0x09, 0x07, 0x09, 0x08, 0x81, 0x02, 0x75, 0x01, 0x15, 0x00,
        0x25, 0x01, 0x35, 0x00, 0x45, 0x01, 0x95, 0x03, 0x05, 0x09, 0x09, 0x05,
        0x09, 0x06, 0x09, 0x0b, 0x81, 0x02, 0x75, 0x01, 0x95, 0x01, 0x81, 0x01,
        0x75, 0x01, 0x15, 0x00, 0x25, 0x01, 0x35, 0x00, 0x45, 0x01, 0x95, 0x04,
        0x05, 0x09, 0x19, 0x01, 0x29, 0x04, 0x81, 0x02, 0x75, 0x08, 0x15, 0x00,
        0x26, 0xff, 0x00, 0x35, 0x00, 0x46, 0xff, 0x00, 0x95, 0x02, 0x05, 0x01,
        0x09, 0x32, 0x09, 0x35, 0x81, 0x02, 0x75, 0x10, 0x16, 0x00, 0x80, 0x26,
        0xff, 0x7f, 0x36, 0x00, 0x80, 0x46, 0xff, 0x7f, 0x05, 0x01, 0x09, 0x01,
        0xa1, 0x00, 0x95, 0x02, 0x05, 0x01, 0x09, 0x30, 0x09, 0x31, 0x81, 0x02,
        0xc0, 0x05, 0x01, 0x09, 0x01, 0xa1, 0x00, 0x95, 0x02, 0x05, 0x01, 0x09,
        0x33, 0x09, 0x34, 0x81, 0x02, 0xc0, 0xc0, 0xc0,
    ]
}

fn xbox360_required_field_list() -> (fields: Vec<InputFieldRef>)
    ensures
        fields@ == xbox360_required_fields(),
{
    let fields = vec![
        InputFieldRef("buttons.face.a"),
        InputFieldRef("buttons.face.b"),
        InputFieldRef("buttons.face.x"),
        InputFieldRef("buttons.face.y"),
        InputFieldRef("buttons.shoulders.lb"),
        InputFieldRef("buttons.shoulders.rb"),
        InputFieldRef("buttons.stick_clicks.ls"),
        InputFieldRef("buttons.stick_clicks.rs"),
        InputFieldRef("buttons.system.start"),
        InputFieldRef("buttons.system.back"),
        InputFieldRef("buttons.system.guide"),
        InputFieldRef("dpad.up"),
        InputFieldRef("dpad.down"),
        InputFieldRef("dpad.left"),
        InputFieldRef("dpad.right"),
        InputFieldRef("sticks.left_x"),
        InputFieldRef("sticks.left_y"),
        InputFieldRef("sticks.right_x"),
        InputFieldRef("sticks.right_y"),
        InputFieldRef("triggers.lt"),
        InputFieldRef("triggers.rt"),
    ];
    assert(fields@ =~= xbox360_required_fields());
    fields
}

fn xbox360_range_list() -> (ranges: Vec<InputFieldRange>)
    ensures
        ranges@ == xbox360_ranges(),
{
    let ranges = vec![
        InputFieldRange { field: InputFieldRef("sticks.left_x"), range: ValueRange::I16 { min: -32768i16, max: 32767i16 } },
        InputFieldRange { field: InputFieldRef("sticks.left_y"), range: ValueRange::I16 { min: -32768i16, max: 32767i16 } },
        InputFieldRange { field: InputFieldRef("sticks.right_x"), range: ValueRange::I16 { min: -32768i16, max: 32767i16 } },
        InputFieldRange { field: InputFieldRef("sticks.right_y"), range: ValueRange::I16 { min: -32768i16, max: 32767i16 } },
        InputFieldRange { field: InputFieldRef("triggers.lt"), range: ValueRange::U16 { min: 0u16, max: 65535u16 } },
        InputFieldRange { field: InputFieldRef("triggers.rt"), range: ValueRange::U16 { min: 0u16, max: 65535u16 } },
    ];
    assert(ranges@ =~= xbox360_ranges());
    ranges
}

fn xbox360_input_list() -> (items: Vec<CapabilityItem>)
    ensures
        items@ == xbox360_inputs(),
{
    let items = vec![
        CapabilityItem { category: CapabilityCategory::Button, semantic: SemanticRef::Input(SemanticInputFunction::FaceBottom), optionality: Optionality::Required, range: None },
        CapabilityItem { category: CapabilityCategory::Button, semantic: SemanticRef::Input(SemanticInputFunction::FaceRight), optionality: Optionality::Required, range: None },
        CapabilityItem { category: CapabilityCategory::Button, semantic: SemanticRef::Input(SemanticInputFunction::FaceLeft), optionality: Optionality::Required, range: None },
        CapabilityItem { category: CapabilityCategory::Button, semantic: SemanticRef::Input(SemanticInputFunction::FaceTop), optionality: Optionality::Required, range: None },
        CapabilityItem { category: CapabilityCategory::Button, semantic: SemanticRef::Input(SemanticInputFunction::LeftShoulder), optionality: Optionality::Required, range: None },
        CapabilityItem { category: CapabilityCategory::Button, semantic: SemanticRef::Input(SemanticInputFunction::RightShoulder), optionality: Optionality::Required, range: None },
        CapabilityItem { category: CapabilityCategory::Button, semantic: SemanticRef::Input(SemanticInputFunction::LeftStickButton), optionality: Optionality::Required, range: None },
        CapabilityItem { category: CapabilityCategory::Button, semantic: SemanticRef::Input(SemanticInputFunction::RightStickButton), optionality: Optionality::Required, range: None },
        CapabilityItem { category: CapabilityCategory::System, semantic: SemanticRef::Input(SemanticInputFunction::MenuPrimary), optionality: Optionality::Required, range: None },
        CapabilityItem { category: CapabilityCategory::System, semantic: SemanticRef::Input(SemanticInputFunction::MenuSecondary), optionality: Optionality::Required, range: None },
        CapabilityItem { category: CapabilityCategory::System, semantic: SemanticRef::Input(SemanticInputFunction::Guide), optionality: Optionality::Required, range: None },
        CapabilityItem { category: CapabilityCategory::Button, semantic: SemanticRef::Input(SemanticInputFunction::Dpad), optionality: Optionality::Required, range: None },
        CapabilityItem { category: CapabilityCategory::Stick, semantic: SemanticRef::Input(SemanticInputFunction::LeftStick), optionality: Optionality::Required, range: Some(ValueRange::I16 { min: -32768i16, max: 32767i16 }) },
        CapabilityItem { category: CapabilityCategory::Stick, semantic: SemanticRef::Input(SemanticInputFunction::RightStick), optionality: Optionality::Required, range: Some(ValueRange::I16 { min: -32768i16, max: 32767i16 }) },
        CapabilityItem { category: CapabilityCategory::Trigger, semantic: SemanticRef::Input(SemanticInputFunction::LeftTrigger), optionality: Optionality::Required, range: Some(ValueRange::U16 { min: 0u16, max: 65535u16 }) },
        CapabilityItem { category: CapabilityCategory::Trigger, semantic: SemanticRef::Input(SemanticInputFunction::RightTrigger), optionality: Optionality::Required, range: Some(ValueRange::U16 { min: 0u16, max: 65535u16 }) },
    ];
    assert(items@ =~= xbox360_inputs());
    items
}

fn xbox360_output_list() -> (items: Vec<CapabilityItem>)
    ensures
        items@ == xbox360_outputs(),
{
    let items = vec![
        CapabilityItem { category: CapabilityCategory::Haptic, semantic: SemanticRef::Output(OutputFunction::Rumble), optionality: Optionality::Required, range: None },
        CapabilityItem { category: CapabilityCategory::Lighting, semantic: SemanticRef::Output(OutputFunction::Lighting), optionality: Optionality::Required, range: None },
        CapabilityItem { category: CapabilityCategory::Lighting, semantic: SemanticRef::Output(OutputFunction::PlayerIndicators), optionality: Optionality::Required, range: None },
    ];
    assert(items@ =~= xbox360_outputs());
    items
}

fn xbox360_reverse_list() -> (functions: Vec<OutputFunction>)
    ensures
        functions@ == xbox360_reverse_support(),
{
    let functions = vec![OutputFunction::Rumble, OutputFunction::Lighting, OutputFunction::PlayerIndicators];
    assert(functions@ =~= xbox360_reverse_support());
    functions
}

fn xbox360_descriptor_bytes() -> (bytes: Vec<u8>)
    ensures
        bytes@ == xbox360_descriptor(),
{
    let bytes: Vec<u8> = vec![
        0x05, 0x01, 0x09, 0x05, 0xa1, 0x01, 0x05, 0x01, 0x09, 0x3a, 0xa1, 0x02,
        0x75, 0x08, 0x95, 0x02, 0x05, 0x01, 0x09, 0x3f, 0x09, 0x3b, 0x81, 0x01,
        0x75, 0x01, 0x15, 0x00, 0x25, 0x01, 0x35, 0x00, 0x45, 0x01, 0x95, 0x04,
        0x05, 0x09, 0x19, 0x0c, 0x29, 0x0f, 0x81, 0x02, 0x75, 0x01, 0x15, 0x00,
        0x25, 0x01, 0x35, 0x00, 0x45, 0x01, 0x95, 0x04, 0x05, 0x09, 0x09, 0x09,
        0x09, 0x0a, 0x09, 0x07, 0x09, 0x08, 0x81, 0x02, 0x75, 0x01, 0x15, 0x00,
        0x25, 0x01, 0x35, 0x00, 0x45, 0x01, 0x95, 0x03, 0x05, 0x09, 0x09, 0x05,
        0x09, 0x06, 0x09, 0x0b, 0x81, 0x02, 0x75, 0x01, 0x95, 0x01, 0x81, 0x01,
        0x75, 0x01, 0x15, 0x00, 0x25, 0x01, 0x35, 0x00, 0x45, 0x01, 0x95, 0x04,
        0x05, 0x09, 0x19, 0x01, 0x29, 0x04, 0x81, 0x02, 0x75, 0x08, 0x15, 0x00,
        0x26, 0xff, 0x00, 0x35, 0x00, 0x46, 0xff, 0x00, 0x95, 0x02, 0x05, 0x01,
        0x09, 0x32, 0x09, 0x35, 0x81, 0x02, 0x75, 0x10, 0x16, 0x00, 0x80, 0x26,
        0xff, 0x7f, 0x36, 0x00, 0x80, 0x46, 0xff, 0x7f, 0x05, 0x01, 0x09, 0x01,
        0xa1, 0x00, 0x95, 0x02, 0x05, 0x01, 0x09, 0x30, 0x09, 0x31, 0x81, 0x02,
        0xc0, 0x05, 0x01, 0x09, 0x01, 0xa1, 0x00, 0x95, 0x02, 0x05, 0x01, 0x09,
        0x33, 0x09, 0x34, 0x81, 0x02, 0xc0, 0xc0, 0xc0,
    ];
    assert(bytes@ =~= xbox360_descriptor());
    bytes
}

/// What the built-in Xbox 360 profile holds.
pub open spec fn xbox360_matches(profile: ControllerProfile) -> bool {
    &&& profile.profile_id@ == "xbox360"@
    &&& profile.display_name@ == "Xbox 360"@
    &&& profile.profile_family == ProfileFamily::Xbox360
    &&& profile.identity.vendor_id == 0x045e
    &&& profile.identity.product_id == 0x028e
    &&& profile.identity.version == None::<u16>
    &&& profile.identity.transport_hints@ == seq![TransportHint::Usb]
    &&& profile.capabilities.input@ == xbox360_inputs()
    &&& profile.capabilities.output@ == xbox360_outputs()
    &&& profile.supported_fidelity@ == seq![FidelityTier::Compatibility, FidelityTier::IdentityAware, FidelityTier::HardwareFaithful]
    &&& profile.input_contract.required_fields@ == xbox360_required_fields()
    &&& profile.input_contract.optional_fields@ == Seq::<InputFieldRef>::empty()
    &&& profile.input_contract.ranges@ == xbox360_ranges()
    &&& profile.input_contract.delta_support == DeltaSupportRule::SparsePartial
    &&& profile.descriptor_templates@.len() == 3
    &&& forall|i: int|
        0 <= i < 3 ==> (#[trigger] profile.descriptor_templates@[i]).fidelity == seq![FidelityTier::Compatibility, FidelityTier::IdentityAware, FidelityTier::HardwareFaithful][i]
            && profile.descriptor_templates@[i].descriptor.0@ == xbox360_descriptor()
    &&& profile.reverse_command_support.supported@ == xbox360_reverse_support()
}

/// The built-in Xbox 360 profile: every fidelity tier, USB only, rumble, lighting and player indicators.
pub fn xbox360_profile() -> (profile: ControllerProfile)
    ensures
        xbox360_matches(profile),
{
    let mut descriptor_templates: Vec<DescriptorTemplate> = Vec::new();
    descriptor_templates.push(
        DescriptorTemplate { fidelity: FidelityTier::Compatibility, descriptor: DescriptorBytes(xbox360_descriptor_bytes()) },
    );
    descriptor_templates.push(
        DescriptorTemplate { fidelity: FidelityTier::IdentityAware, descriptor: DescriptorBytes(xbox360_descriptor_bytes()) },
    );
    descriptor_templates.push(
        DescriptorTemplate { fidelity: FidelityTier::HardwareFaithful, descriptor: DescriptorBytes(xbox360_descriptor_bytes()) },
    );
    let transport_hints: Vec<TransportHint> = vec![TransportHint::Usb];
    assert(transport_hints@ =~= seq![TransportHint::Usb]);
    let supported_fidelity: Vec<FidelityTier> = vec![FidelityTier::Compatibility, FidelityTier::IdentityAware, FidelityTier::HardwareFaithful];
    assert(supported_fidelity@ =~= seq![FidelityTier::Compatibility, FidelityTier::IdentityAware, FidelityTier::HardwareFaithful]);
    ControllerProfile {
        profile_id: String::from_str("xbox360"),
        display_name: String::from_str("Xbox 360"),
        profile_family: ProfileFamily::Xbox360,
        identity: ProfileIdentity {
            vendor_id: 0x045e,
            product_id: 0x028e,
            version: None,
            transport_hints,
        },
        capabilities: ControllerCapabilities {
            input: xbox360_input_list(),
            output: xbox360_output_list(),
        },
        supported_fidelity,
        input_contract: ProfileInputContract {
            required_fields: xbox360_required_field_list(),
            optional_fields: Vec::new(),
            ranges: xbox360_range_list(),
            delta_support: DeltaSupportRule::SparsePartial,
        },
        descriptor_templates,
        reverse_command_support: ReverseCommandSupport {
            supported: xbox360_reverse_list(),
        },
    }
}

// ---------------------------------------------------------------------
// DualSense
// ---------------------------------------------------------------------

/// The DualSense profile's required input fields.
pub open spec fn dualsense_required_fields() -> Seq<InputFieldRef> {
    seq![
        InputFieldRef("buttons.face.cross"),
        InputFieldRef("buttons.face.circle"),
        InputFieldRef("buttons.face.square"),
        InputFieldRef("buttons.face.triangle"),
        InputFieldRef("buttons.shoulders.l1"),
        InputFieldRef("buttons.shoulders.r1"),
        InputFieldRef("buttons.stick_clicks.l3"),
        InputFieldRef("buttons.stick_clicks.r3"),
        InputFieldRef("buttons.system.create"),
        InputFieldRef("buttons.system.options"),
        InputFieldRef("buttons.system.ps"),
        InputFieldRef("buttons.system.touchpad_click"),
        InputFieldRef("dpad.up"),
        InputFieldRef("dpad.down"),
        InputFieldRef("dpad.left"),
        InputFieldRef("dpad.right"),
        InputFieldRef("sticks.left_x"),
        InputFieldRef("sticks.left_y"),
        InputFieldRef("sticks.right_x"),
        InputFieldRef("sticks.right_y"),
        InputFieldRef("triggers.l2"),
        InputFieldRef("triggers.r2"),
        InputFieldRef("touchpad.contact_1.active"),
        InputFieldRef("touchpad.contact_1.x"),
        InputFieldRef("touchpad.contact_1.y"),
        InputFieldRef("touchpad.contact_2.active"),
        InputFieldRef("touchpad.contact_2.x"),
        InputFieldRef("touchpad.contact_2.y"),
    ]
}

/// The ranges of the DualSense profile's analog input fields.
pub open spec fn dualsense_ranges() -> Seq<InputFieldRange> {
    seq![
        InputFieldRange { field: InputFieldRef("sticks.left_x"), range: ValueRange::I16 { min: -32768i16, max: 32767i16 } },
        InputFieldRange { field: InputFieldRef("sticks.left_y"), range: ValueRange::I16 { min: -32768i16, max: 32767i16 } },
        InputFieldRange { field: InputFieldRef("sticks.right_x"), range: ValueRange::I16 { min: -32768i16, max: 32767i16 } },
        InputFieldRange { field: InputFieldRef("sticks.right_y"), range: ValueRange::I16 { min: -32768i16, max: 32767i16 } },
        InputFieldRange { field: InputFieldRef("triggers.l2"), range: ValueRange::U16 { min: 0u16, max: 65535u16 } },
        InputFieldRange { field: InputFieldRef("triggers.r2"), range: ValueRange::U16 { min: 0u16, max: 65535u16 } },
        InputFieldRange { field: InputFieldRef("touchpad.contact_1.x"), range: ValueRange::U16 { min: 0u16, max: 1920u16 } },
        InputFieldRange { field: InputFieldRef("touchpad.contact_1.y"), range: ValueRange::U16 { min: 0u16, max: 1080u16 } },
        InputFieldRange { field: InputFieldRef("touchpad.contact_2.x"), range: ValueRange::U16 { min: 0u16, max: 1920u16 } },
        InputFieldRange { field: InputFieldRef("touchpad.contact_2.y"), range: ValueRange::U16 { min: 0u16, max: 1080u16 } },
    ]
}

/// The DualSense profile's input capabilities.
pub open spec fn dualsense_inputs() -> Seq<CapabilityItem> {
    seq![
        CapabilityItem { category: CapabilityCategory::Button, semantic: SemanticRef::Input(SemanticInputFunction::FaceBottom), optionality: Optionality::Required, range: None },
        CapabilityItem { category: CapabilityCategory::Button, semantic: SemanticRef::Input(SemanticInputFunction::FaceRight), optionality: Optionality::Required, range: None },
        CapabilityItem { category: CapabilityCategory::Button, semantic: SemanticRef::Input(SemanticInputFunction::FaceLeft), optionality: Optionality::Required, range: None },
        CapabilityItem { category: CapabilityCategory::Button, semantic: SemanticRef::Input(SemanticInputFunction::FaceTop), optionality: Optionality::Required, range: None },
        CapabilityItem { category: CapabilityCategory::Button, semantic: SemanticRef::Input(SemanticInputFunction::LeftShoulder), optionality: Optionality::Required, range: None },
        CapabilityItem { category: CapabilityCategory::Button, semantic: SemanticRef::Input(SemanticInputFunction::RightShoulder), optionality: Optionality::Required, range: None },
        CapabilityItem { category: CapabilityCategory::Button, semantic: SemanticRef::Input(SemanticInputFunction::LeftStickButton), optionality: Optionality::Required, range: None },
        CapabilityItem { category: CapabilityCategory::Button, semantic: SemanticRef::Input(SemanticInputFunction::RightStickButton), optionality: Optionality::Required, range: None },
        CapabilityItem { category: CapabilityCategory::System, semantic: SemanticRef::Input(SemanticInputFunction::MenuPrimary), optionality: Optionality::Required, range: None },
        CapabilityItem { category: CapabilityCategory::System, semantic: SemanticRef::Input(SemanticInputFunction::MenuSecondary), optionality: Optionality::Required, range: None },
        CapabilityItem { category: CapabilityCategory::System, semantic: SemanticRef::Input(SemanticInputFunction::Guide), optionality: Optionality::Required, range: None },
        CapabilityItem { category: CapabilityCategory::Button, semantic: SemanticRef::Input(SemanticInputFunction::TouchClick), optionality: Optionality::Required, range: None },
        CapabilityItem { category: CapabilityCategory::Button, semantic: SemanticRef::Input(SemanticInputFunction::Dpad), optionality: Optionality::Required, range: None },
        CapabilityItem { category: CapabilityCategory::Stick, semantic: SemanticRef::Input(SemanticInputFunction::LeftStick), optionality: Optionality::Required, range: Some(ValueRange::I16 { min: -32768i16, max: 32767i16 }) },
        CapabilityItem { category: CapabilityCategory::Stick, semantic: SemanticRef::Input(SemanticInputFunction::RightStick), optionality: Optionality::Required, range: Some(ValueRange::I16 { min: -32768i16, max: 32767i16 }) },
        CapabilityItem { category: CapabilityCategory::Trigger, semantic: SemanticRef::Input(SemanticInputFunction::LeftTrigger), optionality: Optionality::Required, range: Some(ValueRange::U16 { min: 0u16, max: 65535u16 }) },
        CapabilityItem { category: CapabilityCategory::Trigger, semantic: SemanticRef::Input(SemanticInputFunction::RightTrigger), optionality: Optionality::Required, range: Some(ValueRange::U16 { min: 0u16, max: 65535u16 }) },
        CapabilityItem { category: CapabilityCategory::TouchSurface, semantic: SemanticRef::Input(SemanticInputFunction::TouchSurface), optionality: Optionality::Required, range: None },
        CapabilityItem { category: CapabilityCategory::MotionSensor, semantic: SemanticRef::Input(SemanticInputFunction::Accelerometer), optionality: Optionality::Optional, range: None },
        CapabilityItem { category: CapabilityCategory::MotionSensor, semantic: SemanticRef::Input(SemanticInputFunction::Gyroscope), optionality: Optionality::Optional, range: None },
    ]
}

/// The DualSense profile's output capabilities.
pub open spec fn dualsense_outputs() -> Seq<CapabilityItem> {
    seq![
        CapabilityItem { category: CapabilityCategory::Haptic, semantic: SemanticRef::Output(OutputFunction::Rumble), optionality: Optionality::Required, range: None },
        CapabilityItem { category: CapabilityCategory::Haptic, semantic: SemanticRef::Output(OutputFunction::Haptics), optionality: Optionality::Optional, range: None },
        CapabilityItem { category: CapabilityCategory::Lighting, semantic: SemanticRef::Output(OutputFunction::Lighting), optionality: Optionality::Required, range: None },
        CapabilityItem { category: CapabilityCategory::Lighting, semantic: SemanticRef::Output(OutputFunction::PlayerIndicators), optionality: Optionality::Required, range: None },
        CapabilityItem { category: CapabilityCategory::Trigger, semantic: SemanticRef::Output(OutputFunction::TriggerEffect), optionality: Optionality::Required, range: None },
        CapabilityItem { category: CapabilityCategory::Audio, semantic: SemanticRef::Output(OutputFunction::Audio), optionality: Optionality::Optional, range: None },
    ]
}

/// The outputs the DualSense profile can be driven through.
pub open spec fn dualsense_reverse_support() -> Seq<OutputFunction> {
    seq![OutputFunction::Rumble, OutputFunction::Haptics, OutputFunction::Lighting, OutputFunction::PlayerIndicators, OutputFunction::TriggerEffect, OutputFunction::Audio]
}

/// The DualSense HID report descriptor.
pub open spec fn dualsense_descriptor() -> Seq<u8> {
    seq![
        0x05, 0x01, 0x09, 0x05, 0xa1, 0x01, 0x85, 0x01, 0x09, 0x30, 0x09, 0x31,
        0x09, 0x32, 0x09, 0x35, 0x09, 0x33, 0x09, 0x34, 0x15, 0x00, 0x26, 0xff,
        0x00, 0x75, 0x08, 0x95, 0x06, 0x81, 0x02, 0x06, 0x00, 0xff, 0x09, 0x20,
        0x95, 0x01, 0x81, 0x02, 0x05, 0x01, 0x09, 0x39, 0x15, 0x00, 0x25, 0x07,
        0x35, 0x00, 0x46, 0x3b, 0x01, 0x65, 0x14, 0x75, 0x04, 0x95, 0x01, 0x81,
        0x42, 0x65, 0x00, 0x05, 0x09, 0x19, 0x01, 0x29, 0x0f, 0x15, 0x00, 0x25,
        0x01, 0x75, 0x01, 0x95, 0x0f, 0x81, 0x02, 0x06, 0x00, 0xff, 0x09, 0x21,
        0x95, 0x0d, 0x81, 0x02, 0x06, 0x00, 0xff, 0x09, 0x22, 0x15, 0x00, 0x26,
        0xff, 0x00, 0x75, 0x08, 0x95, 0x34, 0x81, 0x02, 0x85, 0x02, 0x09, 0x23,
        0x95, 0x2f, 0x91, 0x02, 0x85, 0x05, 0x09, 0x33, 0x95, 0x28, 0xb1, 0x02,
        0x85, 0x08, 0x09, 0x34, 0x95, 0x2f, 0xb1, 0x02, 0x85, 0x09, 0x09, 0x24,
        0x95, 0x13, 0xb1, 0x02, 0x85, 0x0a, 0x09, 0x25, 0x95, 0x1a, 0xb1, 0x02,
        0x85, 0x20, 0x09, 0x26, 0x95, 0x3f, 0xb1, 0x02, 0x85, 0x21, 0x09, 0x27,
        0x95, 0x04, 0xb1, 0x02, 0x85, 0x22, 0x09, 0x40, 0x95, 0x3f, 0xb1, 0x02,
        0x85, 0x80, 0x09, 0x28, 0x95, 0x3f, 0xb1, 0x02, 0x85, 0x81, 0x09, 0x29,
        0x95, 0x3f, 0xb1, 0x02, 0x85, 0x82, 0x09, 0x2a, 0x95, 0x09, 0xb1, 0x02,
        0x85, 0x83, 0x09, 0x2b, 0x95, 0x3f, 0xb1, 0x02, 0x85, 0x84, 0x09, 0x2c,
        0x95, 0x3f, 0xb1, 0x02, 0x85, 0x85, 0x09, 0x2d, 0x95, 0x02, 0xb1, 0x02,
        0x85, 0xa0, 0x09, 0x2e, 0x95, 0x01, 0xb1, 0x02, 0x85, 0xe0, 0x09, 0x2f,
        0x95, 0x3f, 0xb1, 0x02, 0x85, 0xf0, 0x09, 0x30, 0x95, 0x3f, 0xb1, 0x02,
        0x85, 0xf1, 0x09, 0x31, 0x95, 0x3f, 0xb1, 0x02, 0x85, 0xf2, 0x09, 0x32,
        0x95, 0x0f, 0xb1, 0x02, 0x85, 0xf4, 0x09, 0x35, 0x95, 0x3f, 0xb1, 0x02,
        0x85, 0xf5, 0x09, 0x36, 0x95, 0x03, 0xb1, 0x02, 0xc0,
    ]
}

fn dualsense_required_field_list() -> (fields: Vec<InputFieldRef>)
    ensures
        fields@ == dualsense_required_fields(),
{
    let fields = vec![
        InputFieldRef("buttons.face.cross"),
        InputFieldRef("buttons.face.circle"),
        InputFieldRef("buttons.face.square"),
        InputFieldRef("buttons.face.triangle"),
        InputFieldRef("buttons.shoulders.l1"),
        InputFieldRef("buttons.shoulders.r1"),
        InputFieldRef("buttons.stick_clicks.l3"),
        InputFieldRef("buttons.stick_clicks.r3"),
        InputFieldRef("buttons.system.create"),
        InputFieldRef("buttons.system.options"),
        InputFieldRef("buttons.system.ps"),
        InputFieldRef("buttons.system.touchpad_click"),
        InputFieldRef("dpad.up"),
        InputFieldRef("dpad.down"),
        InputFieldRef("dpad.left"),
        InputFieldRef("dpad.right"),
        InputFieldRef("sticks.left_x"),
        InputFieldRef("sticks.left_y"),
        InputFieldRef("sticks.right_x"),
        InputFieldRef("sticks.right_y"),
        InputFieldRef("triggers.l2"),
        InputFieldRef("triggers.r2"),
        InputFieldRef("touchpad.contact_1.active"),
        InputFieldRef("touchpad.contact_1.x"),
        InputFieldRef("touchpad.contact_1.y"),
        InputFieldRef("touchpad.contact_2.active"),
        InputFieldRef("touchpad.contact_2.x"),
        InputFieldRef("touchpad.contact_2.y"),
    ];
    assert(fields@ =~= dualsense_required_fields());
    fields
}

fn dualsense_range_list() -> (ranges: Vec<InputFieldRange>)
    ensures
        ranges@ == dualsense_ranges(),
{
    let ranges = vec![
        InputFieldRange { field: InputFieldRef("sticks.left_x"), range: ValueRange::I16 { min: -32768i16, max: 32767i16 } },
        InputFieldRange { field: InputFieldRef("sticks.left_y"), range: ValueRange::I16 { min: -32768i16, max: 32767i16 } },
        InputFieldRange { field: InputFieldRef("sticks.right_x"), range: ValueRange::I16 { min: -32768i16, max: 32767i16 } },
        InputFieldRange { field: InputFieldRef("sticks.right_y"), range: ValueRange::I16 { min: -32768i16, max: 32767i16 } },
        InputFieldRange { field: InputFieldRef("triggers.l2"), range: ValueRange::U16 { min: 0u16, max: 65535u16 } },
        InputFieldRange { field: InputFieldRef("triggers.r2"), range: ValueRange::U16 { min: 0u16, max: 65535u16 } },
        InputFieldRange { field: InputFieldRef("touchpad.contact_1.x"), range: ValueRange::U16 { min: 0u16, max: 1920u16 } },
        InputFieldRange { field: InputFieldRef("touchpad.contact_1.y"), range: ValueRange::U16 { min: 0u16, max: 1080u16 } },
        InputFieldRange { field: InputFieldRef("touchpad.contact_2.x"), range: ValueRange::U16 { min: 0u16, max: 1920u16 } },
        InputFieldRange { field: InputFieldRef("touchpad.contact_2.y"), range: ValueRange::U16 { min: 0u16, max: 1080u16 } },
    ];
    assert(ranges@ =~= dualsense_ranges());
    ranges
}

fn dualsense_input_list() -> (items: Vec<CapabilityItem>)
    ensures
        items@ == dualsense_inputs(),
{
    let items = vec![
        CapabilityItem { category: CapabilityCategory::Button, semantic: SemanticRef::Input(SemanticInputFunction::FaceBottom), optionality: Optionality::Required, range: None },
        CapabilityItem { category: CapabilityCategory::Button, semantic: SemanticRef::Input(SemanticInputFunction::FaceRight), optionality: Optionality::Required, range: None },
        CapabilityItem { category: CapabilityCategory::Button, semantic: SemanticRef::Input(SemanticInputFunction::FaceLeft), optionality: Optionality::Required, range: None },
        CapabilityItem { category: CapabilityCategory::Button, semantic: SemanticRef::Input(SemanticInputFunction::FaceTop), optionality: Optionality::Required, range: None },
        CapabilityItem { category: CapabilityCategory::Button, semantic: SemanticRef::Input(SemanticInputFunction::LeftShoulder), optionality: Optionality::Required, range: None },
        CapabilityItem { category: CapabilityCategory::Button, semantic: SemanticRef::Input(SemanticInputFunction::RightShoulder), optionality: Optionality::Required, range: None },
        CapabilityItem { category: CapabilityCategory::Button, semantic: SemanticRef::Input(SemanticInputFunction::LeftStickButton), optionality: Optionality::Required, range: None },
        CapabilityItem { category: CapabilityCategory::Button, semantic: SemanticRef::Input(SemanticInputFunction::RightStickButton), optionality: Optionality::Required, range: None },
        CapabilityItem { category: CapabilityCategory::System, semantic: SemanticRef::Input(SemanticInputFunction::MenuPrimary), optionality: Optionality::Required, range: None },
        CapabilityItem { category: CapabilityCategory::System, semantic: SemanticRef::Input(SemanticInputFunction::MenuSecondary), optionality: Optionality::Required, range: None },
        CapabilityItem { category: CapabilityCategory::System, semantic: SemanticRef::Input(SemanticInputFunction::Guide), optionality: Optionality::Required, range: None },
        CapabilityItem { category: CapabilityCategory::Button, semantic: SemanticRef::Input(SemanticInputFunction::TouchClick), optionality: Optionality::Required, range: None },
        CapabilityItem { category: CapabilityCategory::Button, semantic: SemanticRef::Input(SemanticInputFunction::Dpad), optionality: Optionality::Required, range: None },
        CapabilityItem { category: CapabilityCategory::Stick, semantic: SemanticRef::Input(SemanticInputFunction::LeftStick), optionality: Optionality::Required, range: Some(ValueRange::I16 { min: -32768i16, max: 32767i16 }) },
        CapabilityItem { category: CapabilityCategory::Stick, semantic: SemanticRef::Input(SemanticInputFunction::RightStick), optionality: Optionality::Required, range: Some(ValueRange::I16 { min: -32768i16, max: 32767i16 }) },
        CapabilityItem { category: CapabilityCategory::Trigger, semantic: SemanticRef::Input(SemanticInputFunction::LeftTrigger), optionality: Optionality::Required, range: Some(ValueRange::U16 { min: 0u16, max: 65535u16 }) },
        CapabilityItem { category: CapabilityCategory::Trigger, semantic: SemanticRef::Input(SemanticInputFunction::RightTrigger), optionality: Optionality::Required, range: Some(ValueRange::U16 { min: 0u16, max: 65535u16 }) },
        CapabilityItem { category: CapabilityCategory::TouchSurface, semantic: SemanticRef::Input(SemanticInputFunction::TouchSurface), optionality: Optionality::Required, range: None },
        CapabilityItem { category: CapabilityCategory::MotionSensor, semantic: SemanticRef::Input(SemanticInputFunction::Accelerometer), optionality: Optionality::Optional, range: None },
        CapabilityItem { category: CapabilityCategory::MotionSensor, semantic: SemanticRef::Input(SemanticInputFunction::Gyroscope), optionality: Optionality::Optional, range: None },
    ];
    assert(items@ =~= dualsense_inputs());
    items
}

fn dualsense_output_list() -> (items: Vec<CapabilityItem>)
    ensures
        items@ == dualsense_outputs(),
{
    let items = vec![
        CapabilityItem { category: CapabilityCategory::Haptic, semantic: SemanticRef::Output(OutputFunction::Rumble), optionality: Optionality::Required, range: None },
        CapabilityItem { category: CapabilityCategory::Haptic, semantic: SemanticRef::Output(OutputFunction::Haptics), optionality: Optionality::Optional, range: None },
        CapabilityItem { category: CapabilityCategory::Lighting, semantic: SemanticRef::Output(OutputFunction::Lighting), optionality: Optionality::Required, range: None },
        CapabilityItem { category: CapabilityCategory::Lighting, semantic: SemanticRef::Output(OutputFunction::PlayerIndicators), optionality: Optionality::Required, range: None },
        CapabilityItem { category: CapabilityCategory::Trigger, semantic: SemanticRef::Output(OutputFunction::TriggerEffect), optionality: Optionality::Required, range: None },
        CapabilityItem { category: CapabilityCategory::Audio, semantic: SemanticRef::Output(OutputFunction::Audio), optionality: Optionality::Optional, range: None },
    ];
    assert(items@ =~= dualsense_outputs());
    items
}

fn dualsense_reverse_list() -> (functions: Vec<OutputFunction>)
    ensures
        functions@ == dualsense_reverse_support(),
{
    let functions = vec![OutputFunction::Rumble, OutputFunction::Haptics, OutputFunction::Lighting, OutputFunction::PlayerIndicators, OutputFunction::TriggerEffect, OutputFunction::Audio];
    assert(functions@ =~= dualsense_reverse_support());
    functions
}

fn dualsense_descriptor_bytes() -> (bytes: Vec<u8>)
    ensures
        bytes@ == dualsense_descriptor(),
{
    let bytes: Vec<u8> = vec![
        0x05, 0x01, 0x09, 0x05, 0xa1, 0x01, 0x85, 0x01, 0x09, 0x30, 0x09, 0x31,
        0x09, 0x32, 0x09, 0x35, 0x09, 0x33, 0x09, 0x34, 0x15, 0x00, 0x26, 0xff,
        0x00, 0x75, 0x08, 0x95, 0x06, 0x81, 0x02, 0x06, 0x00, 0xff, 0x09, 0x20,
        0x95, 0x01, 0x81, 0x02, 0x05, 0x01, 0x09, 0x39, 0x15, 0x00, 0x25, 0x07,
        0x35, 0x00, 0x46, 0x3b, 0x01, 0x65, 0x14, 0x75, 0x04, 0x95, 0x01, 0x81,
        0x42, 0x65, 0x00, 0x05, 0x09, 0x19, 0x01, 0x29, 0x0f, 0x15, 0x00, 0x25,
        0x01, 0x75, 0x01, 0x95, 0x0f, 0x81, 0x02, 0x06, 0x00, 0xff, 0x09, 0x21,
        0x95, 0x0d, 0x81, 0x02, 0x06, 0x00, 0xff, 0x09, 0x22, 0x15, 0x00, 0x26,
        0xff, 0x00, 0x75, 0x08, 0x95, 0x34, 0x81, 0x02, 0x85, 0x02, 0x09, 0x23,
        0x95, 0x2f, 0x91, 0x02, 0x85, 0x05, 0x09, 0x33, 0x95, 0x28, 0xb1, 0x02,
        0x85, 0x08, 0x09, 0x34, 0x95, 0x2f, 0xb1, 0x02, 0x85, 0x09, 0x09, 0x24,
        0x95, 0x13, 0xb1, 0x02, 0x85, 0x0a, 0x09, 0x25, 0x95, 0x1a, 0xb1, 0x02,
        0x85, 0x20, 0x09, 0x26, 0x95, 0x3f, 0xb1, 0x02, 0x85, 0x21, 0x09, 0x27,
        0x95, 0x04, 0xb1, 0x02, 0x85, 0x22, 0x09, 0x40, 0x95, 0x3f, 0xb1, 0x02,
        0x85, 0x80, 0x09, 0x28, 0x95, 0x3f, 0xb1, 0x02, 0x85, 0x81, 0x09, 0x29,
        0x95, 0x3f, 0xb1, 0x02, 0x85, 0x82, 0x09, 0x2a, 0x95, 0x09, 0xb1, 0x02,
        0x85, 0x83, 0x09, 0x2b, 0x95, 0x3f, 0xb1, 0x02, 0x85, 0x84, 0x09, 0x2c,
        0x95, 0x3f, 0xb1, 0x02, 0x85, 0x85, 0x09, 0x2d, 0x95, 0x02, 0xb1, 0x02,
        0x85, 0xa0, 0x09, 0x2e, 0x95, 0x01, 0xb1, 0x02, 0x85, 0xe0, 0x09, 0x2f,
        0x95, 0x3f, 0xb1, 0x02, 0x85, 0xf0, 0x09, 0x30, 0x95, 0x3f, 0xb1, 0x02,
        0x85, 0xf1, 0x09, 0x31, 0x95, 0x3f, 0xb1, 0x02, 0x85, 0xf2, 0x09, 0x32,
        0x95, 0x0f, 0xb1, 0x02, 0x85, 0xf4, 0x09, 0x35, 0x95, 0x3f, 0xb1, 0x02,
        0x85, 0xf5, 0x09, 0x36, 0x95, 0x03, 0xb1, 0x02, 0xc0,
    ];
    assert(bytes@ =~= dualsense_descriptor());
    bytes
}

/// What the built-in DualSense profile holds.
pub open spec fn dualsense_matches(profile: ControllerProfile) -> bool {
    &&& profile.profile_id@ == "dualsense"@
    &&& profile.display_name@ == "DualSense"@
    &&& profile.profile_family == ProfileFamily::DualSense
    &&& profile.identity.vendor_id == 0x054c
    &&& profile.identity.product_id == 0x0ce6
    &&& profile.identity.version == Some(0x0100u16)
    &&& profile.identity.transport_hints@ == seq![TransportHint::Usb, TransportHint::Bluetooth]
    &&& profile.capabilities.input@ == dualsense_inputs()
    &&& profile.capabilities.output@ == dualsense_outputs()
    &&& profile.supported_fidelity@ == seq![FidelityTier::Compatibility, FidelityTier::IdentityAware, FidelityTier::HardwareFaithful]
    &&& profile.input_contract.required_fields@ == dualsense_required_fields()
    &&& profile.input_contract.optional_fields@ == Seq::<InputFieldRef>::empty()
    &&& profile.input_contract.ranges@ == dualsense_ranges()
    &&& profile.input_contract.delta_support == DeltaSupportRule::SparsePartial
    &&& profile.descriptor_templates@.len() == 3
    &&& forall|i: int|
        0 <= i < 3 ==> (#[trigger] profile.descriptor_templates@[i]).fidelity == seq![FidelityTier::Compatibility, FidelityTier::IdentityAware, FidelityTier::HardwareFaithful][i]
            && profile.descriptor_templates@[i].descriptor.0@ == dualsense_descriptor()
    &&& profile.reverse_command_support.supported@ == dualsense_reverse_support()
}

/// The built-in DualSense profile: every fidelity tier, USB and Bluetooth, the full DualSense output set.
pub fn dualsense_profile() -> (profile: ControllerProfile)
    ensures
        dualsense_matches(profile),
{
    let mut descriptor_templates: Vec<DescriptorTemplate> = Vec::new();
    descriptor_templates.push(
        DescriptorTemplate { fidelity: FidelityTier::Compatibility, descriptor: DescriptorBytes(dualsense_descriptor_bytes()) },
    );
    descriptor_templates.push(
        DescriptorTemplate { fidelity: FidelityTier::IdentityAware, descriptor: DescriptorBytes(dualsense_descriptor_bytes()) },
    );
    descriptor_templates.push(
        DescriptorTemplate { fidelity: FidelityTier::HardwareFaithful, descriptor: DescriptorBytes(dualsense_descriptor_bytes()) },
    );
    let transport_hints: Vec<TransportHint> = vec![TransportHint::Usb, TransportHint::Bluetooth];
    assert(transport_hints@ =~= seq![TransportHint::Usb, TransportHint::Bluetooth]);
    let supported_fidelity: Vec<FidelityTier> = vec![FidelityTier::Compatibility, FidelityTier::IdentityAware, FidelityTier::HardwareFaithful];
    assert(supported_fidelity@ =~= seq![FidelityTier::Compatibility, FidelityTier::IdentityAware, FidelityTier::HardwareFaithful]);
    ControllerProfile {
        profile_id: String::from_str("dualsense"),
        display_name: String::from_str("DualSense"),
        profile_family: ProfileFamily::DualSense,
        identity: ProfileIdentity {
            vendor_id: 0x054c,
            product_id: 0x0ce6,
            version: Some(0x0100),
            transport_hints,
        },
        capabilities: ControllerCapabilities {
            input: dualsense_input_list(),
            output: dualsense_output_list(),
        },
        supported_fidelity,
        input_contract: ProfileInputContract {
            required_fields: dualsense_required_field_list(),
            optional_fields: Vec::new(),
            ranges: dualsense_range_list(),
            delta_support: DeltaSupportRule::SparsePartial,
        },
        descriptor_templates,
        reverse_command_support: ReverseCommandSupport {
            supported: dualsense_reverse_list(),
        },
    }
}

// ---------------------------------------------------------------------
// Steam Controller
// ---------------------------------------------------------------------

/// The Steam Controller profile's required input fields.
pub open spec fn steam_controller_required_fields() -> Seq<InputFieldRef> {
    seq![
        InputFieldRef("buttons.a"),
        InputFieldRef("buttons.b"),
        InputFieldRef("buttons.x"),
        InputFieldRef("buttons.y"),
        InputFieldRef("buttons.left_grip"),
        InputFieldRef("buttons.right_grip"),
        InputFieldRef("buttons.lb"),
        InputFieldRef("buttons.rb"),
        InputFieldRef("buttons.menu_primary"),
        InputFieldRef("buttons.menu_secondary"),
        InputFieldRef("buttons.steam"),
        InputFieldRef("buttons.left_pad_click"),
        InputFieldRef("buttons.right_pad_click"),
        InputFieldRef("buttons.left_stick_click"),
        InputFieldRef("sticks.left_pad_x"),
        InputFieldRef("sticks.left_pad_y"),
        InputFieldRef("sticks.right_pad_x"),
        InputFieldRef("sticks.right_pad_y"),
        InputFieldRef("sticks.left_stick_x"),
        InputFieldRef("sticks.left_stick_y"),
        InputFieldRef("triggers.lt"),
        InputFieldRef("triggers.rt"),
    ]
}

/// The ranges of the Steam Controller profile's analog input fields.
pub open spec fn steam_controller_ranges() -> Seq<InputFieldRange> {
    seq![
        InputFieldRange { field: InputFieldRef("sticks.left_pad_x"), range: ValueRange::I16 { min: -32768i16, max: 32767i16 } },
        InputFieldRange { field: InputFieldRef("sticks.left_pad_y"), range: ValueRange::I16 { min: -32768i16, max: 32767i16 } },
        InputFieldRange { field: InputFieldRef("sticks.right_pad_x"), range: ValueRange::I16 { min: -32768i16, max: 32767i16 } },
        InputFieldRange { field: InputFieldRef("sticks.right_pad_y"), range: ValueRange::I16 { min: -32768i16, max: 32767i16 } },
        InputFieldRange { field: InputFieldRef("sticks.left_stick_x"), range: ValueRange::I16 { min: -32768i16, max: 32767i16 } },
        InputFieldRange { field: InputFieldRef("sticks.left_stick_y"), range: ValueRange::I16 { min: -32768i16, max: 32767i16 } },
        InputFieldRange { field: InputFieldRef("triggers.lt"), range: ValueRange::U16 { min: 0u16, max: 65535u16 } },
        InputFieldRange { field: InputFieldRef("triggers.rt"), range: ValueRange::U16 { min: 0u16, max: 65535u16 } },
    ]
}

/// The Steam Controller profile's input capabilities.
pub open spec fn steam_controller_inputs() -> Seq<CapabilityItem> {
    seq![
        CapabilityItem { category: CapabilityCategory::Button, semantic: SemanticRef::Input(SemanticInputFunction::FaceBottom), optionality: Optionality::Required, range: None },
        CapabilityItem { category: CapabilityCategory::Button, semantic: SemanticRef::Input(SemanticInputFunction::FaceRight), optionality: Optionality::Required, range: None },
        CapabilityItem { category: CapabilityCategory::Button, semantic: SemanticRef::Input(SemanticInputFunction::FaceLeft), optionality: Optionality::Required, range: None },
        CapabilityItem { category: CapabilityCategory::Button, semantic: SemanticRef::Input(SemanticInputFunction::FaceTop), optionality: Optionality::Required, range: None },
        CapabilityItem { category: CapabilityCategory::Button, semantic: SemanticRef::Input(SemanticInputFunction::LeftShoulder), optionality: Optionality::Required, range: None },
        CapabilityItem { category: CapabilityCategory::Button, semantic: SemanticRef::Input(SemanticInputFunction::RightShoulder), optionality: Optionality::Required, range: None },
        CapabilityItem { category: CapabilityCategory::Button, semantic: SemanticRef::Input(SemanticInputFunction::LeftStickButton), optionality: Optionality::Required, range: None },
        CapabilityItem { category: CapabilityCategory::Button, semantic: SemanticRef::Input(SemanticInputFunction::PaddleLeft), optionality: Optionality::Required, range: None },
        CapabilityItem { category: CapabilityCategory::Button, semantic: SemanticRef::Input(SemanticInputFunction::PaddleRight), optionality: Optionality::Required, range: None },
        CapabilityItem { category: CapabilityCategory::System, semantic: SemanticRef::Input(SemanticInputFunction::MenuPrimary), optionality: Optionality::Required, range: None },
        CapabilityItem { category: CapabilityCategory::System, semantic: SemanticRef::Input(SemanticInputFunction::MenuSecondary), optionality: Optionality::Required, range: None },
        CapabilityItem { category: CapabilityCategory::System, semantic: SemanticRef::Input(SemanticInputFunction::Guide), optionality: Optionality::Required, range: None },
        CapabilityItem { category: CapabilityCategory::Stick, semantic: SemanticRef::Input(SemanticInputFunction::LeftStick), optionality: Optionality::Required, range: Some(ValueRange::I16 { min: -32768i16, max: 32767i16 }) },
        CapabilityItem { category: CapabilityCategory::TouchSurface, semantic: SemanticRef::Input(SemanticInputFunction::TouchSurface), optionality: Optionality::Required, range: Some(ValueRange::I16 { min: -32768i16, max: 32767i16 }) },
        CapabilityItem { category: CapabilityCategory::Trigger, semantic: SemanticRef::Input(SemanticInputFunction::LeftTrigger), optionality: Optionality::Required, range: Some(ValueRange::U16 { min: 0u16, max: 65535u16 }) },
        CapabilityItem { category: CapabilityCategory::Trigger, semantic: SemanticRef::Input(SemanticInputFunction::RightTrigger), optionality: Optionality::Required, range: Some(ValueRange::U16 { min: 0u16, max: 65535u16 }) },
    ]
}

/// The Steam Controller profile's output capabilities.
pub open spec fn steam_controller_outputs() -> Seq<CapabilityItem> {
    seq![
        CapabilityItem { category: CapabilityCategory::Haptic, semantic: SemanticRef::Output(OutputFunction::Rumble), optionality: Optionality::Required, range: None },
        CapabilityItem { category: CapabilityCategory::Lighting, semantic: SemanticRef::Output(OutputFunction::Lighting), optionality: Optionality::Optional, range: None },
    ]
}

/// The outputs the Steam Controller profile can be driven through.
pub open spec fn steam_controller_reverse_support() -> Seq<OutputFunction> {
    seq![OutputFunction::Rumble, OutputFunction::Lighting]
}

/// The Steam Controller HID report descriptor.
pub open spec fn steam_controller_descriptor() -> Seq<u8> {
    seq![
        0x05, 0x01, 0x09, 0x05, 0xa1, 0x01, 0x85, 0x01, 0x05, 0x09, 0x19, 0x01,
        0x29, 0x0e, 0x15, 0x00, 0x25, 0x01, 0x75, 0x01, 0x95, 0x0e, 0x81, 0x02,
        0x75, 0x02, 0x95, 0x01, 0x81, 0x01, 0x16, 0x00, 0x80, 0x26, 0xff, 0x7f,
        0x36, 0x00, 0x80, 0x46, 0xff, 0x7f, 0x75, 0x10, 0x95, 0x06, 0x05, 0x01,
        0x09, 0x30, 0x09, 0x31, 0x09, 0x32, 0x09, 0x35, 0x09, 0x33, 0x09, 0x34,
        0x81, 0x02, 0x15, 0x00, 0x26, 0xff, 0xff, 0x75, 0x10, 0x95, 0x02, 0x05,
        0x02, 0x09, 0xc5, 0x09, 0xc4, 0x81, 0x02, 0x85, 0x02, 0x06, 0x00, 0xff,
        0x09, 0x23, 0x75, 0x08, 0x95, 0x08, 0x91, 0x02, 0xc0,
    ]
}

fn steam_controller_required_field_list() -> (fields: Vec<InputFieldRef>)
    ensures
        fields@ == steam_controller_required_fields(),
{
    let fields = vec![
        InputFieldRef("buttons.a"),
        InputFieldRef("buttons.b"),
        InputFieldRef("buttons.x"),
        InputFieldRef("buttons.y"),
        InputFieldRef("buttons.left_grip"),
        InputFieldRef("buttons.right_grip"),
        InputFieldRef("buttons.lb"),
        InputFieldRef("buttons.rb"),
        InputFieldRef("buttons.menu_primary"),
        InputFieldRef("buttons.menu_secondary"),
        InputFieldRef("buttons.steam"),
        InputFieldRef("buttons.left_pad_click"),
        InputFieldRef("buttons.right_pad_click"),
        InputFieldRef("buttons.left_stick_click"),
        InputFieldRef("sticks.left_pad_x"),
        InputFieldRef("sticks.left_pad_y"),
        InputFieldRef("sticks.right_pad_x"),
        InputFieldRef("sticks.right_pad_y"),
        InputFieldRef("sticks.left_stick_x"),
        InputFieldRef("sticks.left_stick_y"),
        InputFieldRef("triggers.lt"),
        InputFieldRef("triggers.rt"),
    ];
    assert(fields@ =~= steam_controller_required_fields());
    fields
}

fn steam_controller_range_list() -> (ranges: Vec<InputFieldRange>)
    ensures
        ranges@ == steam_controller_ranges(),
{
    let ranges = vec![
        InputFieldRange { field: InputFieldRef("sticks.left_pad_x"), range: ValueRange::I16 { min: -32768i16, max: 32767i16 } },
        InputFieldRange { field: InputFieldRef("sticks.left_pad_y"), range: ValueRange::I16 { min: -32768i16, max: 32767i16 } },
        InputFieldRange { field: InputFieldRef("sticks.right_pad_x"), range: ValueRange::I16 { min: -32768i16, max: 32767i16 } },
        InputFieldRange { field: InputFieldRef("sticks.right_pad_y"), range: ValueRange::I16 { min: -32768i16, max: 32767i16 } },
        InputFieldRange { field: InputFieldRef("sticks.left_stick_x"), range: ValueRange::I16 { min: -32768i16, max: 32767i16 } },
        InputFieldRange { field: InputFieldRef("sticks.left_stick_y"), range: ValueRange::I16 { min: -32768i16, max: 32767i16 } },
        InputFieldRange { field: InputFieldRef("triggers.lt"), range: ValueRange::U16 { min: 0u16, max: 65535u16 } },
        InputFieldRange { field: InputFieldRef("triggers.rt"), range: ValueRange::U16 { min: 0u16, max: 65535u16 } },
    ];
    assert(ranges@ =~= steam_controller_ranges());
    ranges
}

fn steam_controller_input_list() -> (items: Vec<CapabilityItem>)
    ensures
        items@ == steam_controller_inputs(),
{
    let items = vec![
        CapabilityItem { category: CapabilityCategory::Button, semantic: SemanticRef::Input(SemanticInputFunction::FaceBottom), optionality: Optionality::Required, range: None },
        CapabilityItem { category: CapabilityCategory::Button, semantic: SemanticRef::Input(SemanticInputFunction::FaceRight), optionality: Optionality::Required, range: None },
        CapabilityItem { category: CapabilityCategory::Button, semantic: SemanticRef::Input(SemanticInputFunction::FaceLeft), optionality: Optionality::Required, range: None },
        CapabilityItem { category: CapabilityCategory::Button, semantic: SemanticRef::Input(SemanticInputFunction::FaceTop), optionality: Optionality::Required, range: None },
        CapabilityItem { category: CapabilityCategory::Button, semantic: SemanticRef::Input(SemanticInputFunction::LeftShoulder), optionality: Optionality::Required, range: None },
        CapabilityItem { category: CapabilityCategory::Button, semantic: SemanticRef::Input(SemanticInputFunction::RightShoulder), optionality: Optionality::Required, range: None },
        CapabilityItem { category: CapabilityCategory::Button, semantic: SemanticRef::Input(SemanticInputFunction::LeftStickButton), optionality: Optionality::Required, range: None },
        CapabilityItem { category: CapabilityCategory::Button, semantic: SemanticRef::Input(SemanticInputFunction::PaddleLeft), optionality: Optionality::Required, range: None },
        CapabilityItem { category: CapabilityCategory::Button, semantic: SemanticRef::Input(SemanticInputFunction::PaddleRight), optionality: Optionality::Required, range: None },
        CapabilityItem { category: CapabilityCategory::System, semantic: SemanticRef::Input(SemanticInputFunction::MenuPrimary), optionality: Optionality::Required, range: None },
        CapabilityItem { category: CapabilityCategory::System, semantic: SemanticRef::Input(SemanticInputFunction::MenuSecondary), optionality: Optionality::Required, range: None },
        CapabilityItem { category: CapabilityCategory::System, semantic: SemanticRef::Input(SemanticInputFunction::Guide), optionality: Optionality::Required, range: None },
        CapabilityItem { category: CapabilityCategory::Stick, semantic: SemanticRef::Input(SemanticInputFunction::LeftStick), optionality: Optionality::Required, range: Some(ValueRange::I16 { min: -32768i16, max: 32767i16 }) },
        CapabilityItem { category: CapabilityCategory::TouchSurface, semantic: SemanticRef::Input(SemanticInputFunction::TouchSurface), optionality: Optionality::Required, range: Some(ValueRange::I16 { min: -32768i16, max: 32767i16 }) },
        CapabilityItem { category: CapabilityCategory::Trigger, semantic: SemanticRef::Input(SemanticInputFunction::LeftTrigger), optionality: Optionality::Required, range: Some(ValueRange::U16 { min: 0u16, max: 65535u16 }) },
        CapabilityItem { category: CapabilityCategory::Trigger, semantic: SemanticRef::Input(SemanticInputFunction::RightTrigger), optionality: Optionality::Required, range: Some(ValueRange::U16 { min: 0u16, max: 65535u16 }) },
    ];
    assert(items@ =~= steam_controller_inputs());
    items
}

fn steam_controller_output_list() -> (items: Vec<CapabilityItem>)
    ensures
        items@ == steam_controller_outputs(),
{
    let items = vec![
        CapabilityItem { category: CapabilityCategory::Haptic, semantic: SemanticRef::Output(OutputFunction::Rumble), optionality: Optionality::Required, range: None },
        CapabilityItem { category: CapabilityCategory::Lighting, semantic: SemanticRef::Output(OutputFunction::Lighting), optionality: Optionality::Optional, range: None },
    ];
    assert(items@ =~= steam_controller_outputs());
    items
}

fn steam_controller_reverse_list() -> (functions: Vec<OutputFunction>)
    ensures
        functions@ == steam_controller_reverse_support(),
{
    let functions = vec![OutputFunction::Rumble, OutputFunction::Lighting];
    assert(functions@ =~= steam_controller_reverse_support());
    functions
}

fn steam_controller_descriptor_bytes() -> (bytes: Vec<u8>)
    ensures
        bytes@ == steam_controller_descriptor(),
{
    let bytes: Vec<u8> = vec![
        0x05, 0x01, 0x09, 0x05, 0xa1, 0x01, 0x85, 0x01, 0x05, 0x09, 0x19, 0x01,
        0x29, 0x0e, 0x15, 0x00, 0x25, 0x01, 0x75, 0x01, 0x95, 0x0e, 0x81, 0x02,
        0x75, 0x02, 0x95, 0x01, 0x81, 0x01, 0x16, 0x00, 0x80, 0x26, 0xff, 0x7f,
        0x36, 0x00, 0x80, 0x46, 0xff, 0x7f, 0x75, 0x10, 0x95, 0x06, 0x05, 0x01,
        0x09, 0x30, 0x09, 0x31, 0x09, 0x32, 0x09, 0x35, 0x09, 0x33, 0x09, 0x34,
        0x81, 0x02, 0x15, 0x00, 0x26, 0xff, 0xff, 0x75, 0x10, 0x95, 0x02, 0x05,
        0x02, 0x09, 0xc5, 0x09, 0xc4, 0x81, 0x02, 0x85, 0x02, 0x06, 0x00, 0xff,
        0x09, 0x23, 0x75, 0x08, 0x95, 0x08, 0x91, 0x02, 0xc0,
    ];
    assert(bytes@ =~= steam_controller_descriptor());
    bytes
}

/// What the built-in Steam Controller profile holds.
pub open spec fn steam_controller_matches(profile: ControllerProfile) -> bool {
    &&& profile.profile_id@ == "steam-controller"@
    &&& profile.display_name@ == "Steam Controller"@
    &&& profile.profile_family == ProfileFamily::SteamController
    &&& profile.identity.vendor_id == 0x28de
    &&& profile.identity.product_id == 0x1102
    &&& profile.identity.version == None::<u16>
    &&& profile.identity.transport_hints@ == seq![TransportHint::Usb, TransportHint::Bluetooth]
    &&& profile.capabilities.input@ == steam_controller_inputs()
    &&& profile.capabilities.output@ == steam_controller_outputs()
    &&& profile.supported_fidelity@ == seq![FidelityTier::Compatibility, FidelityTier::IdentityAware, FidelityTier::HardwareFaithful]
    &&& profile.input_contract.required_fields@ == steam_controller_required_fields()
    &&& profile.input_contract.optional_fields@ == Seq::<InputFieldRef>::empty()
    &&& profile.input_contract.ranges@ == steam_controller_ranges()
    &&& profile.input_contract.delta_support == DeltaSupportRule::SparsePartial
    &&& profile.descriptor_templates@.len() == 3
    &&& forall|i: int|
        0 <= i < 3 ==> (#[trigger] profile.descriptor_templates@[i]).fidelity == seq![FidelityTier::Compatibility, FidelityTier::IdentityAware, FidelityTier::HardwareFaithful][i]
            && profile.descriptor_templates@[i].descriptor.0@ == steam_controller_descriptor()
    &&& profile.reverse_command_support.supported@ == steam_controller_reverse_support()
}

/// The built-in Steam Controller profile: every fidelity tier, USB and Bluetooth, rumble and lighting.
pub fn steam_controller_profile() -> (profile: ControllerProfile)
    ensures
        steam_controller_matches(profile),
{
    let mut descriptor_templates: Vec<DescriptorTemplate> = Vec::new();
    descriptor_templates.push(
        DescriptorTemplate { fidelity: FidelityTier::Compatibility, descriptor: DescriptorBytes(steam_controller_descriptor_bytes()) },
    );
    descriptor_templates.push(
        DescriptorTemplate { fidelity: FidelityTier::IdentityAware, descriptor: DescriptorBytes(steam_controller_descriptor_bytes()) },
    );
    descriptor_templates.push(
        DescriptorTemplate { fidelity: FidelityTier::HardwareFaithful, descriptor: DescriptorBytes(steam_controller_descriptor_bytes()) },
    );
    let transport_hints: Vec<TransportHint> = vec![TransportHint::Usb, TransportHint::Bluetooth];
    assert(transport_hints@ =~= seq![TransportHint::Usb, TransportHint::Bluetooth]);
    let supported_fidelity: Vec<FidelityTier> = vec![FidelityTier::Compatibility, FidelityTier::IdentityAware, FidelityTier::HardwareFaithful];
    assert(supported_fidelity@ =~= seq![FidelityTier::Compatibility, FidelityTier::IdentityAware, FidelityTier::HardwareFaithful]);
    ControllerProfile {
        profile_id: String::from_str("steam-controller"),
        display_name: String::from_str("Steam Controller"),
        profile_family: ProfileFamily::SteamController,
        identity: ProfileIdentity {
            vendor_id: 0x28de,
            product_id: 0x1102,
            version: None,
            transport_hints,
        },
        capabilities: ControllerCapabilities {
            input: steam_controller_input_list(),
            output: steam_controller_output_list(),
        },
        supported_fidelity,
        input_contract: ProfileInputContract {
            required_fields: steam_controller_required_field_list(),
            optional_fields: Vec::new(),
            ranges: steam_controller_range_list(),
            delta_support: DeltaSupportRule::SparsePartial,
        },
        descriptor_templates,
        reverse_command_support: ReverseCommandSupport {
            supported: steam_controller_reverse_list(),
        },
    }
}

// ---------------------------------------------------------------------
// Registry lookups
// ---------------------------------------------------------------------

/// Whether `profile` is the built-in profile of `family`.
pub open spec fn builtin_matches(profile: ControllerProfile, family: ProfileFamily) -> bool {
    match family {
        ProfileFamily::GenericGamepad => generic_gamepad_matches(profile),
        ProfileFamily::Xbox360 => xbox360_matches(profile),
        ProfileFamily::DualSense => dualsense_matches(profile),
        ProfileFamily::SteamController => steam_controller_matches(profile),
    }
}

/// The built-in profile of a family.
pub fn builtin_profile(family: ProfileFamily) -> (profile: ControllerProfile)
    ensures
        builtin_matches(profile, family),
{
    match family {
        ProfileFamily::GenericGamepad => generic_gamepad_profile(),
        ProfileFamily::Xbox360 => xbox360_profile(),
        ProfileFamily::DualSense => dualsense_profile(),
        ProfileFamily::SteamController => steam_controller_profile(),
    }
}

impl CapabilityRegistry {
    /// The built-in profiles, in registry order.
    pub fn profiles(self) -> (profiles: Vec<ControllerProfile>)
        ensures
            profiles@.len() == 4,
            forall|i: int|
                0 <= i < 4 ==> builtin_matches(#[trigger] profiles@[i], builtin_profile_families()[i]),
    {
        let profiles = vec![
            generic_gamepad_profile(),
            xbox360_profile(),
            dualsense_profile(),
            steam_controller_profile(),
        ];
        assert forall|i: int| 0 <= i < 4 implies builtin_matches(
            #[trigger] profiles@[i],
            builtin_profile_families()[i],
        ) by {
            if i == 0 {
            } else if i == 1 {
            } else if i == 2 {
            } else {
            }
        }
        profiles
    }

    /// The built-in profile `profile_id`, if there is one.
    pub fn profile_by_str(self, profile_id: &str) -> (profile: Option<ControllerProfile>)
        ensures
            profile is Some <==> is_builtin_profile(profile_id@),
            forall|i: int|
                0 <= i < 4 && builtin_profile_ids()[i] == profile_id@ ==> (profile matches Some(p)
                    && builtin_matches(p, builtin_profile_families()[i])),
    {
        match self.profile_family(profile_id) {
            Some(family) => Some(builtin_profile(family)),
            None => None,
        }
    }

    /// The built-in profile `profile_id`, if there is one.
    pub fn profile(self, profile_id: String) -> (profile: Option<ControllerProfile>)
        ensures
            profile is Some <==> is_builtin_profile(profile_id@),
            forall|i: int|
                0 <= i < 4 && builtin_profile_ids()[i] == profile_id@ ==> (profile matches Some(p)
                    && builtin_matches(p, builtin_profile_families()[i])),
    {
        self.profile_by_str(profile_id.as_str())
    }
}

} // verus!
