//! Profile input payloads: the per-profile input state a session
//! translates into backend frames.

use vstd::prelude::*;

verus! {

/// The four d-pad directions.
#[derive(Debug, Clone, Copy, PartialEq, Eq, Structural)]
pub struct Dpad {
    pub up: bool,
    pub down: bool,
    pub left: bool,
    pub right: bool,
}

impl Dpad {
    /// The released / centred state.
    pub fn neutral() -> (state: Self)
        ensures
            state.up == false,
            state.down == false,
            state.left == false,
            state.right == false,
    {
        Dpad { up: false, down: false, left: false, right: false }
    }
}

/// Two analog sticks, each axis a signed 16-bit value.
#[derive(Debug, Clone, Copy, PartialEq, Eq, Structural)]
pub struct TwinStickAxes {
    pub left_x: i16,
    pub left_y: i16,
    pub right_x: i16,
    pub right_y: i16,
}

impl TwinStickAxes {
    /// The released / centred state.
    pub fn neutral() -> (state: Self)
        ensures
            state.left_x == 0,
            state.left_y == 0,
            state.right_x == 0,
            state.right_y == 0,
    {
        TwinStickAxes { left_x: 0, left_y: 0, right_x: 0, right_y: 0 }
    }
}

/// The buttons of the generic gamepad profile.
#[derive(Debug, Clone, Copy, PartialEq, Eq, Structural)]
pub struct GenericGamepadButtons {
    pub south: bool,
    pub east: bool,
    pub west: bool,
    pub north: bool,
    pub left_shoulder: bool,
    pub right_shoulder: bool,
    pub left_stick_button: bool,
    pub right_stick_button: bool,
    pub menu_primary: bool,
    pub menu_secondary: bool,
    pub guide: bool,
}

impl GenericGamepadButtons {
    /// The released / centred state.
    pub fn neutral() -> (state: Self)
        ensures
            state.south == false,
            state.east == false,
            state.west == false,
            state.north == false,
            state.left_shoulder == false,
            state.right_shoulder == false,
            state.left_stick_button == false,
            state.right_stick_button == false,
            state.menu_primary == false,
            state.menu_secondary == false,
            state.guide == false,
    {
        GenericGamepadButtons { south: false, east: false, west: false, north: false, left_shoulder: false, right_shoulder: false, left_stick_button: false, right_stick_button: false, menu_primary: false, menu_secondary: false, guide: false }
    }
}

/// The analog triggers of the generic gamepad profile.
#[derive(Debug, Clone, Copy, PartialEq, Eq, Structural)]
pub struct GenericGamepadTriggers {
    pub left_trigger: u16,
    pub right_trigger: u16,
}

impl GenericGamepadTriggers {
    /// The released / centred state.
    pub fn neutral() -> (state: Self)
        ensures
            state.left_trigger == 0,
            state.right_trigger == 0,
    {
        GenericGamepadTriggers { left_trigger: 0, right_trigger: 0 }
    }
}

/// Xbox 360 face buttons.
#[derive(Debug, Clone, Copy, PartialEq, Eq, Structural)]
pub struct Xbox360FaceButtons {
    pub a: bool,
    pub b: bool,
    pub x: bool,
    pub y: bool,
}

impl Xbox360FaceButtons {
    /// The released / centred state.
    pub fn neutral() -> (state: Self)
        ensures
            state.a == false,
            state.b == false,
            state.x == false,
            state.y == false,
    {
        Xbox360FaceButtons { a: false, b: false, x: false, y: false }
    }
}

/// Xbox 360 shoulder buttons.
#[derive(Debug, Clone, Copy, PartialEq, Eq, Structural)]
pub struct Xbox360Shoulders {
    pub lb: bool,
    pub rb: bool,
}

impl Xbox360Shoulders {
    /// The released / centred state.
    pub fn neutral() -> (state: Self)
        ensures
            state.lb == false,
            state.rb == false,
    {
        Xbox360Shoulders { lb: false, rb: false }
    }
}

/// Xbox 360 stick clicks.
#[derive(Debug, Clone, Copy, PartialEq, Eq, Structural)]
pub struct Xbox360StickClicks {
    pub ls: bool,
    pub rs: bool,
}

impl Xbox360StickClicks {
    /// The released / centred state.
    pub fn neutral() -> (state: Self)
        ensures
            state.ls == false,
            state.rs == false,
    {
        Xbox360StickClicks { ls: false, rs: false }
    }
}

/// Xbox 360 system buttons.
#[derive(Debug, Clone, Copy, PartialEq, Eq, Structural)]
pub struct Xbox360SystemButtons {
    pub start: bool,
    pub back: bool,
    pub guide: bool,
}

impl Xbox360SystemButtons {
    /// The released / centred state.
    pub fn neutral() -> (state: Self)
        ensures
            state.start == false,
            state.back == false,
            state.guide == false,
    {
        Xbox360SystemButtons { start: false, back: false, guide: false }
    }
}

/// Xbox 360 analog triggers.
#[derive(Debug, Clone, Copy, PartialEq, Eq, Structural)]
pub struct Xbox360Triggers {
    pub lt: u16,
    pub rt: u16,
}

impl Xbox360Triggers {
    /// The released / centred state.
    pub fn neutral() -> (state: Self)
        ensures
            state.lt == 0,
            state.rt == 0,
    {
        Xbox360Triggers { lt: 0, rt: 0 }
    }
}

/// DualSense face buttons.
#[derive(Debug, Clone, Copy, PartialEq, Eq, Structural)]
pub struct DualSenseFaceButtons {
    pub cross: bool,
    pub circle: bool,
    pub square: bool,
    pub triangle: bool,
}

impl DualSenseFaceButtons {
    /// The released / centred state.
    pub fn neutral() -> (state: Self)
        ensures
            state.cross == false,
            state.circle == false,
            state.square == false,
            state.triangle == false,
    {
        DualSenseFaceButtons { cross: false, circle: false, square: false, triangle: false }
    }
}

/// DualSense shoulder buttons.
#[derive(Debug, Clone, Copy, PartialEq, Eq, Structural)]
pub struct DualSenseShoulders {
    pub l1: bool,
    pub r1: bool,
}

impl DualSenseShoulders {
    /// The released / centred state.
    pub fn neutral() -> (state: Self)
        ensures
            state.l1 == false,
            state.r1 == false,
    {
        DualSenseShoulders { l1: false, r1: false }
    }
}

/// DualSense stick clicks.
#[derive(Debug, Clone, Copy, PartialEq, Eq, Structural)]
pub struct DualSenseStickClicks {
    pub l3: bool,
    pub r3: bool,
}

impl DualSenseStickClicks {
    /// The released / centred state.
    pub fn neutral() -> (state: Self)
        ensures
            state.l3 == false,
            state.r3 == false,
    {
        DualSenseStickClicks { l3: false, r3: false }
    }
}

/// DualSense system buttons.
#[derive(Debug, Clone, Copy, PartialEq, Eq, Structural)]
pub struct DualSenseSystemButtons {
    pub create: bool,
    pub options: bool,
    pub ps: bool,
    pub touchpad_click: bool,
}

impl DualSenseSystemButtons {
    /// The released / centred state.
    pub fn neutral() -> (state: Self)
        ensures
            state.create == false,
            state.options == false,
            state.ps == false,
            state.touchpad_click == false,
    {
        DualSenseSystemButtons { create: false, options: false, ps: false, touchpad_click: false }
    }
}

/// DualSense analog triggers.
#[derive(Debug, Clone, Copy, PartialEq, Eq, Structural)]
pub struct DualSenseTriggers {
    pub l2: u16,
    pub r2: u16,
}

impl DualSenseTriggers {
    /// The released / centred state.
    pub fn neutral() -> (state: Self)
        ensures
            state.l2 == 0,
            state.r2 == 0,
    {
        DualSenseTriggers { l2: 0, r2: 0 }
    }
}

/// One DualSense touchpad contact.
#[derive(Debug, Clone, Copy, PartialEq, Eq, Structural)]
pub struct DualSenseTouchContact {
    pub active: bool,
    pub x: u16,
    pub y: u16,
}

impl DualSenseTouchContact {
    /// The released / centred state.
    pub fn neutral() -> (state: Self)
        ensures
            state.active == false,
            state.x == 0,
            state.y == 0,
    {
        DualSenseTouchContact { active: false, x: 0, y: 0 }
    }
}

/// Steam Controller buttons.
#[derive(Debug, Clone, Copy, PartialEq, Eq, Structural)]
pub struct SteamControllerButtons {
    pub a: bool,
    pub b: bool,
    pub x: bool,
    pub y: bool,
    pub left_grip: bool,
    pub right_grip: bool,
    pub lb: bool,
    pub rb: bool,
    pub menu_primary: bool,
    pub menu_secondary: bool,
    pub steam: bool,
    pub left_pad_click: bool,
    pub right_pad_click: bool,
    pub left_stick_click: bool,
}

impl SteamControllerButtons {
    /// The released / centred state.
    pub fn neutral() -> (state: Self)
        ensures
            state.a == false,
            state.b == false,
            state.x == false,
            state.y == false,
            state.left_grip == false,
            state.right_grip == false,
            state.lb == false,
            state.rb == false,
            state.menu_primary == false,
            state.menu_secondary == false,
            state.steam == false,
            state.left_pad_click == false,
            state.right_pad_click == false,
            state.left_stick_click == false,
    {
        SteamControllerButtons { a: false, b: false, x: false, y: false, left_grip: false, right_grip: false, lb: false, rb: false, menu_primary: false, menu_secondary: false, steam: false, left_pad_click: false, right_pad_click: false, left_stick_click: false }
    }
}

/// Steam Controller pads and stick, each axis a signed 16-bit value.
#[derive(Debug, Clone, Copy, PartialEq, Eq, Structural)]
pub struct SteamControllerSticks {
    pub left_pad_x: i16,
    pub left_pad_y: i16,
    pub right_pad_x: i16,
    pub right_pad_y: i16,
    pub left_stick_x: i16,
    pub left_stick_y: i16,
}

impl SteamControllerSticks {
    /// The released / centred state.
    pub fn neutral() -> (state: Self)
        ensures
            state.left_pad_x == 0,
            state.left_pad_y == 0,
            state.right_pad_x == 0,
            state.right_pad_y == 0,
            state.left_stick_x == 0,
            state.left_stick_y == 0,
    {
        SteamControllerSticks { left_pad_x: 0, left_pad_y: 0, right_pad_x: 0, right_pad_y: 0, left_stick_x: 0, left_stick_y: 0 }
    }
}

/// Steam Controller analog triggers.
#[derive(Debug, Clone, Copy, PartialEq, Eq, Structural)]
pub struct SteamControllerTriggers {
    pub lt: u16,
    pub rt: u16,
}

impl SteamControllerTriggers {
    /// The released / centred state.
    pub fn neutral() -> (state: Self)
        ensures
            state.lt == 0,
            state.rt == 0,
    {
        SteamControllerTriggers { lt: 0, rt: 0 }
    }
}

/// One input state of the generic gamepad profile.
#[derive(Debug, Clone, Copy, PartialEq, Eq, Structural)]
pub struct GenericGamepadInput {
    pub buttons: GenericGamepadButtons,
    pub dpad: Dpad,
    pub sticks: TwinStickAxes,
    pub triggers: GenericGamepadTriggers,
}

/// Xbox 360 buttons.
#[derive(Debug, Clone, Copy, PartialEq, Eq, Structural)]
pub struct Xbox360Buttons {
    pub face: Xbox360FaceButtons,
    pub shoulders: Xbox360Shoulders,
    pub stick_clicks: Xbox360StickClicks,
    pub system: Xbox360SystemButtons,
}

/// One input state of the Xbox 360 profile.
#[derive(Debug, Clone, Copy, PartialEq, Eq, Structural)]
pub struct Xbox360Input {
    pub buttons: Xbox360Buttons,
    pub dpad: Dpad,
    pub sticks: TwinStickAxes,
    pub triggers: Xbox360Triggers,
}

/// DualSense buttons.
#[derive(Debug, Clone, Copy, PartialEq, Eq, Structural)]
pub struct DualSenseButtons {
    pub face: DualSenseFaceButtons,
    pub shoulders: DualSenseShoulders,
    pub stick_clicks: DualSenseStickClicks,
    pub system: DualSenseSystemButtons,
}

/// The two DualSense touchpad contacts.
#[derive(Debug, Clone, Copy, PartialEq, Eq, Structural)]
pub struct DualSenseTouchpad {
    pub contact_1: DualSenseTouchContact,
    pub contact_2: DualSenseTouchContact,
}

/// One input state of the DualSense profile.
#[derive(Debug, Clone, Copy, PartialEq, Eq, Structural)]
pub struct DualSenseInput {
    pub buttons: DualSenseButtons,
    pub dpad: Dpad,
    pub sticks: TwinStickAxes,
    pub triggers: DualSenseTriggers,
    pub touchpad: DualSenseTouchpad,
}

/// One input state of the Steam Controller profile.
#[derive(Debug, Clone, Copy, PartialEq, Eq, Structural)]
pub struct SteamControllerInput {
    pub buttons: SteamControllerButtons,
    pub sticks: SteamControllerSticks,
    pub triggers: SteamControllerTriggers,
}
/// The input state of one frame, in the shape of the profile it is for.
#[derive(Debug, Clone, Copy, PartialEq, Eq, Structural)]
pub enum ProfileInputPayload {
    GenericGamepad(GenericGamepadInput),
    Xbox360(Xbox360Input),
    DualSense(DualSenseInput),
    SteamController(SteamControllerInput),
}

/// The name a payload's variant is reported by.
pub open spec fn spec_variant_name(payload: ProfileInputPayload) -> Seq<char> {
    match payload {
        ProfileInputPayload::GenericGamepad(_) => "generic-gamepad"@,
        ProfileInputPayload::Xbox360(_) => "xbox360"@,
        ProfileInputPayload::DualSense(_) => "dualsense"@,
        ProfileInputPayload::SteamController(_) => "steam-controller"@,
    }
}

impl ProfileInputPayload {
    /// The name this payload's variant is reported by.
    pub fn variant_name(&self) -> (name: &'static str)
        ensures
            name@ == spec_variant_name(*self),
    {
        match self {
            ProfileInputPayload::GenericGamepad(_) => "generic-gamepad",
            ProfileInputPayload::Xbox360(_) => "xbox360",
            ProfileInputPayload::DualSense(_) => "dualsense",
            ProfileInputPayload::SteamController(_) => "steam-controller",
        }
    }
}

/// One timestamped, sequenced input frame of a profile.
#[derive(Debug, Clone, PartialEq, Eq)]
pub struct ProfileInputFrame {
    pub profile_id: String,
    pub timestamp: u64,
    pub sequence: u64,
    pub payload: ProfileInputPayload,
}

} // verus!
