//! Forward translators: turning a profile input frame into the frame a
//! backend consumes — evdev events for the generic and Xbox-style
//! families, HID input reports for DualSense and the Steam Controller.

use vstd::prelude::*;

use crate::backend_api::BackendFrame;
use crate::bytes::{lemma_le_bytes_len, le_bytes, push_all, push_uint, push_zeros, zeros, ByteOrder};
use crate::inputs::{
    DualSenseInput, GenericGamepadInput, ProfileInputFrame, ProfileInputPayload,
    SteamControllerInput, Xbox360Input, spec_variant_name,
};
use crate::realization::EvdevEvent;
use crate::runtime_model::{BackendLevel, TranslatorFamily};
use crate::translators::{
    bool_bit, dpad_axis, encode_axis_u8, encode_dpad_hat, encode_dualsense_touch_contact,
    encode_trigger_u8, ensure_hid_report_shape, flag, spec_encode_axis_u8, spec_encode_dpad_hat,
    lemma_hat_counts_clockwise_from_up, spec_touch_contact, TranslationError, TranslationScratch,
    TranslatorRegistry,
};
use crate::reverse_translation::spec_forward_registered;

verus! {

pub const EV_KEY: u16 = 0x01;
pub const EV_ABS: u16 = 0x03;
pub const BTN_SOUTH: u16 = 0x130;
pub const BTN_EAST: u16 = 0x131;
pub const BTN_NORTH: u16 = 0x133;
pub const BTN_WEST: u16 = 0x134;
pub const BTN_TL: u16 = 0x136;
pub const BTN_TR: u16 = 0x137;
pub const BTN_SELECT: u16 = 0x13a;
pub const BTN_START: u16 = 0x13b;
pub const BTN_MODE: u16 = 0x13c;
pub const BTN_THUMBL: u16 = 0x13d;
pub const BTN_THUMBR: u16 = 0x13e;
pub const ABS_X: u16 = 0x00;
pub const ABS_Y: u16 = 0x01;
pub const ABS_Z: u16 = 0x02;
pub const ABS_RX: u16 = 0x03;
pub const ABS_RY: u16 = 0x04;
pub const ABS_RZ: u16 = 0x05;
pub const ABS_HAT0X: u16 = 0x10;
pub const ABS_HAT0Y: u16 = 0x11;
pub const DUALSENSE_INPUT_REPORT_ID: u8 = 0x01;
pub const DUALSENSE_INPUT_REPORT_LEN: usize = 64;
pub const STEAM_CONTROLLER_INPUT_REPORT_ID: u8 = 0x01;
pub const STEAM_CONTROLLER_INPUT_REPORT_LEN: usize = 18;

// ---------------------------------------------------------------------
// Evdev frames
// ---------------------------------------------------------------------

/// A key event: value 1 when pressed, 0 when released.
pub open spec fn key_event(code: u16, pressed: bool) -> EvdevEvent {
    EvdevEvent { event_type: EV_KEY, code, value: if pressed { 1i32 } else { 0i32 } }
}

/// An absolute-axis event.
pub open spec fn abs_event(code: u16, value: i32) -> EvdevEvent {
    EvdevEvent { event_type: EV_ABS, code, value }
}

/// A d-pad direction pair as one hat axis.
pub open spec fn hat_axis(negative: bool, positive: bool) -> i32 {
    if negative && !positive {
        -1i32
    } else if !negative && positive {
        1i32
    } else {
        0i32
    }
}

/// The evdev events of a generic gamepad frame: eleven buttons, the two
/// hat axes, the four stick axes and the two triggers, in that order.
pub open spec fn generic_evdev_events(p: GenericGamepadInput) -> Seq<EvdevEvent> {
    seq![
        key_event(BTN_SOUTH, p.buttons.south),
        key_event(BTN_EAST, p.buttons.east),
        key_event(BTN_WEST, p.buttons.west),
        key_event(BTN_NORTH, p.buttons.north),
        key_event(BTN_TL, p.buttons.left_shoulder),
        key_event(BTN_TR, p.buttons.right_shoulder),
        key_event(BTN_THUMBL, p.buttons.left_stick_button),
        key_event(BTN_THUMBR, p.buttons.right_stick_button),
        key_event(BTN_START, p.buttons.menu_primary),
        key_event(BTN_SELECT, p.buttons.menu_secondary),
        key_event(BTN_MODE, p.buttons.guide),
        abs_event(ABS_HAT0X, hat_axis(p.dpad.left, p.dpad.right)),
        abs_event(ABS_HAT0Y, hat_axis(p.dpad.up, p.dpad.down)),
        abs_event(ABS_X, p.sticks.left_x as i32),
        abs_event(ABS_Y, p.sticks.left_y as i32),
        abs_event(ABS_RX, p.sticks.right_x as i32),
        abs_event(ABS_RY, p.sticks.right_y as i32),
        abs_event(ABS_Z, p.triggers.left_trigger as i32),
        abs_event(ABS_RZ, p.triggers.right_trigger as i32),
    ]
}

/// The evdev events of an Xbox 360 frame, laid out as the generic ones:
/// A/B/X/Y on south/east/west/north, start/back/guide on
/// start/select/mode.
pub open spec fn xbox_evdev_events(p: Xbox360Input) -> Seq<EvdevEvent> {
    seq![
        key_event(BTN_SOUTH, p.buttons.face.a),
        key_event(BTN_EAST, p.buttons.face.b),
        key_event(BTN_WEST, p.buttons.face.x),
        key_event(BTN_NORTH, p.buttons.face.y),
        key_event(BTN_TL, p.buttons.shoulders.lb),
        key_event(BTN_TR, p.buttons.shoulders.rb),
        key_event(BTN_THUMBL, p.buttons.stick_clicks.ls),
        key_event(BTN_THUMBR, p.buttons.stick_clicks.rs),
        key_event(BTN_START, p.buttons.system.start),
        key_event(BTN_SELECT, p.buttons.system.back),
        key_event(BTN_MODE, p.buttons.system.guide),
        abs_event(ABS_HAT0X, hat_axis(p.dpad.left, p.dpad.right)),
        abs_event(ABS_HAT0Y, hat_axis(p.dpad.up, p.dpad.down)),
        abs_event(ABS_X, p.sticks.left_x as i32),
        abs_event(ABS_Y, p.sticks.left_y as i32),
        abs_event(ABS_RX, p.sticks.right_x as i32),
        abs_event(ABS_RY, p.sticks.right_y as i32),
        abs_event(ABS_Z, p.triggers.lt as i32),
        abs_event(ABS_RZ, p.triggers.rt as i32),
    ]
}

/// `events` report `value` under `event_type` and `code`: an event with
/// that value is there, and every event of that type and code carries it.
pub open spec fn carries(events: Seq<EvdevEvent>, event_type: u16, code: u16, value: i32) -> bool {
    &&& exists|i: int| 0 <= i < events.len() && events[i] == EvdevEvent { event_type, code, value }
    &&& forall|i: int|
        0 <= i < events.len() && (#[trigger] events[i]).event_type == event_type && events[i].code == code
            ==> events[i].value == value
}

/// A button as an evdev key value: 1 pressed, 0 released.
pub open spec fn key_value(pressed: bool) -> i32 {
    if pressed {
        1i32
    } else {
        0i32
    }
}

/// A pair of opposite d-pad directions as an evdev hat value: -1 toward
/// the first alone, 1 toward the second alone, else 0.
pub open spec fn hat_value(negative: bool, positive: bool) -> i32 {
    if negative && !positive {
        -1i32
    } else if positive && !negative {
        1i32
    } else {
        0i32
    }
}

/// Every Xbox 360 control is reported on the evdev code the evdev ABI
/// assigns it (`EV_KEY` is 1, `EV_ABS` is 3): the left stick on `ABS_X`
/// (0) and `ABS_Y` (1), the right stick on `ABS_RX` (3) and `ABS_RY` (4),
/// LT and RT on `ABS_Z` (2) and `ABS_RZ` (5), the d-pad on `ABS_HAT0X`
/// (0x10, left negative) and `ABS_HAT0Y` (0x11, up negative), A, B, X, Y
/// on `BTN_SOUTH`, `BTN_EAST`, `BTN_WEST`, `BTN_NORTH` (0x130, 0x131,
/// 0x134, 0x133), LB and RB on `BTN_TL` and `BTN_TR` (0x136, 0x137), the
/// stick clicks on `BTN_THUMBL` and `BTN_THUMBR` (0x13d, 0x13e), and
/// start, back and guide on `BTN_START`, `BTN_SELECT` and `BTN_MODE`
/// (0x13b, 0x13a, 0x13c).
pub proof fn lemma_xbox_evdev_codes(p: Xbox360Input)
    ensures
        ({
            let events = xbox_evdev_events(p);
            &&& carries(events, 3, 0, p.sticks.left_x as i32)
            &&& carries(events, 3, 1, p.sticks.left_y as i32)
            &&& carries(events, 3, 3, p.sticks.right_x as i32)
            &&& carries(events, 3, 4, p.sticks.right_y as i32)
            &&& carries(events, 3, 2, p.triggers.lt as i32)
            &&& carries(events, 3, 5, p.triggers.rt as i32)
            &&& carries(events, 3, 0x10, hat_value(p.dpad.left, p.dpad.right))
            &&& carries(events, 3, 0x11, hat_value(p.dpad.up, p.dpad.down))
            &&& carries(events, 1, 0x130, key_value(p.buttons.face.a))
            &&& carries(events, 1, 0x131, key_value(p.buttons.face.b))
            &&& carries(events, 1, 0x134, key_value(p.buttons.face.x))
            &&& carries(events, 1, 0x133, key_value(p.buttons.face.y))
            &&& carries(events, 1, 0x136, key_value(p.buttons.shoulders.lb))
            &&& carries(events, 1, 0x137, key_value(p.buttons.shoulders.rb))
            &&& carries(events, 1, 0x13d, key_value(p.buttons.stick_clicks.ls))
            &&& carries(events, 1, 0x13e, key_value(p.buttons.stick_clicks.rs))
            &&& carries(events, 1, 0x13b, key_value(p.buttons.system.start))
            &&& carries(events, 1, 0x13a, key_value(p.buttons.system.back))
            &&& carries(events, 1, 0x13c, key_value(p.buttons.system.guide))
        }),
{
    let events = xbox_evdev_events(p);
    assert(events.len() == 19);
    assert(events[0].code == 0x130 && events[1].code == 0x131 && events[2].code == 0x134 && events[3].code
        == 0x133 && events[4].code == 0x136 && events[5].code == 0x137 && events[6].code == 0x13d
        && events[7].code == 0x13e && events[8].code == 0x13b && events[9].code == 0x13a && events[10].code
        == 0x13c && events[11].code == 0x10 && events[12].code == 0x11 && events[13].code == 0 && events[14].code
        == 1 && events[15].code == 3 && events[16].code == 4 && events[17].code == 2 && events[18].code == 5);
    assert(forall|i: int| 0 <= i < 11 ==> #[trigger] events[i].event_type == 1);
    assert(forall|i: int| 11 <= i < 19 ==> #[trigger] events[i].event_type == 3);
}

/// Every generic gamepad control is reported on the evdev code the evdev
/// ABI assigns it: the sticks on `ABS_X`, `ABS_Y`, `ABS_RX`, `ABS_RY` (0,
/// 1, 3, 4), the triggers on `ABS_Z` and `ABS_RZ` (2, 5), the d-pad on the
/// hat axes (0x10, 0x11), and the buttons on `BTN_SOUTH` to `BTN_MODE` as
/// their names say.
pub proof fn lemma_generic_evdev_codes(p: GenericGamepadInput)
    ensures
        ({
            let events = generic_evdev_events(p);
            &&& carries(events, 3, 0, p.sticks.left_x as i32)
            &&& carries(events, 3, 1, p.sticks.left_y as i32)
            &&& carries(events, 3, 3, p.sticks.right_x as i32)
            &&& carries(events, 3, 4, p.sticks.right_y as i32)
            &&& carries(events, 3, 2, p.triggers.left_trigger as i32)
            &&& carries(events, 3, 5, p.triggers.right_trigger as i32)
            &&& carries(events, 3, 0x10, hat_value(p.dpad.left, p.dpad.right))
            &&& carries(events, 3, 0x11, hat_value(p.dpad.up, p.dpad.down))
            &&& carries(events, 1, 0x130, key_value(p.buttons.south))
            &&& carries(events, 1, 0x131, key_value(p.buttons.east))
            &&& carries(events, 1, 0x134, key_value(p.buttons.west))
            &&& carries(events, 1, 0x133, key_value(p.buttons.north))
            &&& carries(events, 1, 0x136, key_value(p.buttons.left_shoulder))
            &&& carries(events, 1, 0x137, key_value(p.buttons.right_shoulder))
            &&& carries(events, 1, 0x13d, key_value(p.buttons.left_stick_button))
            &&& carries(events, 1, 0x13e, key_value(p.buttons.right_stick_button))
            &&& carries(events, 1, 0x13b, key_value(p.buttons.menu_primary))
            &&& carries(events, 1, 0x13a, key_value(p.buttons.menu_secondary))
            &&& carries(events, 1, 0x13c, key_value(p.buttons.guide))
        }),
{
    let events = generic_evdev_events(p);
    assert(events.len() == 19);
    assert(events[0].code == 0x130 && events[1].code == 0x131 && events[2].code == 0x134 && events[3].code
        == 0x133 && events[4].code == 0x136 && events[5].code == 0x137 && events[6].code == 0x13d
        && events[7].code == 0x13e && events[8].code == 0x13b && events[9].code == 0x13a && events[10].code
        == 0x13c && events[11].code == 0x10 && events[12].code == 0x11 && events[13].code == 0 && events[14].code
        == 1 && events[15].code == 3 && events[16].code == 4 && events[17].code == 2 && events[18].code == 5);
    assert(forall|i: int| 0 <= i < 11 ==> #[trigger] events[i].event_type == 1);
    assert(forall|i: int| 11 <= i < 19 ==> #[trigger] events[i].event_type == 3);
}

fn key(code: u16, pressed: bool) -> (event: EvdevEvent)
    ensures
        event == key_event(code, pressed),
{
    let value: i32 = if pressed {
        1
    } else {
        0
    };
    EvdevEvent { event_type: EV_KEY, code, value }
}

fn axis(code: u16, value: i32) -> (event: EvdevEvent)
    ensures
        event == abs_event(code, value),
{
    EvdevEvent { event_type: EV_ABS, code, value }
}

/// The evdev events of a generic gamepad frame.
pub fn generic_evdev_event_list(payload: &GenericGamepadInput) -> (events: Vec<EvdevEvent>)
    ensures
        events@ == generic_evdev_events(*payload),
{
    let buttons = payload.buttons;
    let events = vec![
        key(BTN_SOUTH, buttons.south),
        key(BTN_EAST, buttons.east),
        key(BTN_WEST, buttons.west),
        key(BTN_NORTH, buttons.north),
        key(BTN_TL, buttons.left_shoulder),
        key(BTN_TR, buttons.right_shoulder),
        key(BTN_THUMBL, buttons.left_stick_button),
        key(BTN_THUMBR, buttons.right_stick_button),
        key(BTN_START, buttons.menu_primary),
        key(BTN_SELECT, buttons.menu_secondary),
        key(BTN_MODE, buttons.guide),
        axis(ABS_HAT0X, dpad_axis(payload.dpad.left, payload.dpad.right)),
        axis(ABS_HAT0Y, dpad_axis(payload.dpad.up, payload.dpad.down)),
        axis(ABS_X, payload.sticks.left_x as i32),
        axis(ABS_Y, payload.sticks.left_y as i32),
        axis(ABS_RX, payload.sticks.right_x as i32),
        axis(ABS_RY, payload.sticks.right_y as i32),
        axis(ABS_Z, payload.triggers.left_trigger as i32),
        axis(ABS_RZ, payload.triggers.right_trigger as i32),
    ];
    assert(events@ =~= generic_evdev_events(*payload));
    events
}

/// The evdev events of an Xbox 360 frame.
pub fn xbox_evdev_event_list(payload: &Xbox360Input) -> (events: Vec<EvdevEvent>)
    ensures
        events@ == xbox_evdev_events(*payload),
{
    let buttons = payload.buttons;
    let events = vec![
        key(BTN_SOUTH, buttons.face.a),
        key(BTN_EAST, buttons.face.b),
        key(BTN_WEST, buttons.face.x),
        key(BTN_NORTH, buttons.face.y),
        key(BTN_TL, buttons.shoulders.lb),
        key(BTN_TR, buttons.shoulders.rb),
        key(BTN_THUMBL, buttons.stick_clicks.ls),
        key(BTN_THUMBR, buttons.stick_clicks.rs),
        key(BTN_START, buttons.system.start),
        key(BTN_SELECT, buttons.system.back),
        key(BTN_MODE, buttons.system.guide),
        axis(ABS_HAT0X, dpad_axis(payload.dpad.left, payload.dpad.right)),
        axis(ABS_HAT0Y, dpad_axis(payload.dpad.up, payload.dpad.down)),
        axis(ABS_X, payload.sticks.left_x as i32),
        axis(ABS_Y, payload.sticks.left_y as i32),
        axis(ABS_RX, payload.sticks.right_x as i32),
        axis(ABS_RY, payload.sticks.right_y as i32),
        axis(ABS_Z, payload.triggers.lt as i32),
        axis(ABS_RZ, payload.triggers.rt as i32),
    ];
    assert(events@ =~= xbox_evdev_events(*payload));
    events
}

// ---------------------------------------------------------------------
// HID reports
// ---------------------------------------------------------------------

/// DualSense report byte 7: the hat switch in the low nibble, then
/// square, cross, circle and triangle in bits 4 to 7.
pub open spec fn dualsense_face_byte(p: DualSenseInput) -> u8 {
    spec_encode_dpad_hat(p.dpad) | flag(p.buttons.face.square, 4) | flag(p.buttons.face.cross, 5)
        | flag(p.buttons.face.circle, 6) | flag(p.buttons.face.triangle, 7)
}

/// DualSense report byte 8: L1, R1, create, options, L3, R3 in bits 0, 1,
/// 4, 5, 6, 7.
pub open spec fn dualsense_shoulder_byte(p: DualSenseInput) -> u8 {
    flag(p.buttons.shoulders.l1, 0) | flag(p.buttons.shoulders.r1, 1) | flag(
        p.buttons.stick_clicks.l3,
        6,
    ) | flag(p.buttons.stick_clicks.r3, 7) | flag(p.buttons.system.create, 4) | flag(
        p.buttons.system.options,
        5,
    )
}

/// DualSense report byte 9: PS in bit 0, touchpad click in bit 1.
pub open spec fn dualsense_system_byte(p: DualSenseInput) -> u8 {
    flag(p.buttons.system.ps, 0) | flag(p.buttons.system.touchpad_click, 1)
}

/// The 64-byte DualSense USB input report: sticks and triggers scaled to
/// bytes 0 to 5, the button bytes 7 to 9, the two touch contacts at 32
/// and 36, zeros elsewhere.
pub open spec fn dualsense_report(p: DualSenseInput) -> Seq<u8> {
    dualsense_head(p) + zeros(22) + spec_touch_contact(
        p.touchpad.contact_1.active,
        p.touchpad.contact_1.x,
        p.touchpad.contact_1.y,
        0,
    ) + spec_touch_contact(
        p.touchpad.contact_2.active,
        p.touchpad.contact_2.x,
        p.touchpad.contact_2.y,
        1,
    ) + zeros(24)
}

proof fn lemma_face_bits(h: u8, f4: u8, f5: u8, f6: u8, f7: u8)
    requires
        h <= 8,
        f4 == 0 || f4 == 16,
        f5 == 0 || f5 == 32,
        f6 == 0 || f6 == 64,
        f7 == 0 || f7 == 128,
    ensures
        (h | f4 | f5 | f6 | f7) & 15 == h,
        ((h | f4 | f5 | f6 | f7) & 16 != 0) == (f4 != 0),
        ((h | f4 | f5 | f6 | f7) & 32 != 0) == (f5 != 0),
        ((h | f4 | f5 | f6 | f7) & 64 != 0) == (f6 != 0),
        ((h | f4 | f5 | f6 | f7) & 128 != 0) == (f7 != 0),
{
    assert((h | f4 | f5 | f6 | f7) & 15 == h) by (bit_vector)
        requires
            h <= 8,
            f4 == 0 || f4 == 16,
            f5 == 0 || f5 == 32,
            f6 == 0 || f6 == 64,
            f7 == 0 || f7 == 128,
    ;
    assert(((h | f4 | f5 | f6 | f7) & 16 != 0) == (f4 != 0) && ((h | f4 | f5 | f6 | f7) & 32 != 0)
        == (f5 != 0) && ((h | f4 | f5 | f6 | f7) & 64 != 0) == (f6 != 0) && ((h | f4 | f5 | f6 | f7)
        & 128 != 0) == (f7 != 0)) by (bit_vector)
        requires
            h <= 8,
            f4 == 0 || f4 == 16,
            f5 == 0 || f5 == 32,
            f6 == 0 || f6 == 64,
            f7 == 0 || f7 == 128,
    ;
}

/// Byte 7 of a DualSense input report carries the d-pad's hat switch in
/// its low nibble (0 for up, clockwise to 7, 8 for centred) and square,
/// cross, circle and triangle in bits 4 to 7.
pub proof fn lemma_dualsense_byte7_carries_hat_and_face(p: DualSenseInput)
    ensures
        dualsense_report(p).len() == 64,
        dualsense_report(p)[7] & 15 == spec_encode_dpad_hat(p.dpad),
        (dualsense_report(p)[7] & 16 != 0) == p.buttons.face.square,
        (dualsense_report(p)[7] & 32 != 0) == p.buttons.face.cross,
        (dualsense_report(p)[7] & 64 != 0) == p.buttons.face.circle,
        (dualsense_report(p)[7] & 128 != 0) == p.buttons.face.triangle,
{
    lemma_hat_counts_clockwise_from_up(p.dpad);
    reveal(flag);
    assert(1u8 << 4u8 == 16u8 && 1u8 << 5u8 == 32u8 && 1u8 << 6u8 == 64u8 && 1u8 << 7u8 == 128u8)
        by (bit_vector);
    assert(flag(true, 4) == 16u8 && flag(true, 5) == 32u8 && flag(true, 6) == 64u8 && flag(true, 7)
        == 128u8);
    let report = dualsense_report(p);
    assert(report[7] == dualsense_face_byte(p));
    lemma_face_bits(
        spec_encode_dpad_hat(p.dpad),
        flag(p.buttons.face.square, 4),
        flag(p.buttons.face.cross, 5),
        flag(p.buttons.face.circle, 6),
        flag(p.buttons.face.triangle, 7),
    );
}

proof fn lemma_six_bits(b0: u8, b1: u8, b4: u8, b5: u8, b6: u8, b7: u8)
    requires
        b0 == 0 || b0 == 1,
        b1 == 0 || b1 == 2,
        b4 == 0 || b4 == 16,
        b5 == 0 || b5 == 32,
        b6 == 0 || b6 == 64,
        b7 == 0 || b7 == 128,
    ensures
        ({
            let byte = b0 | b1 | b6 | b7 | b4 | b5;
            &&& (byte & 1 != 0) == (b0 != 0)
            &&& (byte & 2 != 0) == (b1 != 0)
            &&& byte & 12 == 0
            &&& (byte & 16 != 0) == (b4 != 0)
            &&& (byte & 32 != 0) == (b5 != 0)
            &&& (byte & 64 != 0) == (b6 != 0)
            &&& (byte & 128 != 0) == (b7 != 0)
        }),
{
    assert({
        let byte = b0 | b1 | b6 | b7 | b4 | b5;
        &&& (byte & 1 != 0) == (b0 != 0)
        &&& (byte & 2 != 0) == (b1 != 0)
        &&& byte & 12 == 0
        &&& (byte & 16 != 0) == (b4 != 0)
        &&& (byte & 32 != 0) == (b5 != 0)
        &&& (byte & 64 != 0) == (b6 != 0)
        &&& (byte & 128 != 0) == (b7 != 0)
    }) by (bit_vector)
        requires
            b0 == 0 || b0 == 1,
            b1 == 0 || b1 == 2,
            b4 == 0 || b4 == 16,
            b5 == 0 || b5 == 32,
            b6 == 0 || b6 == 64,
            b7 == 0 || b7 == 128,
    ;
}

/// The other leading bytes of a DualSense input report: the left stick's
/// x and y, then the right stick's, each scaled to a byte, at 0 to 3; L2
/// and R2 scaled to a byte at 4 and 5; a zero counter at 6; L1, R1,
/// create, options, L3 and R3 in bits 0, 1, 4, 5, 6 and 7 of byte 8 (bits
/// 2 and 3 clear); PS and the touchpad click in bits 0 and 1 of byte 9,
/// the rest clear.
pub proof fn lemma_dualsense_leading_bytes(p: DualSenseInput)
    ensures
        ({
            let report = dualsense_report(p);
            &&& report[0] == spec_encode_axis_u8(p.sticks.left_x) as u8
            &&& report[1] == spec_encode_axis_u8(p.sticks.left_y) as u8
            &&& report[2] == spec_encode_axis_u8(p.sticks.right_x) as u8
            &&& report[3] == spec_encode_axis_u8(p.sticks.right_y) as u8
            &&& report[4] == (p.triggers.l2 / 257) as u8
            &&& report[5] == (p.triggers.r2 / 257) as u8
            &&& report[6] == 0
            &&& (report[8] & 1 != 0) == p.buttons.shoulders.l1
            &&& (report[8] & 2 != 0) == p.buttons.shoulders.r1
            &&& report[8] & 12 == 0
            &&& (report[8] & 16 != 0) == p.buttons.system.create
            &&& (report[8] & 32 != 0) == p.buttons.system.options
            &&& (report[8] & 64 != 0) == p.buttons.stick_clicks.l3
            &&& (report[8] & 128 != 0) == p.buttons.stick_clicks.r3
            &&& (report[9] & 1 != 0) == p.buttons.system.ps
            &&& (report[9] & 2 != 0) == p.buttons.system.touchpad_click
            &&& report[9] & 252 == 0
        }),
{
    reveal(flag);
    assert(1u8 << 0u8 == 1u8 && 1u8 << 1u8 == 2u8 && 1u8 << 4u8 == 16u8 && 1u8 << 5u8 == 32u8
        && 1u8 << 6u8 == 64u8 && 1u8 << 7u8 == 128u8) by (bit_vector);
    let report = dualsense_report(p);
    assert(report[8] == dualsense_shoulder_byte(p));
    assert(report[9] == dualsense_system_byte(p));
    lemma_six_bits(
        flag(p.buttons.shoulders.l1, 0),
        flag(p.buttons.shoulders.r1, 1),
        flag(p.buttons.system.create, 4),
        flag(p.buttons.system.options, 5),
        flag(p.buttons.stick_clicks.l3, 6),
        flag(p.buttons.stick_clicks.r3, 7),
    );
    let ps = flag(p.buttons.system.ps, 0);
    let click = flag(p.buttons.system.touchpad_click, 1);
    assert((ps == 0 || ps == 1) && (click == 0 || click == 2) ==> ((ps | click) & 1 != 0) == (ps != 0)
        && ((ps | click) & 2 != 0) == (click != 0) && (ps | click) & 252 == 0) by (bit_vector);
}

/// Steam Controller report byte 0: A, B, X, Y, left grip, right grip, LB,
/// RB in bits 0 to 7.
pub open spec fn steam_face_byte(p: SteamControllerInput) -> u8 {
    flag(p.buttons.a, 0) | flag(p.buttons.b, 1) | flag(p.buttons.x, 2) | flag(p.buttons.y, 3)
        | flag(p.buttons.left_grip, 4) | flag(p.buttons.right_grip, 5) | flag(p.buttons.lb, 6)
        | flag(p.buttons.rb, 7)
}

/// Steam Controller report byte 1: primary menu, secondary menu, Steam,
/// left pad click, right pad click, left stick click in bits 0 to 5.
pub open spec fn steam_menu_byte(p: SteamControllerInput) -> u8 {
    flag(p.buttons.menu_primary, 0) | flag(p.buttons.menu_secondary, 1) | flag(p.buttons.steam, 2)
        | flag(p.buttons.left_pad_click, 3) | flag(p.buttons.right_pad_click, 4) | flag(
        p.buttons.left_stick_click,
        5,
    )
}

/// The little-endian two bytes of a signed axis.
pub open spec fn axis_le(value: i16) -> Seq<u8> {
    le_bytes(value as u16 as nat, 2)
}

/// The 18-byte Steam Controller input report: the two button bytes, then
/// the six pad and stick axes and the two triggers, each little-endian.
pub open spec fn steam_report(p: SteamControllerInput) -> Seq<u8> {
    seq![steam_face_byte(p), steam_menu_byte(p)] + axis_le(p.sticks.left_pad_x) + axis_le(
        p.sticks.left_pad_y,
    ) + axis_le(p.sticks.right_pad_x) + axis_le(p.sticks.right_pad_y) + axis_le(
        p.sticks.left_stick_x,
    ) + axis_le(p.sticks.left_stick_y) + le_bytes(p.triggers.lt as nat, 2) + le_bytes(
        p.triggers.rt as nat,
        2,
    )
}

/// Append the four bytes of a touch contact.
fn push_touch_contact(bytes: &mut Vec<u8>, active: bool, x: u16, y: u16, counter: u8)
    ensures
        final(bytes)@ == old(bytes)@ + spec_touch_contact(active, x, y, counter),
{
    push_zeros(bytes, 4);
    let offset: usize = bytes.len() - 4;
    let ghost padded = bytes@;
    encode_dualsense_touch_contact(bytes, offset, active, x, y, counter);
    assert(padded.subrange(0, offset as int) =~= old(bytes)@);
    assert(padded.subrange(offset + 4, padded.len() as int) =~= Seq::<u8>::empty());
    assert(bytes@ =~= old(bytes)@ + spec_touch_contact(active, x, y, counter));
}

/// The first ten bytes of the DualSense report: sticks, triggers, a zero
/// byte and the three button bytes.
pub open spec fn dualsense_head(p: DualSenseInput) -> Seq<u8> {
    seq![
        spec_encode_axis_u8(p.sticks.left_x) as u8,
        spec_encode_axis_u8(p.sticks.left_y) as u8,
        spec_encode_axis_u8(p.sticks.right_x) as u8,
        spec_encode_axis_u8(p.sticks.right_y) as u8,
        (p.triggers.l2 / 257) as u8,
        (p.triggers.r2 / 257) as u8,
        0u8,
        dualsense_face_byte(p),
        dualsense_shoulder_byte(p),
        dualsense_system_byte(p),
    ]
}

fn dualsense_face_value(payload: &DualSenseInput) -> (byte: u8)
    ensures
        byte == dualsense_face_byte(*payload),
{
    let face = payload.buttons.face;
    encode_dpad_hat(payload.dpad) | bool_bit(face.square, 4) | bool_bit(face.cross, 5) | bool_bit(
        face.circle,
        6,
    ) | bool_bit(face.triangle, 7)
}

fn dualsense_shoulder_value(payload: &DualSenseInput) -> (byte: u8)
    ensures
        byte == dualsense_shoulder_byte(*payload),
{
    let buttons = payload.buttons;
    bool_bit(buttons.shoulders.l1, 0) | bool_bit(buttons.shoulders.r1, 1) | bool_bit(
        buttons.stick_clicks.l3,
        6,
    ) | bool_bit(buttons.stick_clicks.r3, 7) | bool_bit(buttons.system.create, 4) | bool_bit(
        buttons.system.options,
        5,
    )
}

fn dualsense_system_value(payload: &DualSenseInput) -> (byte: u8)
    ensures
        byte == dualsense_system_byte(*payload),
{
    bool_bit(payload.buttons.system.ps, 0) | bool_bit(payload.buttons.system.touchpad_click, 1)
}

fn fill_dualsense_head(bytes: &mut Vec<u8>, payload: &DualSenseInput)
    ensures
        final(bytes)@ == dualsense_head(*payload),
{
    let face = dualsense_face_value(payload);
    let shoulders = dualsense_shoulder_value(payload);
    let system = dualsense_system_value(payload);
    bytes.clear();
    bytes.push(encode_axis_u8(payload.sticks.left_x));
    bytes.push(encode_axis_u8(payload.sticks.left_y));
    bytes.push(encode_axis_u8(payload.sticks.right_x));
    bytes.push(encode_axis_u8(payload.sticks.right_y));
    bytes.push(encode_trigger_u8(payload.triggers.l2));
    bytes.push(encode_trigger_u8(payload.triggers.r2));
    bytes.push(0);
    bytes.push(face);
    bytes.push(shoulders);
    bytes.push(system);
    assert(bytes@ =~= dualsense_head(*payload));
}

/// Build the DualSense report into `bytes`, replacing what it held.
fn fill_dualsense_report(bytes: &mut Vec<u8>, payload: &DualSenseInput)
    ensures
        final(bytes)@ == dualsense_report(*payload),
        final(bytes)@.len() == DUALSENSE_INPUT_REPORT_LEN,
{
    fill_dualsense_head(bytes, payload);
    push_zeros(bytes, 22);
    let touch = payload.touchpad;
    push_touch_contact(bytes, touch.contact_1.active, touch.contact_1.x, touch.contact_1.y, 0);
    push_touch_contact(bytes, touch.contact_2.active, touch.contact_2.x, touch.contact_2.y, 1);
    push_zeros(bytes, 24);
}

fn steam_face_value(payload: &SteamControllerInput) -> (byte: u8)
    ensures
        byte == steam_face_byte(*payload),
{
    let buttons = payload.buttons;
    bool_bit(buttons.a, 0) | bool_bit(buttons.b, 1) | bool_bit(buttons.x, 2) | bool_bit(buttons.y, 3)
        | bool_bit(buttons.left_grip, 4) | bool_bit(buttons.right_grip, 5) | bool_bit(buttons.lb, 6)
        | bool_bit(buttons.rb, 7)
}

fn steam_menu_value(payload: &SteamControllerInput) -> (byte: u8)
    ensures
        byte == steam_menu_byte(*payload),
{
    let buttons = payload.buttons;
    bool_bit(buttons.menu_primary, 0) | bool_bit(buttons.menu_secondary, 1) | bool_bit(
        buttons.steam,
        2,
    ) | bool_bit(buttons.left_pad_click, 3) | bool_bit(buttons.right_pad_click, 4) | bool_bit(
        buttons.left_stick_click,
        5,
    )
}

/// The two button bytes of the Steam Controller report.
fn fill_steam_buttons(bytes: &mut Vec<u8>, payload: &SteamControllerInput)
    ensures
        final(bytes)@ == seq![steam_face_byte(*payload), steam_menu_byte(*payload)],
{
    let face = steam_face_value(payload);
    let menu = steam_menu_value(payload);
    bytes.clear();
    bytes.push(face);
    bytes.push(menu);
    assert(bytes@ =~= seq![steam_face_byte(*payload), steam_menu_byte(*payload)]);
}

/// Build the Steam Controller report into `bytes`, replacing what it held.
fn fill_steam_report(bytes: &mut Vec<u8>, payload: &SteamControllerInput)
    ensures
        final(bytes)@ == steam_report(*payload),
        final(bytes)@.len() == STEAM_CONTROLLER_INPUT_REPORT_LEN,
{
    fill_steam_buttons(bytes, payload);
    let sticks = payload.sticks;
    push_uint(bytes, sticks.left_pad_x as u16 as u64, 2, ByteOrder::Little);
    push_uint(bytes, sticks.left_pad_y as u16 as u64, 2, ByteOrder::Little);
    push_uint(bytes, sticks.right_pad_x as u16 as u64, 2, ByteOrder::Little);
    push_uint(bytes, sticks.right_pad_y as u16 as u64, 2, ByteOrder::Little);
    push_uint(bytes, sticks.left_stick_x as u16 as u64, 2, ByteOrder::Little);
    push_uint(bytes, sticks.left_stick_y as u16 as u64, 2, ByteOrder::Little);
    push_uint(bytes, payload.triggers.lt as u64, 2, ByteOrder::Little);
    push_uint(bytes, payload.triggers.rt as u64, 2, ByteOrder::Little);
    proof {
        lemma_le_bytes_len(sticks.left_pad_x as u16 as nat, 2);
        lemma_le_bytes_len(sticks.left_pad_y as u16 as nat, 2);
        lemma_le_bytes_len(sticks.right_pad_x as u16 as nat, 2);
        lemma_le_bytes_len(sticks.right_pad_y as u16 as nat, 2);
        lemma_le_bytes_len(sticks.left_stick_x as u16 as nat, 2);
        lemma_le_bytes_len(sticks.left_stick_y as u16 as nat, 2);
        lemma_le_bytes_len(payload.triggers.lt as nat, 2);
        lemma_le_bytes_len(payload.triggers.rt as nat, 2);
    }
}

// ---------------------------------------------------------------------
// Translators
// ---------------------------------------------------------------------

/// The reason a translator gives for a payload of the wrong profile.
pub open spec fn wrong_payload_reason(
    translator: Seq<char>,
    expected: Seq<char>,
    payload: ProfileInputPayload,
) -> Seq<char> {
    translator + " expected "@ + expected + " payload, got `"@ + spec_variant_name(payload) + "`"@
}

fn wrong_payload(translator: &str, expected: &str, payload: &ProfileInputPayload) -> (error:
    TranslationError)
    ensures
        error matches TranslationError::InvalidInput { reason } && reason@ == wrong_payload_reason(
            translator@,
            expected@,
            *payload,
        ),
{
    let mut reason = String::from_str(translator);
    reason.append(" expected ");
    reason.append(expected);
    reason.append(" payload, got `");
    reason.append(payload.variant_name());
    reason.append("`");
    TranslationError::InvalidInput { reason }
}

/// What the generic evdev translator gives for a payload.
pub open spec fn generic_evdev_outcome(
    payload: ProfileInputPayload,
    result: Result<BackendFrame, TranslationError>,
) -> bool {
    match payload {
        ProfileInputPayload::GenericGamepad(p) => result matches Ok(
            BackendFrame::EvdevEvents { events },
        ) && events@ == generic_evdev_events(p),
        _ => result matches Err(TranslationError::InvalidInput { reason }) && reason@
            == wrong_payload_reason("generic evdev translator"@, "generic-gamepad"@, payload),
    }
}

/// What the Xbox-style evdev translator gives for a payload.
pub open spec fn xbox_evdev_outcome(
    payload: ProfileInputPayload,
    result: Result<BackendFrame, TranslationError>,
) -> bool {
    match payload {
        ProfileInputPayload::Xbox360(p) => result matches Ok(BackendFrame::EvdevEvents { events })
            && events@ == xbox_evdev_events(p),
        _ => result matches Err(TranslationError::InvalidInput { reason }) && reason@
            == wrong_payload_reason("xbox-style evdev translator"@, "xbox360"@, payload),
    }
}

/// What the DualSense HID translator gives for a payload, and what it
/// leaves in the scratch buffer.
pub open spec fn dualsense_hid_outcome(
    payload: ProfileInputPayload,
    scratch_before: Seq<u8>,
    scratch_after: Seq<u8>,
    result: Result<BackendFrame, TranslationError>,
) -> bool {
    match payload {
        ProfileInputPayload::DualSense(p) => {
            &&& result matches Ok(BackendFrame::HidInputReport { report_id, bytes }) && report_id
                == Some(DUALSENSE_INPUT_REPORT_ID) && bytes@ == dualsense_report(p)
            &&& scratch_after == dualsense_report(p)
        },
        _ => {
            &&& result matches Err(TranslationError::InvalidInput { reason }) && reason@
                == wrong_payload_reason("DualSense HID translator"@, "dualsense"@, payload)
            &&& scratch_after == scratch_before
        },
    }
}

/// What the Steam Controller HID translator gives for a payload, and what
/// it leaves in the scratch buffer.
pub open spec fn steam_hid_outcome(
    payload: ProfileInputPayload,
    scratch_before: Seq<u8>,
    scratch_after: Seq<u8>,
    result: Result<BackendFrame, TranslationError>,
) -> bool {
    match payload {
        ProfileInputPayload::SteamController(p) => {
            &&& result matches Ok(BackendFrame::HidInputReport { report_id, bytes }) && report_id
                == Some(STEAM_CONTROLLER_INPUT_REPORT_ID) && bytes@ == steam_report(p)
            &&& scratch_after == steam_report(p)
        },
        _ => {
            &&& result matches Err(TranslationError::InvalidInput { reason }) && reason@
                == wrong_payload_reason(
                "Steam Controller HID translator"@,
                "steam-controller"@,
                payload,
            )
            &&& scratch_after == scratch_before
        },
    }
}

/// Generic gamepad frames as evdev events.
pub fn translate_generic_evdev(input: &ProfileInputFrame) -> (result: Result<
    BackendFrame,
    TranslationError,
>)
    ensures
        generic_evdev_outcome(input.payload, result),
{
    match &input.payload {
        ProfileInputPayload::GenericGamepad(payload) => Ok(
            BackendFrame::EvdevEvents { events: generic_evdev_event_list(payload) },
        ),
        _ => Err(wrong_payload("generic evdev translator", "generic-gamepad", &input.payload)),
    }
}

/// Xbox 360 frames as evdev events.
pub fn translate_xbox_evdev(input: &ProfileInputFrame) -> (result: Result<
    BackendFrame,
    TranslationError,
>)
    ensures
        xbox_evdev_outcome(input.payload, result),
{
    match &input.payload {
        ProfileInputPayload::Xbox360(payload) => Ok(
            BackendFrame::EvdevEvents { events: xbox_evdev_event_list(payload) },
        ),
        _ => Err(wrong_payload("xbox-style evdev translator", "xbox360", &input.payload)),
    }
}

/// DualSense frames as 64-byte USB HID input reports, built in `out`.
pub fn translate_dualsense_hid(input: &ProfileInputFrame, out: &mut TranslationScratch) -> (result:
    Result<BackendFrame, TranslationError>)
    ensures
        dualsense_hid_outcome(input.payload, old(out).bytes@, final(out).bytes@, result),
{
    match &input.payload {
        ProfileInputPayload::DualSense(payload) => {
            fill_dualsense_report(&mut out.bytes, payload);
            let shape = ensure_hid_report_shape(
                "dualsense",
                out.bytes.as_slice(),
                DUALSENSE_INPUT_REPORT_LEN,
            );
            if let Err(error) = shape {
                return Err(error);
            }
            let mut bytes: Vec<u8> = Vec::new();
            push_all(&mut bytes, out.bytes.as_slice());
            assert(bytes@ =~= out.bytes@);
            Ok(BackendFrame::HidInputReport { report_id: Some(DUALSENSE_INPUT_REPORT_ID), bytes })
        },
        _ => Err(wrong_payload("DualSense HID translator", "dualsense", &input.payload)),
    }
}

/// Steam Controller frames as 18-byte HID input reports, built in `out`.
pub fn translate_steam_hid(input: &ProfileInputFrame, out: &mut TranslationScratch) -> (result:
    Result<BackendFrame, TranslationError>)
    ensures
        steam_hid_outcome(input.payload, old(out).bytes@, final(out).bytes@, result),
{
    match &input.payload {
        ProfileInputPayload::SteamController(payload) => {
            fill_steam_report(&mut out.bytes, payload);
            let shape = ensure_hid_report_shape(
                "steam-controller",
                out.bytes.as_slice(),
                STEAM_CONTROLLER_INPUT_REPORT_LEN,
            );
            if let Err(error) = shape {
                return Err(error);
            }
            let mut bytes: Vec<u8> = Vec::new();
            push_all(&mut bytes, out.bytes.as_slice());
            assert(bytes@ =~= out.bytes@);
            Ok(
                BackendFrame::HidInputReport {
                    report_id: Some(STEAM_CONTROLLER_INPUT_REPORT_ID),
                    bytes,
                },
            )
        },
        _ => Err(
            wrong_payload("Steam Controller HID translator", "steam-controller", &input.payload),
        ),
    }
}

impl TranslatorRegistry {
    /// Run the forward translator registered for `(family, level)`; `None`
    /// (with `out` unchanged) when there is none.
    pub fn translate_forward(
        &self,
        family: TranslatorFamily,
        level: BackendLevel,
        input: &ProfileInputFrame,
        out: &mut TranslationScratch,
    ) -> (result: Option<Result<BackendFrame, TranslationError>>)
        ensures
            result is None <==> !spec_forward_registered(family, level),
            match result {
                None => final(out).bytes@ == old(out).bytes@,
                Some(r) => match family {
                    TranslatorFamily::GenericGamepad => generic_evdev_outcome(input.payload, r)
                        && final(out).bytes@ == old(out).bytes@,
                    TranslatorFamily::XboxStyle => xbox_evdev_outcome(input.payload, r)
                        && final(out).bytes@ == old(out).bytes@,
                    TranslatorFamily::DualSense => dualsense_hid_outcome(
                        input.payload,
                        old(out).bytes@,
                        final(out).bytes@,
                        r,
                    ),
                    TranslatorFamily::SteamController => steam_hid_outcome(
                        input.payload,
                        old(out).bytes@,
                        final(out).bytes@,
                        r,
                    ),
                    TranslatorFamily::Unresolved => false,
                },
            },
    {
        match (family, level) {
            (TranslatorFamily::GenericGamepad, BackendLevel::Evdev) => Some(
                translate_generic_evdev(input),
            ),
            (TranslatorFamily::XboxStyle, BackendLevel::Evdev) => Some(translate_xbox_evdev(input)),
            (TranslatorFamily::DualSense, BackendLevel::Hid) => Some(
                translate_dualsense_hid(input, out),
            ),
            (TranslatorFamily::SteamController, BackendLevel::Hid) => Some(
                translate_steam_hid(input, out),
            ),
            _ => None,
        }
    }
}

} // verus!
