//! Value encodings shared by the forward and reverse translators, the
//! translation error, and the translator scratch area.

use vstd::prelude::*;

use crate::inputs::Dpad;
use crate::profiles::ProfileFamily;
use crate::runtime_model::{BackendLevel, TranslatorFamily};
use crate::text::{decimal, push_decimal};

verus! {

/// Errors raised by forward or reverse translation.
#[derive(Debug, Clone, PartialEq, Eq)]
#[non_exhaustive]
pub enum TranslationError {
    NoTranslatorRegistered { family: TranslatorFamily, level: BackendLevel },
    InvalidInput { reason: String },
    InvalidReverseEvent { reason: String },
    DescriptorUnavailable,
    DescriptorViolation { reason: String },
}

/// The name a translator family is printed with.
pub open spec fn family_debug_name(family: TranslatorFamily) -> Seq<char> {
    match family {
        TranslatorFamily::Unresolved => "Unresolved"@,
        TranslatorFamily::GenericGamepad => "GenericGamepad"@,
        TranslatorFamily::XboxStyle => "XboxStyle"@,
        TranslatorFamily::DualSense => "DualSense"@,
        TranslatorFamily::SteamController => "SteamController"@,
    }
}

/// The name a backend level is printed with.
pub open spec fn level_debug_name(level: BackendLevel) -> Seq<char> {
    match level {
        BackendLevel::Evdev => "Evdev"@,
        BackendLevel::Hid => "Hid"@,
        BackendLevel::Transport => "Transport"@,
    }
}

fn family_name_text(family: TranslatorFamily) -> (text: &'static str)
    ensures
        text@ == family_debug_name(family),
{
    match family {
        TranslatorFamily::Unresolved => "Unresolved",
        TranslatorFamily::GenericGamepad => "GenericGamepad",
        TranslatorFamily::XboxStyle => "XboxStyle",
        TranslatorFamily::DualSense => "DualSense",
        TranslatorFamily::SteamController => "SteamController",
    }
}

fn level_name_text(level: BackendLevel) -> (text: &'static str)
    ensures
        text@ == level_debug_name(level),
{
    match level {
        BackendLevel::Evdev => "Evdev",
        BackendLevel::Hid => "Hid",
        BackendLevel::Transport => "Transport",
    }
}

impl TranslationError {
    pub open spec fn spec_message(&self) -> Seq<char> {
        match self {
            TranslationError::NoTranslatorRegistered { family, level } => "profile family `"@
                + family_debug_name(*family) + "` has no registered translator for backend level `"@
                + level_debug_name(*level) + "`"@,
            TranslationError::InvalidInput { reason } =>
                "input frame does not satisfy the profile contract: "@ + reason@,
            TranslationError::InvalidReverseEvent { reason } =>
                "reverse event payload is malformed: "@ + reason@,
            TranslationError::DescriptorUnavailable =>
                "descriptor template is unavailable for the selected fidelity tier"@,
            TranslationError::DescriptorViolation { reason } =>
                "translation produced a frame that violates the descriptor: "@ + reason@,
        }
    }

    /// The error's human-readable message.
    pub fn message(&self) -> (text: String)
        ensures
            text@ == self.spec_message(),
    {
        match self {
            TranslationError::NoTranslatorRegistered { family, level } => {
                let mut text = String::from_str("profile family `");
                text.append(family_name_text(*family));
                text.append("` has no registered translator for backend level `");
                text.append(level_name_text(*level));
                text.append("`");
                text
            },
            TranslationError::InvalidInput { reason } => {
                let mut text = String::from_str("input frame does not satisfy the profile contract: ");
                text.append(reason.as_str());
                text
            },
            TranslationError::InvalidReverseEvent { reason } => {
                let mut text = String::from_str("reverse event payload is malformed: ");
                text.append(reason.as_str());
                text
            },
            TranslationError::DescriptorUnavailable => String::from_str(
                "descriptor template is unavailable for the selected fidelity tier",
            ),
            TranslationError::DescriptorViolation { reason } => {
                let mut text = String::from_str(
                    "translation produced a frame that violates the descriptor: ",
                );
                text.append(reason.as_str());
                text
            },
        }
    }
}

/// Reusable per-session scratch area for forward translators.
#[derive(Debug, Default, Clone)]
pub struct TranslationScratch {
    pub bytes: Vec<u8>,
}

impl TranslationScratch {
    pub fn new() -> (scratch: Self)
        ensures
            scratch.bytes@ == Seq::<u8>::empty(),
    {
        TranslationScratch { bytes: Vec::new() }
    }

    /// Clear the scratch buffer without releasing its allocation.
    pub fn clear(&mut self)
        ensures
            final(self).bytes@ == Seq::<u8>::empty(),
    {
        self.bytes.clear();
    }
}

/// Closed translator registry: a zero-sized facade over the built-in
/// translators.
#[derive(Debug, Default)]
pub struct TranslatorRegistry {
    _private: (),
}

impl TranslatorRegistry {
    pub fn new() -> (registry: Self) {
        TranslatorRegistry { _private: () }
    }
}

/// The kebab-case name of a profile family.
pub open spec fn spec_profile_family_name(family: ProfileFamily) -> Seq<char> {
    match family {
        ProfileFamily::GenericGamepad => "generic-gamepad"@,
        ProfileFamily::Xbox360 => "xbox360"@,
        ProfileFamily::DualSense => "dualsense"@,
        ProfileFamily::SteamController => "steam-controller"@,
    }
}

pub fn profile_family_name(family: ProfileFamily) -> (name: &'static str)
    ensures
        name@ == spec_profile_family_name(family),
{
    match family {
        ProfileFamily::GenericGamepad => "generic-gamepad",
        ProfileFamily::Xbox360 => "xbox360",
        ProfileFamily::DualSense => "dualsense",
        ProfileFamily::SteamController => "steam-controller",
    }
}

/// A d-pad direction pair as one axis: `-1` for the negative direction
/// alone, `1` for the positive one alone, `0` otherwise.
pub fn dpad_axis(negative: bool, positive: bool) -> (axis: i32)
    ensures
        axis == (if negative && !positive {
            -1int
        } else if !negative && positive {
            1int
        } else {
            0int
        }),
{
    if negative && !positive {
        -1
    } else if !negative && positive {
        1
    } else {
        0
    }
}

/// A signed 16-bit axis scaled onto `0..=255`.
pub open spec fn spec_encode_axis_u8(value: i16) -> int {
    ((value as int + 32768) * 255) / 65535
}

pub fn encode_axis_u8(value: i16) -> (encoded: u8)
    ensures
        encoded == spec_encode_axis_u8(value),
{
    let scaled: i32 = value as i32 + 32768;
    assert(0 <= scaled * 255 / 65535 <= 255) by (nonlinear_arith)
        requires
            0 <= scaled <= 65535,
    ;
    ((scaled * 255) / 65535) as u8
}

/// A 16-bit trigger value scaled onto `0..=255`.
pub fn encode_trigger_u8(value: u16) -> (encoded: u8)
    ensures
        encoded == value / 257,
{
    (value / 257) as u8
}

/// An 8-bit value scaled onto the full 16-bit range.
pub fn scale_u8_to_u16(value: u8) -> (scaled: u16)
    ensures
        scaled == value * 257,
{
    value as u16 * 257
}

/// Scaling an 8-bit value up and encoding it back gives the value, and the
/// encoding of a 16-bit value scales back to within one step below it.
pub proof fn lemma_trigger_scaling_roundtrip(value: u8, wide: u16)
    ensures
        (value * 257) / 257 == value,
        (wide / 257) * 257 <= wide < (wide / 257) * 257 + 257,
{
}

/// `1 << bit` when enabled, else `0`.
#[verifier::opaque]
pub open spec fn flag(enabled: bool, bit: u8) -> u8 {
    if enabled {
        1u8 << bit
    } else {
        0u8
    }
}

/// `1 << bit` when enabled, else `0`.
pub fn bool_bit(enabled: bool, bit: u8) -> (mask: u8)
    requires
        bit < 8,
    ensures
        mask == flag(enabled, bit),
{
    reveal(flag);
    if enabled {
        1u8 << bit
    } else {
        0
    }
}

/// The HID hat-switch value of a d-pad: `0` (up) to `7` clockwise, `8` for
/// released or contradictory directions.
pub open spec fn spec_encode_dpad_hat(dpad: Dpad) -> u8 {
    let (up, right, down, left) = (dpad.up, dpad.right, dpad.down, dpad.left);
    if up && !right && !down && !left {
        0
    } else if up && right && !down && !left {
        1
    } else if !up && right && !down && !left {
        2
    } else if !up && right && down && !left {
        3
    } else if !up && !right && down && !left {
        4
    } else if !up && !right && down && left {
        5
    } else if !up && !right && !down && left {
        6
    } else if up && !right && !down && left {
        7
    } else {
        8
    }
}

/// The d-pad turned a quarter turn clockwise: what was up is now right,
/// right is now down, down is now left and left is now up.
pub open spec fn turn_clockwise(dpad: Dpad) -> Dpad {
    Dpad { up: dpad.left, right: dpad.up, down: dpad.right, left: dpad.down }
}

/// The HID hat switch counts clockwise from up, one step per 45 degrees:
/// up alone is 0; turning any pressed direction a quarter turn clockwise
/// adds two steps (modulo eight); nothing pressed, or a contradictory
/// combination, is the null position 8, and stays so when turned. So up,
/// right, down and left alone are 0, 2, 4 and 6, and the diagonals lie
/// between their neighbours.
pub proof fn lemma_hat_counts_clockwise_from_up(dpad: Dpad)
    ensures
        spec_encode_dpad_hat(Dpad { up: true, down: false, left: false, right: false }) == 0,
        spec_encode_dpad_hat(Dpad { up: true, down: false, left: false, right: true }) == 1,
        spec_encode_dpad_hat(Dpad { up: false, down: false, left: false, right: false }) == 8,
        spec_encode_dpad_hat(dpad) <= 8,
        spec_encode_dpad_hat(dpad) < 8 ==> spec_encode_dpad_hat(turn_clockwise(dpad)) == (
        spec_encode_dpad_hat(dpad) + 2) % 8,
        spec_encode_dpad_hat(dpad) == 8 ==> spec_encode_dpad_hat(turn_clockwise(dpad)) == 8,
{
}

/// Up, right, down and left pressed alone give hat values 0, 2, 4 and 6.
pub proof fn lemma_hat_single_directions()
    ensures
        spec_encode_dpad_hat(Dpad { up: true, down: false, left: false, right: false }) == 0,
        spec_encode_dpad_hat(Dpad { up: false, down: false, left: false, right: true }) == 2,
        spec_encode_dpad_hat(Dpad { up: false, down: true, left: false, right: false }) == 4,
        spec_encode_dpad_hat(Dpad { up: false, down: false, left: true, right: false }) == 6,
{
    let up = Dpad { up: true, down: false, left: false, right: false };
    lemma_hat_counts_clockwise_from_up(up);
    lemma_hat_counts_clockwise_from_up(turn_clockwise(up));
    lemma_hat_counts_clockwise_from_up(turn_clockwise(turn_clockwise(up)));
}

pub fn encode_dpad_hat(dpad: Dpad) -> (hat: u8)
    ensures
        hat == spec_encode_dpad_hat(dpad),
{
    let (up, right, down, left) = (dpad.up, dpad.right, dpad.down, dpad.left);
    if up && !right && !down && !left {
        0
    } else if up && right && !down && !left {
        1
    } else if !up && right && !down && !left {
        2
    } else if !up && right && down && !left {
        3
    } else if !up && !right && down && !left {
        4
    } else if !up && !right && down && left {
        5
    } else if !up && !right && !down && left {
        6
    } else if up && !right && !down && left {
        7
    } else {
        8
    }
}

/// The four bytes of a DualSense touch contact: the contact counter with
/// the "not touching" flag in bit 7, then 12-bit `x` and `y` (each clamped
/// to `0x0fff`) packed little-endian.
pub open spec fn spec_touch_contact(active: bool, x: u16, y: u16, counter: u8) -> Seq<u8> {
    let cx: u16 = if x < 0x0fff { x } else { 0x0fff };
    let cy: u16 = if y < 0x0fff { y } else { 0x0fff };
    seq![
        if active { counter & 0x7f } else { 0x80 | (counter & 0x7f) },
        (cx & 0xff) as u8,
        (((cx >> 8) as u8) & 0x0f) | (((cy & 0x0f) as u8) << 4),
        (cy >> 4) as u8,
    ]
}

/// Write a DualSense touch contact into `bytes[offset..offset + 4]`.
pub fn encode_dualsense_touch_contact(
    bytes: &mut Vec<u8>,
    offset: usize,
    active: bool,
    x: u16,
    y: u16,
    counter: u8,
)
    requires
        offset + 4 <= old(bytes)@.len(),
    ensures
        final(bytes)@ == old(bytes)@.subrange(0, offset as int) + spec_touch_contact(
            active,
            x,
            y,
            counter,
        ) + old(bytes)@.subrange(offset + 4, old(bytes)@.len() as int),
{
    let cx: u16 = if x < 0x0fff {
        x
    } else {
        0x0fff
    };
    let cy: u16 = if y < 0x0fff {
        y
    } else {
        0x0fff
    };
    let first: u8 = if active {
        counter & 0x7f
    } else {
        0x80 | (counter & 0x7f)
    };
    let n: usize = bytes.len();
    assert(offset + 4 <= n);
    bytes.set(offset, first);
    bytes.set(offset + 1, (cx & 0xff) as u8);
    bytes.set(offset + 2, (((cx >> 8) as u8) & 0x0f) | (((cy & 0x0f) as u8) << 4));
    bytes.set(offset + 3, (cy >> 4) as u8);
    assert(bytes@ =~= old(bytes)@.subrange(0, offset as int) + spec_touch_contact(
        active,
        x,
        y,
        counter,
    ) + old(bytes)@.subrange(offset + 4, old(bytes)@.len() as int));
}

/// Check that a translator emitted a report of the descriptor's length.
pub fn ensure_hid_report_shape(profile_family: &str, bytes: &[u8], expected_len: usize) -> (result:
    Result<(), TranslationError>)
    ensures
        bytes@.len() == expected_len ==> result is Ok,
        bytes@.len() != expected_len ==> (result matches Err(
            TranslationError::DescriptorViolation { reason },
        ) && reason@ == profile_family@ + " translator emitted "@ + decimal(bytes@.len())
            + " bytes, expected "@ + decimal(expected_len as nat)),
{
    if bytes.len() != expected_len {
        let mut reason = String::from_str(profile_family);
        reason.append(" translator emitted ");
        push_decimal(&mut reason, bytes.len() as u64);
        reason.append(" bytes, expected ");
        push_decimal(&mut reason, expected_len as u64);
        return Err(TranslationError::DescriptorViolation { reason });
    }
    Ok(())
}

} // verus!
