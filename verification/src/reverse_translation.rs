//! Reverse translators: decoding host output reports (rumble, lighting,
//! player indicators, trigger effects, audio) into semantic output
//! commands.

use std::collections::BTreeMap;
use vstd::prelude::*;

use crate::profiles::ProfileFamily;
use crate::realization::EvdevEvent;
use crate::runtime_model::{AudioCommand, BackendLevel, FidelityTier, TranslatorFamily, LightingPayload, OutputPayload, RumblePayload, TriggerEffectPayload};
use crate::text::{decimal, hex_padded, push_decimal, push_hex_padded};
use crate::translators::{scale_u8_to_u16, TranslationError, TranslatorRegistry};

verus! {

/// A semantic output function a controller can be driven through.
#[derive(Debug, Clone, Copy, PartialEq, Eq, Hash, Structural)]
pub enum OutputFunction {
    Rumble,
    Haptics,
    Lighting,
    PlayerIndicators,
    TriggerEffect,
    Audio,
}

/// What the host narrowed a reverse event to, when it did.
#[derive(Debug, Clone, Copy, PartialEq, Eq, Structural)]
pub enum ReverseTarget {
    SemanticOutput(OutputFunction),
    /// A target that names no semantic output function.
    Other,
}

/// The payload of a reverse event as the backend delivered it.
#[derive(Debug, Clone, PartialEq, Eq)]
pub enum ReversePayload {
    Hid { report_id: Option<u8>, bytes: Vec<u8> },
    Evdev { events: Vec<EvdevEvent> },
    /// A payload of another kind (transport control traffic and the like).
    Other,
}

/// One decoded output command: the function it drives and its payload.
#[derive(Debug, Clone, PartialEq, Eq)]
pub struct ReverseOutput {
    pub function: OutputFunction,
    pub payload: OutputPayload,
}

/// The target names exactly `expected`.
pub open spec fn spec_target_is(target: Option<ReverseTarget>, expected: OutputFunction) -> bool {
    target == Some(ReverseTarget::SemanticOutput(expected))
}

/// The target is absent or names exactly `expected`.
pub open spec fn spec_target_is_or_unspecified(
    target: Option<ReverseTarget>,
    expected: OutputFunction,
) -> bool {
    target is None || spec_target_is(target, expected)
}

pub fn target_is(target: Option<ReverseTarget>, expected: OutputFunction) -> (hit: bool)
    ensures
        hit == spec_target_is(target, expected),
{
    match target {
        Some(ReverseTarget::SemanticOutput(function)) => function == expected,
        _ => false,
    }
}

pub fn target_is_or_unspecified(target: Option<ReverseTarget>, expected: OutputFunction) -> (hit:
    bool)
    ensures
        hit == spec_target_is_or_unspecified(target, expected),
{
    target.is_none() || target_is(target, expected)
}

/// The output functions each built-in profile family declares as
/// reverse-supported.
pub open spec fn declared_reverse_outputs(family: ProfileFamily) -> Set<OutputFunction> {
    match family {
        ProfileFamily::GenericGamepad => Set::empty(),
        ProfileFamily::Xbox360 => set![
            OutputFunction::Rumble,
            OutputFunction::Lighting,
            OutputFunction::PlayerIndicators,
        ],
        ProfileFamily::DualSense => set![
            OutputFunction::Rumble,
            OutputFunction::Haptics,
            OutputFunction::Lighting,
            OutputFunction::PlayerIndicators,
            OutputFunction::TriggerEffect,
            OutputFunction::Audio,
        ],
        ProfileFamily::SteamController => set![OutputFunction::Rumble, OutputFunction::Lighting],
    }
}

/// `seq![f]` when `emitted`, else the empty sequence.
pub open spec fn emitted_if(emitted: bool, f: OutputFunction) -> Seq<OutputFunction> {
    if emitted {
        seq![f]
    } else {
        Seq::empty()
    }
}

/// Lighting that names only a player slot.
pub open spec fn player_slot_lighting(slot: u8) -> OutputPayload {
    OutputPayload::Lighting(
        LightingPayload { red: None, green: None, blue: None, player_index: Some(slot) },
    )
}

/// Lighting that names only a colour.
pub open spec fn colour_lighting(red: u8, green: u8, blue: u8) -> OutputPayload {
    OutputPayload::Lighting(
        LightingPayload { red: Some(red), green: Some(green), blue: Some(blue), player_index: None },
    )
}

/// Rumble with both motors scaled from 8-bit strengths.
pub open spec fn scaled_rumble(strong: u8, weak: u8) -> OutputPayload {
    OutputPayload::Rumble(
        RumblePayload { strong: (strong * 257) as u16, weak: (weak * 257) as u16 },
    )
}

// ---------------------------------------------------------------------
// DualSense
// ---------------------------------------------------------------------

/// Whether a DualSense output report carries a section for `f`.
pub open spec fn dualsense_emits(target: Option<ReverseTarget>, bytes: Seq<u8>, f: OutputFunction) -> bool {
    match f {
        OutputFunction::Rumble => (target is None || spec_target_is(target, OutputFunction::Rumble)
            || spec_target_is(target, OutputFunction::Haptics)) && bytes.len() > 4 && !(bytes[3]
            == 0 && bytes[4] == 0),
        OutputFunction::Lighting => spec_target_is_or_unspecified(target, OutputFunction::Lighting)
            && bytes.len() > 47 && !(bytes[45] == 0 && bytes[46] == 0 && bytes[47] == 0),
        OutputFunction::PlayerIndicators => spec_target_is_or_unspecified(
            target,
            OutputFunction::PlayerIndicators,
        ) && bytes.len() > 44 && bytes[44] != 0,
        OutputFunction::TriggerEffect => spec_target_is_or_unspecified(
            target,
            OutputFunction::TriggerEffect,
        ) && bytes.len() > 13 && bytes[11] != 0,
        OutputFunction::Audio => spec_target_is_or_unspecified(target, OutputFunction::Audio)
            && bytes.len() > 9 && bytes[9] != 0,
        OutputFunction::Haptics => false,
    }
}

/// The functions a DualSense output report decodes to, in emission order.
pub open spec fn dualsense_functions(target: Option<ReverseTarget>, bytes: Seq<u8>) -> Seq<
    OutputFunction,
> {
    emitted_if(dualsense_emits(target, bytes, OutputFunction::Rumble), OutputFunction::Rumble)
        + emitted_if(dualsense_emits(target, bytes, OutputFunction::Lighting), OutputFunction::Lighting)
        + emitted_if(
        dualsense_emits(target, bytes, OutputFunction::PlayerIndicators),
        OutputFunction::PlayerIndicators,
    ) + emitted_if(
        dualsense_emits(target, bytes, OutputFunction::TriggerEffect),
        OutputFunction::TriggerEffect,
    ) + emitted_if(dualsense_emits(target, bytes, OutputFunction::Audio), OutputFunction::Audio)
}

/// What the DualSense payload for `f` holds. Of a trigger effect, the
/// mode (`0x` and two hex digits of byte 11) is stated; its parameter map
/// holds the strengths of bytes 12 and 13 in decimal.
pub open spec fn dualsense_payload_ok(f: OutputFunction, bytes: Seq<u8>, payload: OutputPayload) -> bool {
    match f {
        OutputFunction::Rumble => payload == scaled_rumble(bytes[4], bytes[3]),
        OutputFunction::Lighting => payload == colour_lighting(bytes[45], bytes[46], bytes[47]),
        OutputFunction::PlayerIndicators => payload == player_slot_lighting(bytes[44] & 0x0f),
        OutputFunction::TriggerEffect => payload matches OutputPayload::TriggerEffect(effect)
            && effect.mode@ == "0x"@ + hex_padded(bytes[11] as nat, 2),
        OutputFunction::Audio => {
            &&& payload matches OutputPayload::Audio(command)
            &&& command.action@ == "speaker-update"@
            &&& command.target matches Some(speaker)
            &&& speaker@ == "speaker"@
        },
        OutputFunction::Haptics => false,
    }
}

fn push_output(out: &mut Vec<ReverseOutput>, function: OutputFunction, payload: OutputPayload)
    ensures
        final(out)@ == old(out)@.push(ReverseOutput { function, payload }),
{
    out.push(ReverseOutput { function, payload });
}

fn decode_dualsense_rumble(target: Option<ReverseTarget>, bytes: &[u8]) -> (decoded: Option<
    OutputPayload,
>)
    ensures
        decoded is Some <==> dualsense_emits(target, bytes@, OutputFunction::Rumble),
        decoded matches Some(payload) ==> dualsense_payload_ok(
            OutputFunction::Rumble,
            bytes@,
            payload,
        ),
{
    let accepts = target_is(target, OutputFunction::Rumble) || target_is(
        target,
        OutputFunction::Haptics,
    ) || target.is_none();
    if !accepts || bytes.len() <= 4 || (bytes[3] == 0 && bytes[4] == 0) {
        return None;
    }
    Some(
        OutputPayload::Rumble(
            RumblePayload { strong: scale_u8_to_u16(bytes[4]), weak: scale_u8_to_u16(bytes[3]) },
        ),
    )
}

fn decode_dualsense_lighting(target: Option<ReverseTarget>, bytes: &[u8]) -> (decoded: Option<
    OutputPayload,
>)
    ensures
        decoded is Some <==> dualsense_emits(target, bytes@, OutputFunction::Lighting),
        decoded matches Some(payload) ==> dualsense_payload_ok(
            OutputFunction::Lighting,
            bytes@,
            payload,
        ),
{
    if !target_is_or_unspecified(target, OutputFunction::Lighting) || bytes.len() <= 47 || (
    bytes[45] == 0 && bytes[46] == 0 && bytes[47] == 0) {
        return None;
    }
    Some(
        OutputPayload::Lighting(
            LightingPayload {
                red: Some(bytes[45]),
                green: Some(bytes[46]),
                blue: Some(bytes[47]),
                player_index: None,
            },
        ),
    )
}

fn decode_dualsense_player_indicators(target: Option<ReverseTarget>, bytes: &[u8]) -> (decoded:
    Option<OutputPayload>)
    ensures
        decoded is Some <==> dualsense_emits(target, bytes@, OutputFunction::PlayerIndicators),
        decoded matches Some(payload) ==> dualsense_payload_ok(
            OutputFunction::PlayerIndicators,
            bytes@,
            payload,
        ),
{
    if !target_is_or_unspecified(target, OutputFunction::PlayerIndicators) || bytes.len() <= 44
        || bytes[44] == 0 {
        return None;
    }
    Some(
        OutputPayload::Lighting(
            LightingPayload {
                red: None,
                green: None,
                blue: None,
                player_index: Some(bytes[44] & 0x0f),
            },
        ),
    )
}

fn decimal_text(value: u8) -> (text: String)
    ensures
        text@ == decimal(value as nat),
{
    let mut text = String::new();
    push_decimal(&mut text, value as u64);
    text
}

fn decode_dualsense_trigger_effect(target: Option<ReverseTarget>, bytes: &[u8]) -> (decoded:
    Option<OutputPayload>)
    ensures
        decoded is Some <==> dualsense_emits(target, bytes@, OutputFunction::TriggerEffect),
        decoded matches Some(payload) ==> dualsense_payload_ok(
            OutputFunction::TriggerEffect,
            bytes@,
            payload,
        ),
{
    if !target_is_or_unspecified(target, OutputFunction::TriggerEffect) || bytes.len() <= 13
        || bytes[11] == 0 {
        return None;
    }
    let mut parameters: BTreeMap<String, String> = BTreeMap::new();
    parameters.insert(String::from_str("left-strength"), decimal_text(bytes[12]));
    parameters.insert(String::from_str("right-strength"), decimal_text(bytes[13]));
    let mut mode = String::from_str("0x");
    push_hex_padded(&mut mode, bytes[11] as u64, 2);
    Some(OutputPayload::TriggerEffect(TriggerEffectPayload { mode, parameters }))
}

fn decode_dualsense_audio(target: Option<ReverseTarget>, bytes: &[u8]) -> (decoded: Option<
    OutputPayload,
>)
    ensures
        decoded is Some <==> dualsense_emits(target, bytes@, OutputFunction::Audio),
        decoded matches Some(payload) ==> dualsense_payload_ok(
            OutputFunction::Audio,
            bytes@,
            payload,
        ),
{
    if !target_is_or_unspecified(target, OutputFunction::Audio) || bytes.len() <= 9 || bytes[9]
        == 0 {
        return None;
    }
    Some(
        OutputPayload::Audio(
            AudioCommand {
                action: String::from_str("speaker-update"),
                target: Some(String::from_str("speaker")),
            },
        ),
    )
}

/// What a reverse translator appended to `out`: the old entries kept,
/// then one entry per function of `functions`, each with a payload that
/// `payload_ok` accepts.
pub open spec fn appended_outputs(
    old_out: Seq<ReverseOutput>,
    new_out: Seq<ReverseOutput>,
    functions: Seq<OutputFunction>,
    payload_ok: spec_fn(OutputFunction, OutputPayload) -> bool,
) -> bool {
    &&& new_out.len() == old_out.len() + functions.len()
    &&& new_out.subrange(0, old_out.len() as int) == old_out
    &&& forall|j: int|
        0 <= j < functions.len() ==> #[trigger] new_out[old_out.len() + j].function == functions[j]
            && payload_ok(functions[j], new_out[old_out.len() + j].payload)
}

fn push_decoded(
    out: &mut Vec<ReverseOutput>,
    function: OutputFunction,
    decoded: Option<OutputPayload>,
    Ghost(functions): Ghost<Seq<OutputFunction>>,
    Ghost(start): Ghost<Seq<ReverseOutput>>,
    Ghost(payload_ok): Ghost<spec_fn(OutputFunction, OutputPayload) -> bool>,
)
    requires
        appended_outputs(start, old(out)@, functions, payload_ok),
        decoded matches Some(payload) ==> payload_ok(function, payload),
    ensures
        appended_outputs(
            start,
            final(out)@,
            functions + emitted_if(decoded is Some, function),
            payload_ok,
        ),
{
    let ghost before = out@;
    match decoded {
        Some(payload) => {
            out.push(ReverseOutput { function, payload });
            assert(out@.subrange(0, start.len() as int) =~= before.subrange(0, start.len() as int));
            assert forall|j: int|
                0 <= j < (functions + emitted_if(true, function)).len() implies #[trigger] out@[start.len()
                + j].function == (functions + emitted_if(true, function))[j] && payload_ok(
                (functions + emitted_if(true, function))[j],
                out@[start.len() + j].payload,
            ) by {
                if j < functions.len() {
                    assert(out@[start.len() + j] == before[start.len() + j]);
                }
            }
        },
        None => {
            assert(functions + emitted_if(false, function) =~= functions);
        },
    }
}

/// Decode a DualSense output report. Every recognised section is appended
/// to `out`; the call fails when `out` is still empty afterwards, or when
/// the payload is not a HID report (then `out` is unchanged).
pub fn translate_dualsense_reverse(
    target: Option<ReverseTarget>,
    payload: &ReversePayload,
    out: &mut Vec<ReverseOutput>,
) -> (result: Result<(), TranslationError>)
    ensures
        !(payload is Hid) ==> {
            &&& final(out)@ == old(out)@
            &&& result matches Err(TranslationError::InvalidReverseEvent { reason })
            &&& reason@ == "DualSense reverse translator requires HID payload"@
        },
        payload matches ReversePayload::Hid { bytes, .. } ==> {
            &&& appended_outputs(
                old(out)@,
                final(out)@,
                dualsense_functions(target, bytes@),
                |f: OutputFunction, p: OutputPayload| dualsense_payload_ok(f, bytes@, p),
            )
            &&& (result is Ok <==> final(out)@.len() > 0)
            &&& (result matches Err(e) ==> {
                &&& e matches TranslationError::InvalidReverseEvent { reason }
                &&& reason@
                    == "DualSense reverse event did not contain any recognized output command"@
            })
        },
{
    let bytes = match payload {
        ReversePayload::Hid { bytes, .. } => bytes.as_slice(),
        _ => {
            return Err(
                TranslationError::InvalidReverseEvent {
                    reason: String::from_str("DualSense reverse translator requires HID payload"),
                },
            );
        },
    };
    let ghost start = out@;
    let ghost payload_ok = |f: OutputFunction, p: OutputPayload| dualsense_payload_ok(f, bytes@, p);
    assert(appended_outputs(start, out@, Seq::empty(), payload_ok)) by {
        assert(out@.subrange(0, start.len() as int) =~= start);
    }
    let rumble = decode_dualsense_rumble(target, bytes);
    push_decoded(out, OutputFunction::Rumble, rumble, Ghost(Seq::empty()), Ghost(start), Ghost(payload_ok));
    let ghost fs = Seq::empty() + emitted_if(rumble is Some, OutputFunction::Rumble);
    let lighting = decode_dualsense_lighting(target, bytes);
    push_decoded(out, OutputFunction::Lighting, lighting, Ghost(fs), Ghost(start), Ghost(payload_ok));
    let ghost fs = fs + emitted_if(lighting is Some, OutputFunction::Lighting);
    let player = decode_dualsense_player_indicators(target, bytes);
    push_decoded(
        out,
        OutputFunction::PlayerIndicators,
        player,
        Ghost(fs),
        Ghost(start),
        Ghost(payload_ok),
    );
    let ghost fs = fs + emitted_if(player is Some, OutputFunction::PlayerIndicators);
    let trigger = decode_dualsense_trigger_effect(target, bytes);
    push_decoded(
        out,
        OutputFunction::TriggerEffect,
        trigger,
        Ghost(fs),
        Ghost(start),
        Ghost(payload_ok),
    );
    let ghost fs = fs + emitted_if(trigger is Some, OutputFunction::TriggerEffect);
    let audio = decode_dualsense_audio(target, bytes);
    push_decoded(out, OutputFunction::Audio, audio, Ghost(fs), Ghost(start), Ghost(payload_ok));
    let ghost fs = fs + emitted_if(audio is Some, OutputFunction::Audio);
    assert(fs =~= dualsense_functions(target, bytes@));
    if out.len() == 0 {
        return Err(
            TranslationError::InvalidReverseEvent {
                reason: String::from_str(
                    "DualSense reverse event did not contain any recognized output command",
                ),
            },
        );
    }
    Ok(())
}

// ---------------------------------------------------------------------
// Steam Controller
// ---------------------------------------------------------------------

/// Whether a Steam Controller output report carries a section for `f`.
pub open spec fn steam_emits(target: Option<ReverseTarget>, bytes: Seq<u8>, f: OutputFunction) -> bool {
    match f {
        OutputFunction::Lighting => spec_target_is_or_unspecified(target, OutputFunction::Lighting)
            && bytes.len() >= 4,
        OutputFunction::Rumble => spec_target_is_or_unspecified(target, OutputFunction::Rumble)
            && bytes.len() >= 6 && (bytes[4] != 0 || bytes[5] != 0),
        _ => false,
    }
}

/// The functions a Steam Controller output report decodes to, in order.
pub open spec fn steam_functions(target: Option<ReverseTarget>, bytes: Seq<u8>) -> Seq<
    OutputFunction,
> {
    emitted_if(steam_emits(target, bytes, OutputFunction::Lighting), OutputFunction::Lighting)
        + emitted_if(steam_emits(target, bytes, OutputFunction::Rumble), OutputFunction::Rumble)
}

/// The Steam Controller payload of `f`.
pub open spec fn steam_payload_ok(f: OutputFunction, bytes: Seq<u8>, payload: OutputPayload) -> bool {
    match f {
        OutputFunction::Lighting => payload == colour_lighting(bytes[0], bytes[1], bytes[2]),
        OutputFunction::Rumble => payload == scaled_rumble(bytes[5], bytes[4]),
        _ => false,
    }
}

/// Decode a Steam Controller output report: lighting from bytes 0..3,
/// rumble from bytes 4 (weak) and 5 (strong). The call fails when `out`
/// is still empty afterwards, or when the payload is not a HID report
/// (then `out` is unchanged).
pub fn translate_steam_reverse(
    target: Option<ReverseTarget>,
    payload: &ReversePayload,
    out: &mut Vec<ReverseOutput>,
) -> (result: Result<(), TranslationError>)
    ensures
        !(payload is Hid) ==> {
            &&& final(out)@ == old(out)@
            &&& result matches Err(TranslationError::InvalidReverseEvent { reason })
            &&& reason@ == "Steam Controller reverse translator requires HID payload"@
        },
        payload matches ReversePayload::Hid { bytes, .. } ==> {
            &&& appended_outputs(
                old(out)@,
                final(out)@,
                steam_functions(target, bytes@),
                |f: OutputFunction, p: OutputPayload| steam_payload_ok(f, bytes@, p),
            )
            &&& (result is Ok <==> final(out)@.len() > 0)
            &&& (result matches Err(e) ==> {
                &&& e matches TranslationError::InvalidReverseEvent { reason }
                &&& reason@
                    == "Steam Controller reverse event did not contain any recognized output command"@
            })
        },
{
    let bytes = match payload {
        ReversePayload::Hid { bytes, .. } => bytes.as_slice(),
        _ => {
            return Err(
                TranslationError::InvalidReverseEvent {
                    reason: String::from_str(
                        "Steam Controller reverse translator requires HID payload",
                    ),
                },
            );
        },
    };
    let ghost start = out@;
    let ghost payload_ok = |f: OutputFunction, p: OutputPayload| steam_payload_ok(f, bytes@, p);
    assert(appended_outputs(start, out@, Seq::empty(), payload_ok)) by {
        assert(out@.subrange(0, start.len() as int) =~= start);
    }
    let lighting = if target_is_or_unspecified(target, OutputFunction::Lighting) && bytes.len() >= 4 {
        Some(
            OutputPayload::Lighting(
                LightingPayload {
                    red: Some(bytes[0]),
                    green: Some(bytes[1]),
                    blue: Some(bytes[2]),
                    player_index: None,
                },
            ),
        )
    } else {
        None
    };
    push_decoded(out, OutputFunction::Lighting, lighting, Ghost(Seq::empty()), Ghost(start), Ghost(payload_ok));
    let ghost fs = Seq::empty() + emitted_if(lighting is Some, OutputFunction::Lighting);
    let rumble = if target_is_or_unspecified(target, OutputFunction::Rumble) && bytes.len() >= 6 && (
    bytes[4] != 0 || bytes[5] != 0) {
        Some(
            OutputPayload::Rumble(
                RumblePayload { strong: scale_u8_to_u16(bytes[5]), weak: scale_u8_to_u16(bytes[4]) },
            ),
        )
    } else {
        None
    };
    push_decoded(out, OutputFunction::Rumble, rumble, Ghost(fs), Ghost(start), Ghost(payload_ok));
    let ghost fs = fs + emitted_if(rumble is Some, OutputFunction::Rumble);
    assert(fs =~= steam_functions(target, bytes@));
    if out.len() == 0 {
        return Err(
            TranslationError::InvalidReverseEvent {
                reason: String::from_str(
                    "Steam Controller reverse event did not contain any recognized output command",
                ),
            },
        );
    }
    Ok(())
}

// ---------------------------------------------------------------------
// Xbox-style
// ---------------------------------------------------------------------

/// The one function an Xbox-style HID output report decodes to, if any:
/// a narrowed lighting or player-indicator target needs a slot byte
/// (three bytes for lighting), otherwise two bytes give rumble.
pub open spec fn xbox_hid_function(target: Option<ReverseTarget>, bytes: Seq<u8>) -> Option<
    OutputFunction,
> {
    if spec_target_is(target, OutputFunction::Lighting) {
        if bytes.len() >= 3 {
            Some(OutputFunction::Lighting)
        } else {
            None
        }
    } else if spec_target_is(target, OutputFunction::PlayerIndicators) {
        if bytes.len() >= 1 {
            Some(OutputFunction::PlayerIndicators)
        } else {
            None
        }
    } else if spec_target_is_or_unspecified(target, OutputFunction::Rumble) && bytes.len() >= 2 {
        Some(OutputFunction::Rumble)
    } else {
        None
    }
}

/// The Xbox-style HID payload of `f`.
pub open spec fn xbox_hid_payload(f: OutputFunction, bytes: Seq<u8>) -> OutputPayload {
    match f {
        OutputFunction::Rumble => scaled_rumble(bytes[0], bytes[1]),
        _ => player_slot_lighting(bytes[0] & 0x0f),
    }
}

/// A force-feedback level clamped into `0..=u16::MAX`.
pub open spec fn clamp_to_u16(value: i32) -> u16 {
    if value < 0 {
        0
    } else if value > 0xffff {
        0xffff
    } else {
        value as u16
    }
}

fn clamp_level(value: i32) -> (level: u16)
    ensures
        level == clamp_to_u16(value),
{
    if value < 0 {
        0
    } else if value > 0xffff {
        0xffff
    } else {
        value as u16
    }
}

/// The index of the first evdev event with code `0`, if there is one.
pub open spec fn first_rumble_event(events: Seq<EvdevEvent>) -> Option<int> {
    if exists|i: int| 0 <= i < events.len() && #[trigger] events[i].code == 0 {
        Some(
            choose|i: int|
                0 <= i < events.len() && #[trigger] events[i].code == 0 && forall|k: int|
                    0 <= k < i ==> events[k].code != 0,
        )
    } else {
        None
    }
}

/// Decode an Xbox-style output event. A HID report yields at most one
/// command (see [`xbox_hid_function`]); an evdev batch yields rumble from
/// the first event with code `0`, both motors at its clamped level.
pub fn translate_xbox_reverse(
    target: Option<ReverseTarget>,
    payload: &ReversePayload,
    out: &mut Vec<ReverseOutput>,
) -> (result: Result<(), TranslationError>)
    ensures
        payload is Other ==> {
            &&& final(out)@ == old(out)@
            &&& result matches Err(TranslationError::InvalidReverseEvent { reason })
            &&& reason@ == "xbox-style reverse translator requires HID or evdev payload"@
        },
        payload matches ReversePayload::Hid { bytes, .. } ==> match xbox_hid_function(
            target,
            bytes@,
        ) {
            Some(f) => result is Ok && final(out)@ == old(out)@.push(
                ReverseOutput { function: f, payload: xbox_hid_payload(f, bytes@) },
            ),
            None => {
                &&& final(out)@ == old(out)@
                &&& result matches Err(TranslationError::InvalidReverseEvent { reason })
                &&& reason@
                    == "xbox-style reverse event did not contain any recognized output command"@
            },
        },
        payload matches ReversePayload::Evdev { events } ==> match first_rumble_event(events@) {
            Some(i) => {
                let level = clamp_to_u16(events@[i].value);
                &&& result is Ok
                &&& final(out)@ == old(out)@.push(
                    ReverseOutput {
                        function: OutputFunction::Rumble,
                        payload: OutputPayload::Rumble(RumblePayload { strong: level, weak: level }),
                    },
                )
            },
            None => {
                &&& final(out)@ == old(out)@
                &&& result matches Err(TranslationError::InvalidReverseEvent { reason })
                &&& reason@
                    == "xbox-style evdev reverse event did not contain a supported output"@
            },
        },
{
    match payload {
        ReversePayload::Hid { bytes, .. } => {
            if target_is(target, OutputFunction::Lighting) {
                if bytes.len() >= 3 {
                    push_output(
                        out,
                        OutputFunction::Lighting,
                        OutputPayload::Lighting(
                            LightingPayload {
                                red: None,
                                green: None,
                                blue: None,
                                player_index: Some(bytes[0] & 0x0f),
                            },
                        ),
                    );
                    return Ok(());
                }
            } else if target_is(target, OutputFunction::PlayerIndicators) {
                if bytes.len() >= 1 {
                    push_output(
                        out,
                        OutputFunction::PlayerIndicators,
                        OutputPayload::Lighting(
                            LightingPayload {
                                red: None,
                                green: None,
                                blue: None,
                                player_index: Some(bytes[0] & 0x0f),
                            },
                        ),
                    );
                    return Ok(());
                }
            } else if target_is_or_unspecified(target, OutputFunction::Rumble) && bytes.len() >= 2 {
                push_output(
                    out,
                    OutputFunction::Rumble,
                    OutputPayload::Rumble(
                        RumblePayload {
                            strong: scale_u8_to_u16(bytes[0]),
                            weak: scale_u8_to_u16(bytes[1]),
                        },
                    ),
                );
                return Ok(());
            }
            Err(
                TranslationError::InvalidReverseEvent {
                    reason: String::from_str(
                        "xbox-style reverse event did not contain any recognized output command",
                    ),
                },
            )
        },
        ReversePayload::Evdev { events } => {
            let mut index: usize = 0;
            while index < events.len()
                invariant
                    *payload == (ReversePayload::Evdev { events: *events }),
                    0 <= index <= events@.len(),
                    forall|k: int| 0 <= k < index ==> events@[k].code != 0,
                    out@ == old(out)@,
                decreases events@.len() - index,
            {
                if events[index].code == 0 {
                    let level = clamp_level(events[index].value);
                    push_output(
                        out,
                        OutputFunction::Rumble,
                        OutputPayload::Rumble(RumblePayload { strong: level, weak: level }),
                    );
                    proof {
                        let i = index as int;
                        assert(events@[i].code == 0);
                        let c = choose|j: int|
                            0 <= j < events@.len() && #[trigger] events@[j].code == 0 && forall|
                                k: int,
                            | 0 <= k < j ==> events@[k].code != 0;
                        assert(0 <= c < events@.len() && events@[c].code == 0 && forall|k: int|
                            0 <= k < c ==> events@[k].code != 0);
                        assert(c == i);
                    }
                    return Ok(());
                }
                index = index + 1;
            }
            Err(
                TranslationError::InvalidReverseEvent {
                    reason: String::from_str(
                        "xbox-style evdev reverse event did not contain a supported output",
                    ),
                },
            )
        },
        ReversePayload::Other => Err(
            TranslationError::InvalidReverseEvent {
                reason: String::from_str(
                    "xbox-style reverse translator requires HID or evdev payload",
                ),
            },
        ),
    }
}

// ---------------------------------------------------------------------
// Registry dispatch and laws
// ---------------------------------------------------------------------

/// The translator family whose reverse translator decodes for a profile
/// family, if it has one.
pub open spec fn reverse_translator_profile(family: TranslatorFamily) -> Option<ProfileFamily> {
    match family {
        TranslatorFamily::XboxStyle => Some(ProfileFamily::Xbox360),
        TranslatorFamily::DualSense => Some(ProfileFamily::DualSense),
        TranslatorFamily::SteamController => Some(ProfileFamily::SteamController),
        _ => None,
    }
}

/// Whether a forward translator is registered for `(family, level)`.
pub open spec fn spec_forward_registered(family: TranslatorFamily, level: BackendLevel) -> bool {
    match (family, level) {
        (TranslatorFamily::GenericGamepad, BackendLevel::Evdev) => true,
        (TranslatorFamily::XboxStyle, BackendLevel::Evdev) => true,
        (TranslatorFamily::DualSense, BackendLevel::Hid) => true,
        (TranslatorFamily::SteamController, BackendLevel::Hid) => true,
        _ => false,
    }
}

/// What the reverse translator registered for `family` appends to
/// `before`, giving `after`, and answers, for an event with `target` and
/// `payload`.
pub open spec fn reverse_decoded(
    family: TranslatorFamily,
    target: Option<ReverseTarget>,
    payload: ReversePayload,
    before: Seq<ReverseOutput>,
    after: Seq<ReverseOutput>,
    result: Result<(), TranslationError>,
) -> bool {
    &&& (family == TranslatorFamily::DualSense ==> {
        &&& !(payload is Hid) ==> {
            &&& after == before
            &&& result matches Err(TranslationError::InvalidReverseEvent { reason })
            &&& reason@ == "DualSense reverse translator requires HID payload"@
        }
        &&& payload matches ReversePayload::Hid { bytes, .. } ==> {
            &&& appended_outputs(
                before,
                after,
                dualsense_functions(target, bytes@),
                |f: OutputFunction, p: OutputPayload| dualsense_payload_ok(f, bytes@, p),
            )
            &&& (result is Ok <==> after.len() > 0)
            &&& (result matches Err(e) ==> {
                &&& e matches TranslationError::InvalidReverseEvent { reason }
                &&& reason@
                    == "DualSense reverse event did not contain any recognized output command"@
            })
        }
    })
    &&& (family == TranslatorFamily::SteamController ==> {
        &&& !(payload is Hid) ==> {
            &&& after == before
            &&& result matches Err(TranslationError::InvalidReverseEvent { reason })
            &&& reason@ == "Steam Controller reverse translator requires HID payload"@
        }
        &&& payload matches ReversePayload::Hid { bytes, .. } ==> {
            &&& appended_outputs(
                before,
                after,
                steam_functions(target, bytes@),
                |f: OutputFunction, p: OutputPayload| steam_payload_ok(f, bytes@, p),
            )
            &&& (result is Ok <==> after.len() > 0)
            &&& (result matches Err(e) ==> {
                &&& e matches TranslationError::InvalidReverseEvent { reason }
                &&& reason@
                    == "Steam Controller reverse event did not contain any recognized output command"@
            })
        }
    })
    &&& (family == TranslatorFamily::XboxStyle ==> {
        &&& payload is Other ==> {
            &&& after == before
            &&& result matches Err(TranslationError::InvalidReverseEvent { reason })
            &&& reason@ == "xbox-style reverse translator requires HID or evdev payload"@
        }
        &&& payload matches ReversePayload::Hid { bytes, .. } ==> match xbox_hid_function(
            target,
            bytes@,
        ) {
            Some(f) => result is Ok && after == before.push(
                ReverseOutput { function: f, payload: xbox_hid_payload(f, bytes@) },
            ),
            None => {
                &&& after == before
                &&& result matches Err(TranslationError::InvalidReverseEvent { reason })
                &&& reason@
                    == "xbox-style reverse event did not contain any recognized output command"@
            },
        }
        &&& payload matches ReversePayload::Evdev { events } ==> match first_rumble_event(events@) {
            Some(i) => {
                let level = clamp_to_u16(events@[i].value);
                &&& result is Ok
                &&& after == before.push(
                    ReverseOutput {
                        function: OutputFunction::Rumble,
                        payload: OutputPayload::Rumble(RumblePayload { strong: level, weak: level }),
                    },
                )
            },
            None => {
                &&& after == before
                &&& result matches Err(TranslationError::InvalidReverseEvent { reason })
                &&& reason@
                    == "xbox-style evdev reverse event did not contain a supported output"@
            },
        }
    })
}

impl TranslatorRegistry {
    /// Whether a forward translator is registered for `(family, level)`.
    pub fn forward_registered(&self, family: TranslatorFamily, level: BackendLevel) -> (registered: bool)
        ensures
            registered == spec_forward_registered(family, level),
    {
            match (family, level) {
            (TranslatorFamily::GenericGamepad, BackendLevel::Evdev) => true,
            (TranslatorFamily::XboxStyle, BackendLevel::Evdev) => true,
            (TranslatorFamily::DualSense, BackendLevel::Hid) => true,
            (TranslatorFamily::SteamController, BackendLevel::Hid) => true,
            _ => false,
        }
    }

    /// Whether a reverse translator is registered for `family`.
    pub fn reverse_registered(&self, family: TranslatorFamily) -> (registered: bool)
        ensures
            registered == reverse_translator_profile(family) is Some,
    {
        match family {
            TranslatorFamily::XboxStyle | TranslatorFamily::DualSense
            | TranslatorFamily::SteamController => true,
            _ => false,
        }
    }

    /// Run the reverse translator registered for `family`; `None` (with
    /// `out` unchanged) when there is none.
    pub fn translate_reverse(
        &self,
        family: TranslatorFamily,
        target: Option<ReverseTarget>,
        payload: &ReversePayload,
        out: &mut Vec<ReverseOutput>,
    ) -> (result: Option<Result<(), TranslationError>>)
        ensures
            result is None <==> reverse_translator_profile(family) is None,
            result is None ==> final(out)@ == old(out)@,
            result matches Some(r) ==> reverse_decoded(family, target, *payload, old(out)@, final(out)@, r),
    {
        match family {
            TranslatorFamily::XboxStyle => {
                let result = translate_xbox_reverse(target, payload, out);
                proof {
                    if let ReversePayload::Hid { bytes, .. } = payload {
                        assert(old(out)@ + Seq::<ReverseOutput>::empty() =~= old(out)@);
                        assert(old(out)@ + seq![ReverseOutput { function: OutputFunction::Lighting, payload: xbox_hid_payload(OutputFunction::Lighting, bytes@) }] =~= old(out)@.push(ReverseOutput { function: OutputFunction::Lighting, payload: xbox_hid_payload(OutputFunction::Lighting, bytes@) }));
                        assert(old(out)@ + seq![ReverseOutput { function: OutputFunction::PlayerIndicators, payload: xbox_hid_payload(OutputFunction::PlayerIndicators, bytes@) }] =~= old(out)@.push(ReverseOutput { function: OutputFunction::PlayerIndicators, payload: xbox_hid_payload(OutputFunction::PlayerIndicators, bytes@) }));
                        assert(old(out)@ + seq![ReverseOutput { function: OutputFunction::Rumble, payload: xbox_hid_payload(OutputFunction::Rumble, bytes@) }] =~= old(out)@.push(ReverseOutput { function: OutputFunction::Rumble, payload: xbox_hid_payload(OutputFunction::Rumble, bytes@) }));
                    }
                }
                Some(result)
            },
            TranslatorFamily::DualSense => Some(translate_dualsense_reverse(target, payload, out)),
            TranslatorFamily::SteamController => Some(translate_steam_reverse(target, payload, out)),
            _ => None,
        }
    }
}

/// Whether a session at `fidelity` needs a reverse translator for a
/// profile family: above compatibility, when the family declares any
/// reverse-supported output.
pub open spec fn spec_reverse_required(family: ProfileFamily, fidelity: FidelityTier) -> bool {
    fidelity != FidelityTier::Compatibility && declared_reverse_outputs(family) != Set::<
        OutputFunction,
    >::empty()
}

pub fn reverse_required(family: ProfileFamily, fidelity: FidelityTier) -> (required: bool)
    ensures
        required == spec_reverse_required(family, fidelity),
{
    proof {
        assert(declared_reverse_outputs(ProfileFamily::Xbox360).contains(OutputFunction::Rumble));
        assert(declared_reverse_outputs(ProfileFamily::DualSense).contains(OutputFunction::Rumble));
        assert(declared_reverse_outputs(ProfileFamily::SteamController).contains(
            OutputFunction::Rumble,
        ));
        assert(declared_reverse_outputs(ProfileFamily::GenericGamepad) =~= Set::empty());
    }
    match fidelity {
        FidelityTier::Compatibility => false,
        _ => match family {
            ProfileFamily::GenericGamepad => false,
            _ => true,
        },
    }
}

/// A reverse translator never emits an output function that its profile
/// family does not declare as reverse-supported, whatever the report bytes
/// and target.
pub proof fn lemma_reverse_outputs_are_declared(target: Option<ReverseTarget>, bytes: Seq<u8>)
    ensures
        forall|j: int|
            0 <= j < dualsense_functions(target, bytes).len() ==> declared_reverse_outputs(
                ProfileFamily::DualSense,
            ).contains(#[trigger] dualsense_functions(target, bytes)[j]),
        forall|j: int|
            0 <= j < steam_functions(target, bytes).len() ==> declared_reverse_outputs(
                ProfileFamily::SteamController,
            ).contains(#[trigger] steam_functions(target, bytes)[j]),
        xbox_hid_function(target, bytes) matches Some(f) ==> declared_reverse_outputs(
            ProfileFamily::Xbox360,
        ).contains(f),
{
    let d = dualsense_functions(target, bytes);
    assert forall|j: int| 0 <= j < d.len() implies declared_reverse_outputs(
        ProfileFamily::DualSense,
    ).contains(#[trigger] d[j]) by {
        assert(d[j] != OutputFunction::Haptics || d[j] == OutputFunction::Haptics);
    }
}

} // verus!
