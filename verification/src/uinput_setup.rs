//! Creating a uinput device: the `ioctl` request codes, the ordered
//! capability and setup requests a realization turns into, the device
//! setup record, and the force-feedback request records uinput hands out.

use vstd::prelude::*;
use vstd::utf8::encode_utf8;

use crate::realization::{NativeAbsoluteAxis, NativeEvdevRealization, ProviderError, ProviderErrorView};
use crate::text::{decimal, push_decimal};

verus! {

/// The longest device name uinput stores, its terminating zero included.
pub const UINPUT_MAX_NAME_SIZE: usize = 80;

/// `ioctl` direction: no data.
pub const IOC_NONE: u64 = 0;

/// `ioctl` direction: data written to the kernel.
pub const IOC_WRITE: u64 = 1;

/// `ioctl` direction: data written to and read back from the kernel.
pub const IOC_READ_WRITE: u64 = 3;

/// Size of the kernel's `uinput_abs_setup`.
pub const UINPUT_ABS_SETUP_SIZE: u64 = 28;

/// Size of the kernel's `uinput_setup`.
pub const UINPUT_SETUP_SIZE: u64 = 92;

/// Size of the kernel's `uinput_ff_upload`.
pub const UINPUT_FF_UPLOAD_SIZE: u64 = 104;

/// Size of the kernel's `uinput_ff_erase`.
pub const UINPUT_FF_ERASE_SIZE: u64 = 12;

/// The uinput `ioctl` request code: direction, size, the `'U'` type and
/// the request number packed as the kernel's `_IOC` macro does.
pub open spec fn spec_ioctl_code(direction: u64, number: u64, size: u64) -> int {
    direction * 0x4000_0000 + size * 0x1_0000 + 0x55 * 0x100 + number
}

pub fn ioctl_code(direction: u64, number: u64, size: u64) -> (code: u64)
    requires
        direction < 4,
        number < 0x100,
        size < 0x4000,
    ensures
        code == spec_ioctl_code(direction, number, size),
{
    let code = (direction << 30u64) | (0x55u64 << 8u64) | number | (size << 16u64);
    assert(code == direction * 0x4000_0000 + size * 0x1_0000 + 0x55 * 0x100 + number) by (bit_vector)
        requires
            direction < 4,
            number < 0x100,
            size < 0x4000,
            code == (direction << 30u64) | (0x55u64 << 8u64) | number | (size << 16u64),
    ;
    code
}

/// One request of the device-creation sequence.
#[derive(Debug, Clone, PartialEq, Eq, Structural)]
pub enum UinputSetupStep {
    /// Enable one capability bit: `number` selects the bit family
    /// (`UI_SET_EVBIT` and its siblings).
    SetBit { number: u8, value: u16 },
    /// Describe one absolute axis (`UI_ABS_SETUP`).
    AbsSetup { axis: NativeAbsoluteAxis },
    /// Set the device's identity and name (`UI_DEV_SETUP`).
    DevSetup,
    /// Create the device (`UI_DEV_CREATE`).
    DevCreate,
}

/// The request number of `UI_SET_EVBIT`.
pub const UI_SET_EVBIT: u8 = 100;
/// The request number of `UI_SET_KEYBIT`.
pub const UI_SET_KEYBIT: u8 = 101;
/// The request number of `UI_SET_RELBIT`.
pub const UI_SET_RELBIT: u8 = 102;
/// The request number of `UI_SET_ABSBIT`.
pub const UI_SET_ABSBIT: u8 = 103;
/// The request number of `UI_SET_LEDBIT`.
pub const UI_SET_LEDBIT: u8 = 105;
/// The request number of `UI_SET_FFBIT`.
pub const UI_SET_FFBIT: u8 = 107;
/// The request number of `UI_SET_SWBIT`.
pub const UI_SET_SWBIT: u8 = 109;

/// One `SetBit` step per value, in order.
pub open spec fn bit_steps(number: u8, values: Seq<u16>) -> Seq<UinputSetupStep> {
    Seq::new(values.len(), |i: int| UinputSetupStep::SetBit { number, value: values[i] })
}

/// For each axis, its `UI_SET_ABSBIT` then its `UI_ABS_SETUP`.
pub open spec fn axis_steps(axes: Seq<NativeAbsoluteAxis>) -> Seq<UinputSetupStep>
    decreases axes.len(),
{
    if axes.len() == 0 {
        Seq::empty()
    } else {
        axis_steps(axes.drop_last()) + seq![
            UinputSetupStep::SetBit { number: UI_SET_ABSBIT, value: axes.last().code },
            UinputSetupStep::AbsSetup { axis: axes.last() },
        ]
    }
}

/// The whole creation sequence: event types, keys, relative axes,
/// absolute axes, force-feedback effects, LEDs and switches, then the
/// device setup and creation.
pub open spec fn spec_setup_plan(spec: NativeEvdevRealization) -> Seq<UinputSetupStep> {
    bit_steps(UI_SET_EVBIT, spec.event_codes@) + bit_steps(UI_SET_KEYBIT, spec.key_codes@)
        + bit_steps(UI_SET_RELBIT, spec.relative_axes@) + axis_steps(spec.absolute_axes@)
        + bit_steps(UI_SET_FFBIT, spec.force_feedback_codes@) + bit_steps(
        UI_SET_LEDBIT,
        spec.led_codes@,
    ) + bit_steps(UI_SET_SWBIT, spec.switch_codes@) + seq![
        UinputSetupStep::DevSetup,
        UinputSetupStep::DevCreate,
    ]
}

/// `plan` sets capability bit `value` of family `number` before the device
/// is set up: some step before the last two is that `SetBit`.
pub open spec fn declared_before_setup(plan: Seq<UinputSetupStep>, number: u8, value: u16) -> bool {
    exists|k: int| 0 <= k < plan.len() - 2 && plan[k] == UinputSetupStep::SetBit { number, value }
}

/// `plan` describes `axis` with `UI_ABS_SETUP` before the device is set up.
pub open spec fn axis_described_before_setup(plan: Seq<UinputSetupStep>, axis: NativeAbsoluteAxis) -> bool {
    exists|k: int| 0 <= k < plan.len() - 2 && plan[k] == UinputSetupStep::AbsSetup { axis }
}

/// `step` is a capability of `spec` declared under its family's request,
/// or the description of one of its absolute axes.
pub open spec fn step_from_realization(step: UinputSetupStep, spec: NativeEvdevRealization) -> bool {
    match step {
        UinputSetupStep::SetBit { number, value } => {
            ||| number == 100 && spec.event_codes@.contains(value)
            ||| number == 101 && spec.key_codes@.contains(value)
            ||| number == 102 && spec.relative_axes@.contains(value)
            ||| number == 103 && exists|i: int|
                0 <= i < spec.absolute_axes@.len() && #[trigger] spec.absolute_axes@[i].code == value
            ||| number == 107 && spec.force_feedback_codes@.contains(value)
            ||| number == 105 && spec.led_codes@.contains(value)
            ||| number == 109 && spec.switch_codes@.contains(value)
        },
        UinputSetupStep::AbsSetup { axis } => spec.absolute_axes@.contains(axis),
        _ => false,
    }
}

proof fn lemma_axis_steps_layout(axes: Seq<NativeAbsoluteAxis>)
    ensures
        axis_steps(axes).len() == 2 * axes.len(),
        forall|i: int|
            0 <= i < axes.len() ==> axis_steps(axes)[2 * i] == (UinputSetupStep::SetBit {
                number: UI_SET_ABSBIT,
                value: axes[i].code,
            }) && axis_steps(axes)[2 * i + 1] == (UinputSetupStep::AbsSetup { axis: axes[i] }),
    decreases axes.len(),
{
    if axes.len() > 0 {
        lemma_axis_steps_layout(axes.drop_last());
        let earlier = axis_steps(axes.drop_last());
        assert forall|i: int|
            0 <= i < axes.len() implies axis_steps(axes)[2 * i] == (UinputSetupStep::SetBit {
            number: UI_SET_ABSBIT,
            value: axes[i].code,
        }) && axis_steps(axes)[2 * i + 1] == (UinputSetupStep::AbsSetup { axis: axes[i] }) by {
            if i < axes.len() - 1 {
                assert(axes.drop_last()[i] == axes[i]);
                assert(axis_steps(axes)[2 * i] == earlier[2 * i]);
                assert(axis_steps(axes)[2 * i + 1] == earlier[2 * i + 1]);
            }
        }
    }
}

/// The creation sequence declares every capability of the realization
/// before it sets the device up, under the uinput request the evdev ABI
/// gives its family: event types with `UI_SET_EVBIT` (100), keys with
/// `UI_SET_KEYBIT` (101), relative axes with `UI_SET_RELBIT` (102),
/// absolute axes with `UI_SET_ABSBIT` (103) and `UI_ABS_SETUP`,
/// force-feedback effects with `UI_SET_FFBIT` (107), LEDs with
/// `UI_SET_LEDBIT` (105) and switches with `UI_SET_SWBIT` (109). Every
/// earlier step is one of these declarations of the realization's own
/// capabilities, and it ends with `UI_DEV_SETUP` then `UI_DEV_CREATE`.
pub proof fn lemma_setup_plan_declares_every_capability(spec: NativeEvdevRealization)
    ensures
        ({
            let plan = spec_setup_plan(spec);
            &&& plan.len() >= 2
            &&& plan[plan.len() - 2] == UinputSetupStep::DevSetup
            &&& plan[plan.len() - 1] == UinputSetupStep::DevCreate
            &&& forall|k: int| 0 <= k < plan.len() - 2 ==> step_from_realization(#[trigger] plan[k], spec)
            &&& forall|i: int|
                0 <= i < spec.event_codes@.len() ==> declared_before_setup(plan, 100, #[trigger] spec.event_codes@[i])
            &&& forall|i: int|
                0 <= i < spec.key_codes@.len() ==> declared_before_setup(plan, 101, #[trigger] spec.key_codes@[i])
            &&& forall|i: int|
                0 <= i < spec.relative_axes@.len() ==> declared_before_setup(
                    plan,
                    102,
                    #[trigger] spec.relative_axes@[i],
                )
            &&& forall|i: int|
                0 <= i < spec.absolute_axes@.len() ==> declared_before_setup(
                    plan,
                    103,
                    (#[trigger] spec.absolute_axes@[i]).code,
                ) && axis_described_before_setup(plan, spec.absolute_axes@[i])
            &&& forall|i: int|
                0 <= i < spec.force_feedback_codes@.len() ==> declared_before_setup(
                    plan,
                    107,
                    #[trigger] spec.force_feedback_codes@[i],
                )
            &&& forall|i: int|
                0 <= i < spec.led_codes@.len() ==> declared_before_setup(plan, 105, #[trigger] spec.led_codes@[i])
            &&& forall|i: int|
                0 <= i < spec.switch_codes@.len() ==> declared_before_setup(plan, 109, #[trigger] spec.switch_codes@[i])
        }),
{
    let ev = bit_steps(UI_SET_EVBIT, spec.event_codes@);
    let keys = bit_steps(UI_SET_KEYBIT, spec.key_codes@);
    let rel = bit_steps(UI_SET_RELBIT, spec.relative_axes@);
    let abs = axis_steps(spec.absolute_axes@);
    let ff = bit_steps(UI_SET_FFBIT, spec.force_feedback_codes@);
    let leds = bit_steps(UI_SET_LEDBIT, spec.led_codes@);
    let sw = bit_steps(UI_SET_SWBIT, spec.switch_codes@);
    let tail = seq![UinputSetupStep::DevSetup, UinputSetupStep::DevCreate];
    lemma_axis_steps_layout(spec.absolute_axes@);
    let body = ev + keys + rel + abs + ff + leds + sw;
    let plan = spec_setup_plan(spec);
    assert(plan == body + tail);
    assert(plan.subrange(0, body.len() as int) =~= body);
    let o1 = ev.len() as int;
    let o2 = o1 + keys.len();
    let o3 = o2 + rel.len();
    let o4 = o3 + abs.len();
    let o5 = o4 + ff.len();
    let o6 = o5 + leds.len();
    assert forall|k: int| 0 <= k < plan.len() - 2 implies step_from_realization(#[trigger] plan[k], spec) by {
        assert(plan[k] == body[k]);
        if k < o1 {
            assert(body[k] == ev[k]);
            assert(spec.event_codes@[k] == spec.event_codes@[k]);
        } else if k < o2 {
            assert(body[k] == keys[k - o1]);
            assert(spec.key_codes@[k - o1] == spec.key_codes@[k - o1]);
        } else if k < o3 {
            assert(body[k] == rel[k - o2]);
            assert(spec.relative_axes@[k - o2] == spec.relative_axes@[k - o2]);
        } else if k < o4 {
            let j = k - o3;
            let i = j / 2;
            assert(j == 2 * i || j == 2 * i + 1);
            assert(0 <= i < spec.absolute_axes@.len());
            assert(body[k] == abs[j]);
            if j == 2 * i {
                assert(abs[2 * i] == (UinputSetupStep::SetBit {
                    number: UI_SET_ABSBIT,
                    value: spec.absolute_axes@[i].code,
                }));
            } else {
                assert(abs[2 * i + 1] == (UinputSetupStep::AbsSetup { axis: spec.absolute_axes@[i] }));
                assert(spec.absolute_axes@[i] == spec.absolute_axes@[i]);
            }
        } else if k < o5 {
            assert(body[k] == ff[k - o4]);
            assert(spec.force_feedback_codes@[k - o4] == spec.force_feedback_codes@[k - o4]);
        } else if k < o6 {
            assert(body[k] == leds[k - o5]);
            assert(spec.led_codes@[k - o5] == spec.led_codes@[k - o5]);
        } else {
            assert(body[k] == sw[k - o6]);
            assert(spec.switch_codes@[k - o6] == spec.switch_codes@[k - o6]);
        }
    }
    assert forall|i: int| 0 <= i < spec.event_codes@.len() implies declared_before_setup(
        plan,
        100,
        #[trigger] spec.event_codes@[i],
    ) by {
        assert(plan[i] == body[i]);
    }
    assert forall|i: int| 0 <= i < spec.key_codes@.len() implies declared_before_setup(
        plan,
        101,
        #[trigger] spec.key_codes@[i],
    ) by {
        assert(plan[o1 + i] == body[o1 + i]);
    }
    assert forall|i: int| 0 <= i < spec.relative_axes@.len() implies declared_before_setup(
        plan,
        102,
        #[trigger] spec.relative_axes@[i],
    ) by {
        assert(plan[o2 + i] == body[o2 + i]);
    }
    assert forall|i: int| 0 <= i < spec.absolute_axes@.len() implies declared_before_setup(
        plan,
        103,
        (#[trigger] spec.absolute_axes@[i]).code,
    ) && axis_described_before_setup(plan, spec.absolute_axes@[i]) by {
        assert(plan[o3 + 2 * i] == body[o3 + 2 * i]);
        assert(plan[o3 + 2 * i + 1] == body[o3 + 2 * i + 1]);
        assert(abs[2 * i] == (UinputSetupStep::SetBit { number: UI_SET_ABSBIT, value: spec.absolute_axes@[i].code }));
    }
    assert forall|i: int| 0 <= i < spec.force_feedback_codes@.len() implies declared_before_setup(
        plan,
        107,
        #[trigger] spec.force_feedback_codes@[i],
    ) by {
        assert(plan[o4 + i] == body[o4 + i]);
    }
    assert forall|i: int| 0 <= i < spec.led_codes@.len() implies declared_before_setup(
        plan,
        105,
        #[trigger] spec.led_codes@[i],
    ) by {
        assert(plan[o5 + i] == body[o5 + i]);
    }
    assert forall|i: int| 0 <= i < spec.switch_codes@.len() implies declared_before_setup(
        plan,
        109,
        #[trigger] spec.switch_codes@[i],
    ) by {
        assert(plan[o6 + i] == body[o6 + i]);
    }
}

fn push_bit_steps(plan: &mut Vec<UinputSetupStep>, number: u8, values: &Vec<u16>)
    ensures
        final(plan)@ == old(plan)@ + bit_steps(number, values@),
{
    let ghost start = plan@;
    let mut index: usize = 0;
    while index < values.len()
        invariant
            0 <= index <= values@.len(),
            plan@ == start + bit_steps(number, values@.subrange(0, index as int)),
        decreases values@.len() - index,
    {
        plan.push(UinputSetupStep::SetBit { number, value: values[index] });
        assert(bit_steps(number, values@.subrange(0, index as int + 1)) =~= bit_steps(
            number,
            values@.subrange(0, index as int),
        ).push(UinputSetupStep::SetBit { number, value: values@[index as int] }));
        index = index + 1;
    }
    assert(values@.subrange(0, values@.len() as int) =~= values@);
}

fn push_axis_steps(plan: &mut Vec<UinputSetupStep>, axes: &Vec<NativeAbsoluteAxis>)
    ensures
        final(plan)@ == old(plan)@ + axis_steps(axes@),
{
    let ghost start = plan@;
    let mut index: usize = 0;
    while index < axes.len()
        invariant
            0 <= index <= axes@.len(),
            plan@ == start + axis_steps(axes@.subrange(0, index as int)),
        decreases axes@.len() - index,
    {
        let source = &axes[index];
        let axis = NativeAbsoluteAxis {
            code: source.code,
            minimum: source.minimum,
            maximum: source.maximum,
            flat: source.flat,
        };
        plan.push(UinputSetupStep::SetBit { number: UI_SET_ABSBIT, value: axis.code });
        plan.push(UinputSetupStep::AbsSetup { axis });
        let ghost prefix = axes@.subrange(0, index as int + 1);
        assert(prefix.drop_last() =~= axes@.subrange(0, index as int));
        assert(prefix.last() == axis);
        assert(plan@ =~= start + axis_steps(prefix));
        index = index + 1;
    }
    assert(axes@.subrange(0, axes@.len() as int) =~= axes@);
}

/// The requests that create a uinput device for `spec`, in order.
pub fn setup_plan(spec: &NativeEvdevRealization) -> (plan: Vec<UinputSetupStep>)
    ensures
        plan@ == spec_setup_plan(*spec),
{
    let mut plan: Vec<UinputSetupStep> = Vec::new();
    push_bit_steps(&mut plan, UI_SET_EVBIT, &spec.event_codes);
    push_bit_steps(&mut plan, UI_SET_KEYBIT, &spec.key_codes);
    push_bit_steps(&mut plan, UI_SET_RELBIT, &spec.relative_axes);
    push_axis_steps(&mut plan, &spec.absolute_axes);
    push_bit_steps(&mut plan, UI_SET_FFBIT, &spec.force_feedback_codes);
    push_bit_steps(&mut plan, UI_SET_LEDBIT, &spec.led_codes);
    push_bit_steps(&mut plan, UI_SET_SWBIT, &spec.switch_codes);
    plan.push(UinputSetupStep::DevSetup);
    plan.push(UinputSetupStep::DevCreate);
    assert(plan@ =~= spec_setup_plan(*spec));
    plan
}

/// The name of the request a step issues, for error messages.
pub open spec fn spec_step_operation(step: UinputSetupStep) -> Seq<char> {
    match step {
        UinputSetupStep::SetBit { number, .. } => if number == UI_SET_EVBIT {
            "UI_SET_EVBIT"@
        } else if number == UI_SET_KEYBIT {
            "UI_SET_KEYBIT"@
        } else if number == UI_SET_RELBIT {
            "UI_SET_RELBIT"@
        } else if number == UI_SET_ABSBIT {
            "UI_SET_ABSBIT"@
        } else if number == UI_SET_FFBIT {
            "UI_SET_FFBIT"@
        } else if number == UI_SET_LEDBIT {
            "UI_SET_LEDBIT"@
        } else {
            "UI_SET_SWBIT"@
        },
        UinputSetupStep::AbsSetup { .. } => "UI_ABS_SETUP"@,
        UinputSetupStep::DevSetup => "UI_DEV_SETUP"@,
        UinputSetupStep::DevCreate => "UI_DEV_CREATE"@,
    }
}

/// The value a step's error message names (`0` names none).
pub open spec fn spec_step_value(step: UinputSetupStep) -> u16 {
    match step {
        UinputSetupStep::SetBit { value, .. } => value,
        UinputSetupStep::AbsSetup { axis } => axis.code,
        _ => 0,
    }
}

impl UinputSetupStep {
    pub fn operation(&self) -> (name: &'static str)
        ensures
            name@ == spec_step_operation(*self),
    {
        match self {
            UinputSetupStep::SetBit { number, .. } => if *number == UI_SET_EVBIT {
                "UI_SET_EVBIT"
            } else if *number == UI_SET_KEYBIT {
                "UI_SET_KEYBIT"
            } else if *number == UI_SET_RELBIT {
                "UI_SET_RELBIT"
            } else if *number == UI_SET_ABSBIT {
                "UI_SET_ABSBIT"
            } else if *number == UI_SET_FFBIT {
                "UI_SET_FFBIT"
            } else if *number == UI_SET_LEDBIT {
                "UI_SET_LEDBIT"
            } else {
                "UI_SET_SWBIT"
            },
            UinputSetupStep::AbsSetup { .. } => "UI_ABS_SETUP",
            UinputSetupStep::DevSetup => "UI_DEV_SETUP",
            UinputSetupStep::DevCreate => "UI_DEV_CREATE",
        }
    }

    pub fn value(&self) -> (value: u16)
        ensures
            value == spec_step_value(*self),
    {
        match self {
            UinputSetupStep::SetBit { value, .. } => *value,
            UinputSetupStep::AbsSetup { axis } => axis.code,
            _ => 0,
        }
    }

    /// The `ioctl` request code of the step.
    pub fn request(&self) -> (code: u64)
        ensures
            code == match *self {
                UinputSetupStep::SetBit { number, .. } => spec_ioctl_code(IOC_WRITE, number as u64, 4),
                UinputSetupStep::AbsSetup { .. } => spec_ioctl_code(
                    IOC_WRITE,
                    4,
                    UINPUT_ABS_SETUP_SIZE,
                ),
                UinputSetupStep::DevSetup => spec_ioctl_code(IOC_WRITE, 3, UINPUT_SETUP_SIZE),
                UinputSetupStep::DevCreate => spec_ioctl_code(IOC_NONE, 1, 0),
            },
    {
        match self {
            UinputSetupStep::SetBit { number, .. } => ioctl_code(IOC_WRITE, *number as u64, 4),
            UinputSetupStep::AbsSetup { .. } => ioctl_code(IOC_WRITE, 4, UINPUT_ABS_SETUP_SIZE),
            UinputSetupStep::DevSetup => ioctl_code(IOC_WRITE, 3, UINPUT_SETUP_SIZE),
            UinputSetupStep::DevCreate => ioctl_code(IOC_NONE, 1, 0),
        }
    }
}

/// The text of a failed creation request: the request's name, the value
/// it carried (unless that is `0`), then the reason.
pub open spec fn setup_failure_reason(operation: Seq<char>, value: u16, reason: Seq<char>) -> Seq<
    char,
> {
    operation + (if value == 0 {
        Seq::empty()
    } else {
        " ("@ + decimal(value as nat) + ")"@
    }) + ": "@ + reason
}

/// Name the failed creation request in an open error; other errors pass
/// unchanged.
pub fn setup_error(error: ProviderError, operation: &str, value: u16) -> (named: ProviderError)
    ensures
        match error {
            ProviderError::Open { reason } => named@ == (ProviderErrorView::Open {
                reason: setup_failure_reason(operation@, value, reason@),
            }),
            _ => named == error,
        },
{
    match error {
        ProviderError::Open { reason } => {
            let mut text = String::from_str(operation);
            if value != 0 {
                text.append(" (");
                push_decimal(&mut text, value as u64);
                text.append(")");
            }
            text.append(": ");
            text.append(reason.as_str());
            assert(text@ =~= setup_failure_reason(operation@, value, reason@));
            ProviderError::Open { reason: text }
        },
        other => other,
    }
}

/// The `uinput_setup` record of a device: USB bus, the realization's
/// identity, its name truncated to leave a terminating zero, and room for
/// force-feedback effects when it declares any.
#[derive(Debug, Clone, PartialEq, Eq)]
pub struct UinputDeviceSetup {
    pub bustype: u16,
    pub vendor: u16,
    pub product: u16,
    pub version: u16,
    /// `UINPUT_MAX_NAME_SIZE` bytes: the name, then zeros.
    pub name: Vec<u8>,
    pub ff_effects_max: u32,
}

/// The name field: the first bytes of `name` (at most one fewer than the
/// field holds), then zeros.
pub open spec fn spec_name_field(name: Seq<u8>) -> Seq<u8> {
    let length = if name.len() < UINPUT_MAX_NAME_SIZE - 1 {
        name.len()
    } else {
        (UINPUT_MAX_NAME_SIZE - 1) as nat
    };
    name.subrange(0, length as int) + Seq::new(
        (UINPUT_MAX_NAME_SIZE - length) as nat,
        |i: int| 0u8,
    )
}

pub fn device_setup(spec: &NativeEvdevRealization) -> (setup: UinputDeviceSetup)
    ensures
        setup.bustype == 3,
        setup.vendor == spec.identity.vendor_id,
        setup.product == spec.identity.product_id,
        setup.version == spec.identity.version,
        setup.name@ == spec_name_field(encode_utf8(spec.device_name@)),
        setup.ff_effects_max == (if spec.force_feedback_codes@.len() == 0 {
            0int
        } else {
            64int
        }),
{
    let bytes = spec.device_name.as_str().as_bytes();
    let length = if bytes.len() < UINPUT_MAX_NAME_SIZE - 1 {
        bytes.len()
    } else {
        UINPUT_MAX_NAME_SIZE - 1
    };
    let mut name: Vec<u8> = Vec::new();
    let mut index: usize = 0;
    while index < UINPUT_MAX_NAME_SIZE
        invariant
            0 <= index <= UINPUT_MAX_NAME_SIZE,
            length == (if bytes@.len() < UINPUT_MAX_NAME_SIZE - 1 {
                bytes@.len()
            } else {
                (UINPUT_MAX_NAME_SIZE - 1) as nat
            }),
            name@.len() == index,
            forall|k: int| 0 <= k < index ==> name@[k] == spec_name_field(bytes@)[k],
        decreases UINPUT_MAX_NAME_SIZE - index,
    {
        if index < length {
            name.push(bytes[index]);
        } else {
            name.push(0);
        }
        index = index + 1;
    }
    assert(name@ =~= spec_name_field(bytes@));
    UinputDeviceSetup {
        bustype: 3,
        vendor: spec.identity.vendor_id,
        product: spec.identity.product_id,
        version: spec.identity.version,
        name,
        ff_effects_max: if spec.force_feedback_codes.len() == 0 {
            0
        } else {
            64
        },
    }
}

/// A force-feedback upload request read back from uinput.
#[derive(Debug, Clone, Copy, PartialEq, Eq)]
pub struct FfUpload {
    pub request_id: u32,
    pub retval: i32,
    pub effect: [u8; 48],
    pub old: [u8; 48],
}

/// A force-feedback erase request read back from uinput.
#[derive(Debug, Clone, Copy, PartialEq, Eq, Structural)]
pub struct FfErase {
    pub request_id: u32,
    pub retval: i32,
    pub effect_id: u32,
}

impl FfUpload {
    /// The record the kernel fills in for `request_id`.
    pub fn new(request_id: u32) -> (upload: Self)
        ensures
            upload.request_id == request_id,
            upload.retval == 0,
            upload.effect@ == Seq::new(48, |i: int| 0u8),
            upload.old@ == Seq::new(48, |i: int| 0u8),
    {
        let upload = FfUpload { request_id, retval: 0, effect: [0u8; 48], old: [0u8; 48] };
        assert(upload.effect@ =~= Seq::new(48, |i: int| 0u8));
        assert(upload.old@ =~= Seq::new(48, |i: int| 0u8));
        upload
    }

    /// The record that answers the request with `status`.
    pub fn answered(self, status: i32) -> (answer: Self)
        ensures
            answer.request_id == self.request_id,
            answer.retval == status,
            answer.effect == self.effect,
            answer.old == self.old,
    {
        FfUpload { retval: status, ..self }
    }

    /// The effect's bytes.
    pub fn effect_bytes(&self) -> (bytes: Vec<u8>)
        ensures
            bytes@ == self.effect@,
    {
        let mut bytes: Vec<u8> = Vec::new();
        let mut index: usize = 0;
        while index < 48
            invariant
                0 <= index <= 48,
                self.effect@.len() == 48,
                bytes@ == self.effect@.subrange(0, index as int),
            decreases 48 - index,
        {
            bytes.push(self.effect[index]);
            assert(self.effect@.subrange(0, index as int + 1) =~= self.effect@.subrange(
                0,
                index as int,
            ).push(self.effect@[index as int]));
            index = index + 1;
        }
        assert(self.effect@.subrange(0, 48) =~= self.effect@);
        bytes
    }
}

impl FfErase {
    /// The record the kernel fills in for `request_id`.
    pub fn new(request_id: u32) -> (erase: Self)
        ensures
            erase == (FfErase { request_id, retval: 0, effect_id: 0 }),
    {
        FfErase { request_id, retval: 0, effect_id: 0 }
    }

    /// The record that answers the request with `status`.
    pub fn answered(self, status: i32) -> (answer: Self)
        ensures
            answer == (FfErase { retval: status, ..self }),
    {
        FfErase { retval: status, ..self }
    }
}

} // verus!
