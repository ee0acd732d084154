//! Fixed-layout UHID kernel events (little-endian `struct uhid_event`
//! images) and the `HID_ID=` matcher used to find the hidraw node of a
//! created device.

use vstd::prelude::*;

use crate::bytes::{
    le_bytes, le_value, lemma_le_roundtrip, pow256, push_all, push_uint, push_zeros, read_uint,
    zeros, ByteOrder,
};
use crate::realization::NativeHidRealization;
use vstd::utf8::encode_utf8;

verus! {

pub const UHID_DESTROY: u32 = 1;

pub const UHID_OUTPUT: u32 = 6;

pub const UHID_GET_REPORT: u32 = 9;

pub const UHID_GET_REPORT_REPLY: u32 = 10;

pub const UHID_CREATE2: u32 = 11;

pub const UHID_INPUT2: u32 = 12;

pub const UHID_SET_REPORT: u32 = 13;

pub const UHID_SET_REPORT_REPLY: u32 = 14;

pub const UHID_FEATURE_REPORT: u8 = 0;

pub const UHID_NAME_LEN: usize = 128;

pub const UHID_PHYS_LEN: usize = 64;

pub const UHID_UNIQ_LEN: usize = 64;

pub const UHID_DATA_MAX: usize = 4096;

pub const UHID_CREATE2_PAYLOAD_LEN: usize = UHID_NAME_LEN + UHID_PHYS_LEN + UHID_UNIQ_LEN + 2 + 2
    + 4 + 4 + 4 + 4 + UHID_DATA_MAX;

pub const UHID_RAW_EVENT_LEN: usize = 4 + UHID_CREATE2_PAYLOAD_LEN;

/// Linux bus number of USB.
pub const BUS_USB: u16 = 0x03;

/// Linux bus number of Bluetooth.
pub const BUS_BLUETOOTH: u16 = 0x05;

/// The little-endian `u16` in the first two bytes.
pub fn le_u16(bytes: &[u8]) -> (value: u16)
    requires
        bytes.len() >= 2,
    ensures
        value == le_value(bytes@.subrange(0, 2)),
{
    let value: u64 = read_uint(slice_prefix(bytes, 2), ByteOrder::Little);
    proof {
        lemma_le_value_bound(bytes@.subrange(0, 2));
        assert(pow256(2) == 0x1_0000) by {
            reveal_with_fuel(pow256, 3);
        }
    }
    value as u16
}

/// The little-endian `u32` in the first four bytes.
pub fn le_u32(bytes: &[u8]) -> (value: u32)
    requires
        bytes.len() >= 4,
    ensures
        value == le_value(bytes@.subrange(0, 4)),
{
    let value: u64 = read_uint(slice_prefix(bytes, 4), ByteOrder::Little);
    proof {
        lemma_le_value_bound(bytes@.subrange(0, 4));
        assert(pow256(4) == 0x1_0000_0000) by {
            reveal_with_fuel(pow256, 5);
        }
    }
    value as u32
}

fn slice_prefix(bytes: &[u8], n: usize) -> (prefix: &[u8])
    requires
        n <= bytes.len(),
    ensures
        prefix@ == bytes@.subrange(0, n as int),
{
    &bytes[0..n]
}

/// Bytes read least significant first hold less than `256^len`.
pub proof fn lemma_le_value_bound(bytes: Seq<u8>)
    ensures
        le_value(bytes) < pow256(bytes.len()),
    decreases bytes.len(),
{
    if bytes.len() > 0 {
        lemma_le_value_bound(bytes.drop_first());
    }
}

/// A report's bytes with its report ID, when it has one, in front.
pub open spec fn spec_pack_report_payload(report_id: Option<u8>, bytes: Seq<u8>) -> Seq<u8> {
    match report_id {
        Some(id) => seq![id] + bytes,
        None => bytes,
    }
}

/// A report split into its report ID and payload: numbered reports carry
/// the ID in their first byte; an empty or unnumbered report has none.
pub open spec fn spec_split_report_payload(numbered: bool, bytes: Seq<u8>) -> (
    Option<u8>,
    Seq<u8>,
) {
    if numbered && bytes.len() > 0 {
        (Some(bytes[0]), bytes.drop_first())
    } else {
        (None, bytes)
    }
}

pub fn pack_report_payload(report_id: Option<u8>, bytes: &[u8]) -> (payload: Vec<u8>)
    ensures
        payload@ == spec_pack_report_payload(report_id, bytes@),
{
    let mut payload: Vec<u8> = Vec::new();
    match report_id {
        Some(id) => {
            payload.push(id);
        },
        None => {},
    }
    push_all(&mut payload, bytes);
    payload
}

pub fn split_report_payload(numbered: bool, bytes: Vec<u8>) -> (split: (Option<u8>, Vec<u8>))
    ensures
        (split.0, split.1@) == spec_split_report_payload(numbered, bytes@),
{
    if numbered && bytes.len() > 0 {
        let report_id: u8 = bytes[0];
        let mut rest: Vec<u8> = Vec::new();
        let mut index: usize = 1;
        while index < bytes.len()
            invariant
                1 <= index <= bytes.len(),
                rest@ == bytes@.subrange(1, index as int),
            decreases bytes.len() - index,
        {
            rest.push(bytes[index]);
            index = index + 1;
            assert(rest@ =~= bytes@.subrange(1, index as int));
        }
        assert(rest@ =~= bytes@.drop_first());
        return (Some(report_id), rest);
    }
    (None, bytes)
}

/// Splitting a packed report gives back its report ID and bytes, whenever
/// the numbering agrees with the presence of an ID.
pub proof fn lemma_split_undoes_pack(report_id: Option<u8>, bytes: Seq<u8>)
    ensures
        report_id is Some ==> spec_split_report_payload(
            true,
            spec_pack_report_payload(report_id, bytes),
        ) == (report_id, bytes),
        report_id is None ==> spec_split_report_payload(
            false,
            spec_pack_report_payload(report_id, bytes),
        ) == (report_id, bytes),
{
    if report_id is Some {
        assert((seq![report_id->0] + bytes).drop_first() =~= bytes);
    }
}

/// The leading `n` bytes of `src`, cut or zero-padded to exactly `n`.
pub open spec fn fixed_field(src: Seq<u8>, n: nat) -> Seq<u8> {
    if src.len() >= n {
        src.subrange(0, n as int)
    } else {
        src + zeros((n - src.len()) as nat)
    }
}

/// A `u16` size field: the length, saturated at `u16::MAX`.
pub open spec fn size_field(len: nat) -> Seq<u8> {
    le_bytes(if len > 0xffff { 0xffff } else { len }, 2)
}

pub open spec fn spec_destroy_event() -> Seq<u8> {
    le_bytes(UHID_DESTROY as nat, 4) + zeros((UHID_RAW_EVENT_LEN - 4) as nat)
}

pub open spec fn spec_input2_event(payload: Seq<u8>) -> Seq<u8> {
    le_bytes(UHID_INPUT2 as nat, 4) + size_field(payload.len()) + payload + zeros(
        (UHID_RAW_EVENT_LEN - 6 - payload.len()) as nat,
    )
}

pub open spec fn spec_get_report_reply_event(id: u32, err: u16, payload: Seq<u8>) -> Seq<u8> {
    le_bytes(UHID_GET_REPORT_REPLY as nat, 4) + le_bytes(id as nat, 4) + le_bytes(err as nat, 2)
        + size_field(payload.len()) + payload + zeros(
        (UHID_RAW_EVENT_LEN - 12 - payload.len()) as nat,
    )
}

pub open spec fn spec_set_report_reply_event(id: u32, err: u16) -> Seq<u8> {
    le_bytes(UHID_SET_REPORT_REPLY as nat, 4) + le_bytes(id as nat, 4) + le_bytes(err as nat, 2)
        + zeros((UHID_RAW_EVENT_LEN - 10) as nat)
}

/// The `UHID_CREATE2` image: name, phys and uniq fields, descriptor size,
/// bus, vendor, product, version, a zero country code, then the descriptor.
pub open spec fn spec_create2_event(spec: NativeHidRealization) -> Seq<u8> {
    le_bytes(UHID_CREATE2 as nat, 4) + fixed_field(
        encode_utf8(spec.device_name@),
        UHID_NAME_LEN as nat,
    ) + fixed_field(encode_utf8(spec.physical_path@), UHID_PHYS_LEN as nat) + fixed_field(
        encode_utf8(spec.unique_id@),
        UHID_UNIQ_LEN as nat,
    ) + size_field(spec.descriptor@.len()) + le_bytes(spec.bus_type as nat, 2) + le_bytes(
        spec.identity.vendor_id as nat,
        4,
    ) + le_bytes(spec.identity.product_id as nat, 4) + le_bytes(spec.identity.version as nat, 4)
        + le_bytes(0, 4) + spec.descriptor@ + zeros((UHID_DATA_MAX - spec.descriptor@.len()) as nat)
}

/// The `UHID_CREATE2` image field by field: the event type at 0, the name
/// at 4, phys at 132, uniq at 196 (each its first bytes up to the field's
/// size, zero padded), the descriptor size at 260, bus at 262, vendor at
/// 264, product at 268, version at 272, a zero country code at 276, the
/// descriptor at 280 and zeros to the end of the event.
pub proof fn lemma_create2_layout(spec: NativeHidRealization)
    requires
        spec.descriptor@.len() <= UHID_DATA_MAX,
    ensures
        ({
            let raw = spec_create2_event(spec);
            let len = spec.descriptor@.len();
            &&& raw.len() == UHID_RAW_EVENT_LEN
            &&& raw.subrange(0, 4) == le_bytes(UHID_CREATE2 as nat, 4)
            &&& raw.subrange(4, 132) == fixed_field(encode_utf8(spec.device_name@), 128)
            &&& raw.subrange(132, 196) == fixed_field(encode_utf8(spec.physical_path@), 64)
            &&& raw.subrange(196, 260) == fixed_field(encode_utf8(spec.unique_id@), 64)
            &&& raw.subrange(260, 262) == size_field(len)
            &&& raw.subrange(262, 264) == le_bytes(spec.bus_type as nat, 2)
            &&& raw.subrange(264, 268) == le_bytes(spec.identity.vendor_id as nat, 4)
            &&& raw.subrange(268, 272) == le_bytes(spec.identity.product_id as nat, 4)
            &&& raw.subrange(272, 276) == le_bytes(spec.identity.version as nat, 4)
            &&& raw.subrange(276, 280) == le_bytes(0, 4)
            &&& raw.subrange(280, 280 + len as int) == spec.descriptor@
            &&& raw.subrange(280 + len as int, raw.len() as int) == zeros((UHID_DATA_MAX - len) as nat)
        }),
{
    let len = spec.descriptor@.len();
    let p0 = le_bytes(UHID_CREATE2 as nat, 4);
    let p1 = fixed_field(encode_utf8(spec.device_name@), 128);
    let p2 = fixed_field(encode_utf8(spec.physical_path@), 64);
    let p3 = fixed_field(encode_utf8(spec.unique_id@), 64);
    let p4 = size_field(len);
    let p5 = le_bytes(spec.bus_type as nat, 2);
    let p6 = le_bytes(spec.identity.vendor_id as nat, 4);
    let p7 = le_bytes(spec.identity.product_id as nat, 4);
    let p8 = le_bytes(spec.identity.version as nat, 4);
    let p9 = le_bytes(0, 4);
    let p10 = spec.descriptor@;
    let p11 = zeros((UHID_DATA_MAX - len) as nat);
    lemma_le_bytes_len(UHID_CREATE2 as nat, 4);
    lemma_le_bytes_len(if len > 0xffff { 0xffff } else { len }, 2);
    lemma_le_bytes_len(spec.bus_type as nat, 2);
    lemma_le_bytes_len(spec.identity.vendor_id as nat, 4);
    lemma_le_bytes_len(spec.identity.product_id as nat, 4);
    lemma_le_bytes_len(spec.identity.version as nat, 4);
    lemma_le_bytes_len(0, 4);
    assert(p1.len() == 128 && p2.len() == 64 && p3.len() == 64);
    let raw = spec_create2_event(spec);
    assert(raw == p0 + p1 + p2 + p3 + p4 + p5 + p6 + p7 + p8 + p9 + p10 + p11);
    assert(raw.subrange(0, 4) =~= p0);
    assert(raw.subrange(4, 132) =~= p1);
    assert(raw.subrange(132, 196) =~= p2);
    assert(raw.subrange(196, 260) =~= p3);
    assert(raw.subrange(260, 262) =~= p4);
    assert(raw.subrange(262, 264) =~= p5);
    assert(raw.subrange(264, 268) =~= p6);
    assert(raw.subrange(268, 272) =~= p7);
    assert(raw.subrange(272, 276) =~= p8);
    assert(raw.subrange(276, 280) =~= p9);
    assert(raw.subrange(280, 280 + len as int) =~= p10);
    assert(raw.subrange(280 + len as int, raw.len() as int) =~= p11);
}

fn push_le(out: &mut Vec<u8>, value: u64, width: u8)
    requires
        width <= 8,
    ensures
        final(out)@ == old(out)@ + le_bytes(value as nat, width as nat),
{
    push_uint(out, value, width, ByteOrder::Little);
}

fn push_size(out: &mut Vec<u8>, len: usize)
    ensures
        final(out)@ == old(out)@ + size_field(len as nat),
{
    let size: u64 = if len > 0xffff {
        0xffff
    } else {
        len as u64
    };
    push_le(out, size, 2);
}

fn push_fixed(out: &mut Vec<u8>, src: &[u8], n: usize)
    ensures
        final(out)@ == old(out)@ + fixed_field(src@, n as nat),
{
    let len: usize = if src.len() < n {
        src.len()
    } else {
        n
    };
    push_all(out, slice_prefix(src, len));
    push_zeros(out, n - len);
    assert(out@ =~= old(out)@ + fixed_field(src@, n as nat)) by {
        if src.len() < n {
            assert(src@.subrange(0, len as int) =~= src@);
        }
    }
}

proof fn lemma_le_bytes_len(value: nat, width: nat)
    ensures
        le_bytes(value, width).len() == width,
    decreases width,
{
    if width > 0 {
        lemma_le_bytes_len(value / 256, (width - 1) as nat);
    }
}

pub fn build_destroy_event() -> (raw: Vec<u8>)
    ensures
        raw@ == spec_destroy_event(),
        raw@.len() == UHID_RAW_EVENT_LEN,
{
    let mut raw: Vec<u8> = Vec::new();
    push_le(&mut raw, UHID_DESTROY as u64, 4);
    push_zeros(&mut raw, UHID_RAW_EVENT_LEN - 4);
    proof {
        lemma_le_bytes_len(UHID_DESTROY as nat, 4);
    }
    raw
}

pub fn build_input2_event(payload: &[u8]) -> (raw: Vec<u8>)
    requires
        payload.len() <= UHID_RAW_EVENT_LEN - 6,
    ensures
        raw@ == spec_input2_event(payload@),
        raw@.len() == UHID_RAW_EVENT_LEN,
{
    let mut raw: Vec<u8> = Vec::new();
    push_le(&mut raw, UHID_INPUT2 as u64, 4);
    push_size(&mut raw, payload.len());
    push_all(&mut raw, payload);
    push_zeros(&mut raw, UHID_RAW_EVENT_LEN - 6 - payload.len());
    proof {
        lemma_le_bytes_len(UHID_INPUT2 as nat, 4);
        lemma_le_bytes_len(if payload.len() > 0xffff { 0xffff } else { payload.len() as nat }, 2);
    }
    raw
}

pub fn build_get_report_reply_event(id: u32, err: u16, payload: &[u8]) -> (raw: Vec<u8>)
    requires
        payload.len() <= UHID_RAW_EVENT_LEN - 12,
    ensures
        raw@ == spec_get_report_reply_event(id, err, payload@),
        raw@.len() == UHID_RAW_EVENT_LEN,
{
    let mut raw: Vec<u8> = Vec::new();
    push_le(&mut raw, UHID_GET_REPORT_REPLY as u64, 4);
    push_le(&mut raw, id as u64, 4);
    push_le(&mut raw, err as u64, 2);
    push_size(&mut raw, payload.len());
    push_all(&mut raw, payload);
    push_zeros(&mut raw, UHID_RAW_EVENT_LEN - 12 - payload.len());
    proof {
        lemma_le_bytes_len(UHID_GET_REPORT_REPLY as nat, 4);
        lemma_le_bytes_len(id as nat, 4);
        lemma_le_bytes_len(err as nat, 2);
        lemma_le_bytes_len(if payload.len() > 0xffff { 0xffff } else { payload.len() as nat }, 2);
    }
    raw
}

pub fn build_set_report_reply_event(id: u32, err: u16) -> (raw: Vec<u8>)
    ensures
        raw@ == spec_set_report_reply_event(id, err),
        raw@.len() == UHID_RAW_EVENT_LEN,
{
    let mut raw: Vec<u8> = Vec::new();
    push_le(&mut raw, UHID_SET_REPORT_REPLY as u64, 4);
    push_le(&mut raw, id as u64, 4);
    push_le(&mut raw, err as u64, 2);
    push_zeros(&mut raw, UHID_RAW_EVENT_LEN - 10);
    proof {
        lemma_le_bytes_len(UHID_SET_REPORT_REPLY as nat, 4);
        lemma_le_bytes_len(id as nat, 4);
        lemma_le_bytes_len(err as nat, 2);
    }
    raw
}

/// The `UHID_CREATE2` event that creates the device `spec` describes.
pub fn build_create2_event(spec: &NativeHidRealization) -> (raw: Vec<u8>)
    requires
        spec.descriptor@.len() <= UHID_DATA_MAX,
    ensures
        raw@ == spec_create2_event(*spec),
        raw@.len() == UHID_RAW_EVENT_LEN,
{
    let mut raw: Vec<u8> = Vec::new();
    push_le(&mut raw, UHID_CREATE2 as u64, 4);
    push_fixed(&mut raw, spec.device_name.as_str().as_bytes(), UHID_NAME_LEN);
    push_fixed(&mut raw, spec.physical_path.as_str().as_bytes(), UHID_PHYS_LEN);
    push_fixed(&mut raw, spec.unique_id.as_str().as_bytes(), UHID_UNIQ_LEN);
    push_size(&mut raw, spec.descriptor.len());
    push_le(&mut raw, spec.bus_type as u64, 2);
    push_le(&mut raw, spec.identity.vendor_id as u64, 4);
    push_le(&mut raw, spec.identity.product_id as u64, 4);
    push_le(&mut raw, spec.identity.version as u64, 4);
    push_le(&mut raw, 0, 4);
    push_all(&mut raw, spec.descriptor.as_slice());
    push_zeros(&mut raw, UHID_DATA_MAX - spec.descriptor.len());
    proof {
        lemma_le_bytes_len(UHID_CREATE2 as nat, 4);
        lemma_le_bytes_len(spec.descriptor@.len(), 2);
        lemma_le_bytes_len(spec.bus_type as nat, 2);
        lemma_le_bytes_len(spec.identity.vendor_id as nat, 4);
        lemma_le_bytes_len(spec.identity.product_id as nat, 4);
        lemma_le_bytes_len(spec.identity.version as nat, 4);
        lemma_le_bytes_len(0, 4);
    }
    raw
}

/// ASCII lowercase of one byte; other bytes are unchanged.
pub open spec fn ascii_lower(b: u8) -> u8 {
    if 65 <= b <= 90 {
        (b + 32) as u8
    } else {
        b
    }
}

/// The ASCII byte of the lowercase hexadecimal digit `d` (`d < 16`).
pub open spec fn hex_ascii_digit(d: nat) -> u8 {
    if d < 10 {
        (48 + d) as u8
    } else {
        (87 + d) as u8
    }
}

/// The last `width` lowercase hexadecimal digits of `n` as ASCII bytes.
pub open spec fn hex_ascii(n: nat, width: nat) -> Seq<u8>
    decreases width,
{
    if width == 0 {
        Seq::empty()
    } else {
        hex_ascii(n / 16, (width - 1) as nat).push(hex_ascii_digit(n % 16))
    }
}

/// The four-digit bus field of a `HID_ID=` value, for the buses the kernel
/// exposes here.
pub open spec fn bus_field(bus_type: u16) -> Option<Seq<u8>> {
    if bus_type == BUS_USB {
        Some(seq![48u8, 48u8, 48u8, 51u8])
    } else if bus_type == BUS_BLUETOOTH {
        Some(seq![48u8, 48u8, 48u8, 53u8])
    } else {
        None
    }
}

/// Whether the `HID_ID=` value `id` (bytes of `bbbb:vvvvvvvv:pppppppp`)
/// names the bus, vendor and product; vendor and product digits compare
/// without regard to ASCII case.
pub open spec fn spec_hid_id_matches(id: Seq<u8>, bus_type: u16, vendor_id: u16, product_id: u16) -> bool {
    match bus_field(bus_type) {
        None => false,
        Some(bus) => {
            &&& id.len() == 22
            &&& id.subrange(0, 4) == bus
            &&& id[4] == 58
            &&& id.subrange(5, 13).map_values(|b: u8| ascii_lower(b)) == hex_ascii(vendor_id as nat, 8)
            &&& id[13] == 58
            &&& id.subrange(14, 22).map_values(|b: u8| ascii_lower(b)) == hex_ascii(product_id as nat, 8)
        },
    }
}

/// Matching a `HID_ID=` value ignores ASCII case: lowercasing the value
/// never changes whether it names a bus, vendor and product.
pub proof fn lemma_hid_id_matching_ignores_case(
    id: Seq<u8>,
    bus_type: u16,
    vendor_id: u16,
    product_id: u16,
)
    ensures
        spec_hid_id_matches(id.map_values(|b: u8| ascii_lower(b)), bus_type, vendor_id, product_id)
            == spec_hid_id_matches(id, bus_type, vendor_id, product_id),
{
    let lower = id.map_values(|b: u8| ascii_lower(b));
    if let Some(bus) = bus_field(bus_type) {
        if id.len() == 22 {
            assert(lower.subrange(5, 13).map_values(|b: u8| ascii_lower(b)) =~= id.subrange(
                5,
                13,
            ).map_values(|b: u8| ascii_lower(b)));
            assert(lower.subrange(14, 22).map_values(|b: u8| ascii_lower(b)) =~= id.subrange(
                14,
                22,
            ).map_values(|b: u8| ascii_lower(b)));
            assert(lower[4] == 58 <==> id[4] == 58);
            assert(lower[13] == 58 <==> id[13] == 58);
            assert(lower.subrange(0, 4) == bus <==> id.subrange(0, 4) == bus) by {
                if id.subrange(0, 4) == bus {
                    assert(lower.subrange(0, 4) =~= bus);
                }
                if lower.subrange(0, 4) == bus {
                    assert forall|k: int| 0 <= k < 4 implies id[k] == bus[k] by {
                        assert(lower.subrange(0, 4)[k] == lower[k]);
                        assert(bus[k] == 48 || bus[k] == 51 || bus[k] == 53);
                    }
                    assert(id.subrange(0, 4) =~= bus);
                }
            }
        }
    }
}

fn lower_byte(b: u8) -> (lower: u8)
    ensures
        lower == ascii_lower(b),
{
    if 65 <= b && b <= 90 {
        b + 32
    } else {
        b
    }
}

/// Whether `bytes[start..start + 8]`, lowercased, are the eight hexadecimal
/// digits of `value`.
fn hex_field_matches(bytes: &[u8], start: usize, value: u16) -> (matches: bool)
    requires
        start + 8 <= bytes.len(),
    ensures
        matches == (bytes@.subrange(start as int, start + 8).map_values(|b: u8| ascii_lower(b))
            == hex_ascii(value as nat, 8)),
{
    let ghost field = bytes@.subrange(start as int, start + 8).map_values(|b: u8| ascii_lower(b));
    // Digit `k` from the right sits at `start + 7 - k`.
    let mut rest: u32 = value as u32;
    let mut k: usize = 0;
    proof {
        lemma_hex_ascii_len(value as nat, 8);
        assert(pow16(0) == 1);
        assert((value as nat) / 1 == value as nat);
    }
    while k < 8
        invariant
            k <= 8,
            hex_ascii(value as nat, 8).len() == 8,
            field.len() == 8,
            start + 8 <= bytes.len(),
            field == bytes@.subrange(start as int, start + 8).map_values(|b: u8| ascii_lower(b)),
            rest as nat == (value as nat) / pow16(k as nat),
            field.subrange(8 - k, 8) == hex_ascii(value as nat, 8).subrange(8 - k, 8),
        decreases 8 - k,
    {
        let digit: u32 = rest % 16;
        let expected: u8 = if digit < 10 {
            48 + digit as u8
        } else {
            87 + digit as u8
        };
        let actual: u8 = lower_byte(bytes[start + 7 - k]);
        proof {
            lemma_hex_ascii_digit_at(value as nat, 8, k as nat);
            lemma_div_pow16_step(value as nat, k as nat);
            assert(field[7 - k as int] == actual);
        }
        if actual != expected {
            proof {
                assert(hex_ascii(value as nat, 8)[7 - k as int] == expected);
            }
            return false;
        }
        assert(field.subrange(7 - k as int, 8) =~= seq![field[7 - k as int]] + field.subrange(
            8 - k as int,
            8,
        ));
        assert(hex_ascii(value as nat, 8).subrange(7 - k as int, 8) =~= seq![
            hex_ascii(value as nat, 8)[7 - k as int],
        ] + hex_ascii(value as nat, 8).subrange(8 - k as int, 8));
        rest = rest / 16;
        k = k + 1;
    }
    proof {
        lemma_hex_ascii_len(value as nat, 8);
    }
    assert(field =~= field.subrange(0, 8));
    assert(hex_ascii(value as nat, 8) =~= hex_ascii(value as nat, 8).subrange(0, 8));
    true
}

/// `16` to the power `k`.
pub open spec fn pow16(k: nat) -> nat
    decreases k,
{
    if k == 0 {
        1
    } else {
        16 * pow16((k - 1) as nat)
    }
}

proof fn lemma_hex_ascii_len(n: nat, width: nat)
    ensures
        hex_ascii(n, width).len() == width,
    decreases width,
{
    if width > 0 {
        lemma_hex_ascii_len(n / 16, (width - 1) as nat);
    }
}

/// The digit `k` places from the right is the lowest digit of `n / 16^k`.
proof fn lemma_hex_ascii_digit_at(n: nat, width: nat, k: nat)
    requires
        k < width,
    ensures
        hex_ascii(n, width).len() == width,
        hex_ascii(n, width)[width - 1 - k] == hex_ascii_digit((n / pow16(k)) % 16),
    decreases k,
{
    lemma_hex_ascii_len(n, width);
    lemma_hex_ascii_len(n / 16, (width - 1) as nat);
    if k > 0 {
        lemma_hex_ascii_digit_at(n / 16, (width - 1) as nat, (k - 1) as nat);
        lemma_pow16_positive((k - 1) as nat);
        lemma_div_div(n, pow16((k - 1) as nat));
        assert(hex_ascii(n, width)[width - 1 - k] == hex_ascii(n / 16, (width - 1) as nat)[width
            - 1 - k]);
    } else {
        assert(pow16(0) == 1);
        assert(n / 1 == n);
    }
}

proof fn lemma_div_div(n: nat, p: nat)
    requires
        p > 0,
    ensures
        (n / 16) / p == n / (16 * p),
{
    vstd::arithmetic::div_mod::lemma_div_denominator(n as int, 16, p as int);
}

proof fn lemma_pow16_positive(k: nat)
    ensures
        pow16(k) > 0,
    decreases k,
{
    if k > 0 {
        lemma_pow16_positive((k - 1) as nat);
    }
}

proof fn lemma_div_pow16_step(n: nat, k: nat)
    ensures
        n / pow16(k + 1) == (n / pow16(k)) / 16,
{
    lemma_pow16_positive(k);
    vstd::arithmetic::div_mod::lemma_div_denominator(n as int, pow16(k) as int, 16);
    assert(pow16(k + 1) == pow16(k) * 16);
}

/// Returns `true` if `hid_id` (the `HID_ID=` value from `uevent`,
/// formatted by the kernel as `bbbb:vvvvvvvv:pppppppp`) matches the
/// expected bus/vendor/product triple.
pub fn hid_id_matches(hid_id: &str, bus_type: u16, vendor_id: u16, product_id: u16) -> (matches:
    bool)
    ensures
        matches == spec_hid_id_matches(encode_utf8(hid_id@), bus_type, vendor_id, product_id),
{
    let bus_digit: u8 = if bus_type == BUS_USB {
        51
    } else if bus_type == BUS_BLUETOOTH {
        53
    } else {
        return false;
    };
    let bytes = hid_id.as_bytes();
    if bytes.len() != 22 {
        return false;
    }
    let ghost id = bytes@;
    let bus_matches: bool = bytes[0] == 48 && bytes[1] == 48 && bytes[2] == 48 && bytes[3]
        == bus_digit;
    assert(bus_matches == (id.subrange(0, 4) == bus_field(bus_type)->0)) by {
        if bus_matches {
            assert(id.subrange(0, 4) =~= bus_field(bus_type)->0);
        }
        if id.subrange(0, 4) == bus_field(bus_type)->0 {
            assert(id.subrange(0, 4)[3] == id[3]);
        }
    }
    bus_matches && bytes[4] == 58 && hex_field_matches(bytes, 5, vendor_id) && bytes[13] == 58
        && hex_field_matches(bytes, 14, product_id)
}

} // verus!
