//! Controller-neutral Linux UHID provider: the UHID event encoding in host
//! byte order, the event parser, and the session state machine.
//!
//! The session never touches the kernel itself; it drives a [`UhidIo`],
//! which the live provider backs with `/dev/uhid`.

use vstd::prelude::*;

use crate::bytes::{
    le_value, lemma_ordered_roundtrip, ordered_bytes, ordered_value, pow256, push_all, push_uint,
    push_zeros, read_uint, zeros, ByteOrder,
};
use crate::realization::{
    NativeHidRealization, ProviderError, ProviderErrorView,
};
use crate::uhid_kernel::{lemma_le_value_bound, spec_pack_report_payload};
use vstd::utf8::encode_utf8;

verus! {

pub const UHID_DESTROY: u32 = 1;

pub const UHID_OUTPUT: u32 = 6;

pub const UHID_GET_REPORT: u32 = 9;

pub const UHID_GET_REPORT_REPLY: u32 = 10;

pub const UHID_CREATE2: u32 = 11;

pub const UHID_INPUT2: u32 = 12;

pub const UHID_SET_REPORT: u32 = 13;

pub const UHID_SET_REPORT_REPLY: u32 = 14;

pub const UHID_DATA_MAX: usize = 4096;

pub const UHID_EVENT_SIZE: usize = 4 + 280 + UHID_DATA_MAX;

/// Linux `-EOPNOTSUPP`: a valid negative UHID request status for an
/// unsupported feature probe. Returning it is preferable to leaving the host
/// request pending until its timeout expires.
pub const UHID_STATUS_UNSUPPORTED: i16 = -95;

/// Whether an encoder's `result` is the expected bytes or error, by views.
pub open spec fn bytes_result_is(
    result: Result<Vec<u8>, ProviderError>,
    expected: Result<Seq<u8>, ProviderErrorView>,
) -> bool {
    match (result, expected) {
        (Ok(bytes), Ok(want)) => bytes@ == want,
        (Err(error), Err(want)) => error@ == want,
        _ => false,
    }
}

/// `buf` with `bytes` written over it from `offset` on.
pub open spec fn overwrite(buf: Seq<u8>, offset: int, bytes: Seq<u8>) -> Seq<u8> {
    buf.subrange(0, offset) + bytes + buf.subrange(offset + bytes.len(), buf.len() as int)
}

/// Write `bytes` over `out` from `offset` on.
pub fn put_bytes(out: &mut Vec<u8>, offset: usize, bytes: &[u8])
    requires
        offset + bytes.len() <= old(out).len(),
    ensures
        final(out)@ == overwrite(old(out)@, offset as int, bytes@),
{
    let mut index: usize = 0;
    while index < bytes.len()
        invariant
            index <= bytes.len(),
            offset + bytes.len() <= out.len(),
            out@.len() == old(out)@.len(),
            forall|k: int|
                0 <= k < out@.len() ==> #[trigger] out@[k] == if offset <= k < offset + index {
                    bytes@[k - offset]
                } else {
                    old(out)@[k]
                },
        decreases bytes.len() - index,
    {
        out.set(offset + index, bytes[index]);
        index = index + 1;
    }
    assert(out@ =~= overwrite(old(out)@, offset as int, bytes@));
}

/// Write the two bytes of `value`, in `order`, at `offset`.
pub fn put_u16(out: &mut Vec<u8>, offset: usize, value: u16, order: ByteOrder)
    requires
        offset + 2 <= old(out).len(),
    ensures
        final(out)@ == overwrite(old(out)@, offset as int, ordered_bytes(value as nat, 2, order)),
{
    let mut bytes: Vec<u8> = Vec::new();
    push_uint(&mut bytes, value as u64, 2, order);
    proof {
        assert(pow256(2) == 0x1_0000) by {
            reveal_with_fuel(pow256, 3);
        }
        lemma_ordered_roundtrip(value as nat, 2, order);
    }
    assert(bytes@ =~= ordered_bytes(value as nat, 2, order));
    put_bytes(out, offset, bytes.as_slice());
}

/// Write the four bytes of `value`, in `order`, at `offset`.
pub fn put_u32(out: &mut Vec<u8>, offset: usize, value: u32, order: ByteOrder)
    requires
        offset + 4 <= old(out).len(),
    ensures
        final(out)@ == overwrite(old(out)@, offset as int, ordered_bytes(value as nat, 4, order)),
{
    let mut bytes: Vec<u8> = Vec::new();
    push_uint(&mut bytes, value as u64, 4, order);
    proof {
        assert(pow256(4) == 0x1_0000_0000) by {
            reveal_with_fuel(pow256, 5);
        }
        lemma_ordered_roundtrip(value as nat, 4, order);
    }
    assert(bytes@ =~= ordered_bytes(value as nat, 4, order));
    put_bytes(out, offset, bytes.as_slice());
}

proof fn lemma_ordered_value_bound(bytes: Seq<u8>, order: ByteOrder)
    ensures
        ordered_value(bytes, order) < pow256(bytes.len()),
{
    lemma_le_value_bound(bytes);
    lemma_le_value_bound(bytes.reverse());
}

/// The `u16` at `offset`, in `order`.
pub fn get_u16(bytes: &[u8], offset: usize, order: ByteOrder) -> (value: u16)
    requires
        offset + 2 <= bytes.len(),
    ensures
        value == ordered_value(bytes@.subrange(offset as int, offset + 2), order),
{
    let value: u64 = read_uint(slice_range(bytes, offset, offset + 2), order);
    proof {
        lemma_ordered_value_bound(bytes@.subrange(offset as int, offset + 2), order);
        assert(pow256(2) == 0x1_0000) by {
            reveal_with_fuel(pow256, 3);
        }
    }
    value as u16
}

/// The `u32` at `offset`, in `order`.
pub fn get_u32(bytes: &[u8], offset: usize, order: ByteOrder) -> (value: u32)
    requires
        offset + 4 <= bytes.len(),
    ensures
        value == ordered_value(bytes@.subrange(offset as int, offset + 4), order),
{
    let value: u64 = read_uint(slice_range(bytes, offset, offset + 4), order);
    proof {
        lemma_ordered_value_bound(bytes@.subrange(offset as int, offset + 4), order);
        assert(pow256(4) == 0x1_0000_0000) by {
            reveal_with_fuel(pow256, 5);
        }
    }
    value as u32
}

fn slice_range(bytes: &[u8], start: usize, end: usize) -> (part: &[u8])
    requires
        start <= end <= bytes.len(),
    ensures
        part@ == bytes@.subrange(start as int, end as int),
{
    &bytes[start..end]
}

/// Reading back a written `u16` gives the value.
pub proof fn lemma_put_get_u16(buf: Seq<u8>, offset: int, value: u16, order: ByteOrder)
    requires
        0 <= offset,
        offset + 2 <= buf.len(),
    ensures
        overwrite(buf, offset, ordered_bytes(value as nat, 2, order)).len() == buf.len(),
        ordered_value(
            overwrite(buf, offset, ordered_bytes(value as nat, 2, order)).subrange(offset, offset + 2),
            order,
        ) == value,
{
    assert(pow256(2) == 0x1_0000) by {
        reveal_with_fuel(pow256, 3);
    }
    lemma_ordered_roundtrip(value as nat, 2, order);
    let written = overwrite(buf, offset, ordered_bytes(value as nat, 2, order));
    assert(written.subrange(offset, offset + 2) =~= ordered_bytes(value as nat, 2, order));
}

/// Reading back a written `u32` gives the value.
pub proof fn lemma_put_get_u32(buf: Seq<u8>, offset: int, value: u32, order: ByteOrder)
    requires
        0 <= offset,
        offset + 4 <= buf.len(),
    ensures
        overwrite(buf, offset, ordered_bytes(value as nat, 4, order)).len() == buf.len(),
        ordered_value(
            overwrite(buf, offset, ordered_bytes(value as nat, 4, order)).subrange(offset, offset + 4),
            order,
        ) == value,
{
    assert(pow256(4) == 0x1_0000_0000) by {
        reveal_with_fuel(pow256, 5);
    }
    lemma_ordered_roundtrip(value as nat, 4, order);
    let written = overwrite(buf, offset, ordered_bytes(value as nat, 4, order));
    assert(written.subrange(offset, offset + 4) =~= ordered_bytes(value as nat, 4, order));
}

/// `text` fits a `field_len`-byte text field with its terminating NUL.
pub open spec fn text_fits(text: Seq<char>, field_len: nat) -> bool {
    encode_utf8(text).len() < field_len
}

/// Copy `text` into the `field_len`-byte field at `offset` when it fits
/// with its terminating NUL; a text that does not fit is refused and
/// nothing is written.
pub fn copy_text(out: &mut Vec<u8>, offset: usize, field_len: usize, text: &str) -> (copied: bool)
    requires
        offset + field_len <= old(out).len(),
    ensures
        copied == text_fits(text@, field_len as nat),
        copied ==> final(out)@ == overwrite(old(out)@, offset as int, encode_utf8(text@)),
        !copied ==> final(out)@ == old(out)@,
{
    let bytes = text.as_bytes();
    if bytes.len() >= field_len {
        return false;
    }
    put_bytes(out, offset, bytes);
    true
}

/// A text field: the bytes of `text` followed by zeros.
pub open spec fn text_field(text: Seq<char>, field_len: nat) -> Seq<u8> {
    let bytes = encode_utf8(text);
    bytes + zeros((field_len - bytes.len()) as nat)
}

/// The `UHID_CREATE2` event image for `spec`.
pub open spec fn spec_create_event(spec: NativeHidRealization, order: ByteOrder) -> Seq<u8> {
    ordered_bytes(UHID_CREATE2 as nat, 4, order) + text_field(spec.device_name@, 128) + text_field(
        spec.physical_path@,
        64,
    ) + text_field(spec.unique_id@, 64) + ordered_bytes(spec.descriptor@.len(), 2, order)
        + ordered_bytes(spec.bus_type as nat, 2, order) + ordered_bytes(
        spec.identity.vendor_id as nat,
        4,
        order,
    ) + ordered_bytes(spec.identity.product_id as nat, 4, order) + ordered_bytes(
        spec.identity.version as nat,
        4,
        order,
    ) + zeros(4) + spec.descriptor@ + zeros((UHID_DATA_MAX - spec.descriptor@.len()) as nat)
}

fn push_text_field(out: &mut Vec<u8>, text: &str, field_len: usize)
    requires
        text_fits(text@, field_len as nat),
    ensures
        final(out)@ == old(out)@ + text_field(text@, field_len as nat),
{
    let bytes = text.as_bytes();
    push_all(out, bytes);
    push_zeros(out, field_len - bytes.len());
    assert(out@ =~= old(out)@ + text_field(text@, field_len as nat));
}

/// The `UHID_CREATE2` event for `spec`, or the error for a descriptor or
/// an identity string (device name, physical path, unique ID) that does
/// not fit its field: oversized identity strings are refused, never cut.
pub open spec fn spec_create_result(spec: NativeHidRealization, order: ByteOrder) -> Result<
    Seq<u8>,
    ProviderErrorView,
> {
    if spec.descriptor@.len() > UHID_DATA_MAX {
        Err(ProviderErrorView::Open { reason: "HID descriptor exceeds UHID maximum"@ })
    } else if !text_fits(spec.device_name@, 128) {
        Err(ProviderErrorView::Open { reason: "HID device name exceeds the UHID name field"@ })
    } else if !text_fits(spec.physical_path@, 64) {
        Err(ProviderErrorView::Open { reason: "HID physical path exceeds the UHID phys field"@ })
    } else if !text_fits(spec.unique_id@, 64) {
        Err(ProviderErrorView::Open { reason: "HID unique ID exceeds the UHID uniq field"@ })
    } else {
        Ok(spec_create_event(spec, order))
    }
}

/// The `UHID_CREATE2` event for `spec`, or an error when its descriptor or
/// an identity string does not fit; nothing is built for a refused one.
pub fn create_event(spec: &NativeHidRealization, order: ByteOrder) -> (event: Result<
    Vec<u8>,
    ProviderError,
>)
    ensures
        bytes_result_is(event, spec_create_result(*spec, order)),
{
    if spec.descriptor.len() > UHID_DATA_MAX {
        return Err(
            ProviderError::Open { reason: String::from_str("HID descriptor exceeds UHID maximum") },
        );
    }
    if spec.device_name.as_str().as_bytes().len() >= 128 {
        return Err(
            ProviderError::Open {
                reason: String::from_str("HID device name exceeds the UHID name field"),
            },
        );
    }
    if spec.physical_path.as_str().as_bytes().len() >= 64 {
        return Err(
            ProviderError::Open {
                reason: String::from_str("HID physical path exceeds the UHID phys field"),
            },
        );
    }
    if spec.unique_id.as_str().as_bytes().len() >= 64 {
        return Err(
            ProviderError::Open { reason: String::from_str("HID unique ID exceeds the UHID uniq field") },
        );
    }
    let mut event: Vec<u8> = Vec::new();
    push_uint(&mut event, UHID_CREATE2 as u64, 4, order);
    push_text_field(&mut event, spec.device_name.as_str(), 128);
    push_text_field(&mut event, spec.physical_path.as_str(), 64);
    push_text_field(&mut event, spec.unique_id.as_str(), 64);
    push_uint(&mut event, spec.descriptor.len() as u64, 2, order);
    push_uint(&mut event, spec.bus_type as u64, 2, order);
    push_uint(&mut event, spec.identity.vendor_id as u64, 4, order);
    push_uint(&mut event, spec.identity.product_id as u64, 4, order);
    push_uint(&mut event, spec.identity.version as u64, 4, order);
    push_zeros(&mut event, 4);
    push_all(&mut event, spec.descriptor.as_slice());
    push_zeros(&mut event, UHID_DATA_MAX - spec.descriptor.len());
    Ok(event)
}

/// The `UHID_INPUT2` event image for a report's packed bytes.
pub open spec fn spec_input_event(data: Seq<u8>, order: ByteOrder) -> Seq<u8> {
    ordered_bytes(UHID_INPUT2 as nat, 4, order) + ordered_bytes(data.len(), 2, order) + data
}

/// The `UHID_INPUT2` event for a report, or the error for one that does
/// not fit with its report ID.
pub open spec fn spec_input_result(report_id: Option<u8>, bytes: Seq<u8>, order: ByteOrder) -> Result<
    Seq<u8>,
    ProviderErrorView,
> {
    let data = spec_pack_report_payload(report_id, bytes);
    if data.len() > UHID_DATA_MAX {
        Err(ProviderErrorView::Write { reason: "HID input report exceeds UHID maximum"@ })
    } else {
        Ok(spec_input_event(data, order))
    }
}

/// The `UHID_INPUT2` event for an input report, or an error when the
/// report with its ID does not fit.
pub fn input_event(report_id: Option<u8>, bytes: &[u8], order: ByteOrder) -> (event: Result<
    Vec<u8>,
    ProviderError,
>)
    ensures
        bytes_result_is(event, spec_input_result(report_id, bytes@, order)),
{
    let data = crate::uhid_kernel::pack_report_payload(report_id, bytes);
    if data.len() > UHID_DATA_MAX {
        return Err(
            ProviderError::Write { reason: String::from_str("HID input report exceeds UHID maximum") },
        );
    }
    let mut event: Vec<u8> = Vec::new();
    push_uint(&mut event, UHID_INPUT2 as u64, 4, order);
    push_uint(&mut event, data.len() as u64, 2, order);
    push_all(&mut event, data.as_slice());
    Ok(event)
}

/// The `UHID_GET_REPORT_REPLY` event image.
pub open spec fn spec_get_reply_event(id: u32, status: i16, bytes: Seq<u8>, order: ByteOrder) -> Seq<
    u8,
> {
    ordered_bytes(UHID_GET_REPORT_REPLY as nat, 4, order) + ordered_bytes(id as nat, 4, order)
        + ordered_bytes((status as u16) as nat, 2, order) + ordered_bytes(bytes.len(), 2, order)
        + bytes
}

/// The `UHID_GET_REPORT_REPLY` event, or the error for a reply that does
/// not fit.
pub open spec fn spec_get_reply_result(id: u32, status: i16, bytes: Seq<u8>, order: ByteOrder) -> Result<
    Seq<u8>,
    ProviderErrorView,
> {
    if bytes.len() > UHID_DATA_MAX {
        Err(ProviderErrorView::Write { reason: "feature reply exceeds UHID maximum"@ })
    } else {
        Ok(spec_get_reply_event(id, status, bytes, order))
    }
}

/// The `UHID_GET_REPORT_REPLY` event answering request `id`, or an error
/// when the reply does not fit.
pub fn get_reply_event(id: u32, status: i16, bytes: &[u8], order: ByteOrder) -> (event: Result<
    Vec<u8>,
    ProviderError,
>)
    ensures
        bytes_result_is(event, spec_get_reply_result(id, status, bytes@, order)),
{
    if bytes.len() > UHID_DATA_MAX {
        return Err(
            ProviderError::Write { reason: String::from_str("feature reply exceeds UHID maximum") },
        );
    }
    let mut event: Vec<u8> = Vec::new();
    push_uint(&mut event, UHID_GET_REPORT_REPLY as u64, 4, order);
    push_uint(&mut event, id as u64, 4, order);
    push_uint(&mut event, (status as u16) as u64, 2, order);
    push_uint(&mut event, bytes.len() as u64, 2, order);
    push_all(&mut event, bytes);
    Ok(event)
}

/// The `UHID_SET_REPORT_REPLY` event answering request `id`.
pub fn set_reply_event(id: u32, status: i16, order: ByteOrder) -> (event: Vec<u8>)
    ensures
        event@ == ordered_bytes(UHID_SET_REPORT_REPLY as nat, 4, order) + ordered_bytes(
            id as nat,
            4,
            order,
        ) + ordered_bytes((status as u16) as nat, 2, order),
{
    let mut event: Vec<u8> = Vec::new();
    push_uint(&mut event, UHID_SET_REPORT_REPLY as u64, 4, order);
    push_uint(&mut event, id as u64, 4, order);
    push_uint(&mut event, (status as u16) as u64, 2, order);
    event
}

/// The `UHID_DESTROY` event.
pub fn destroy_event(order: ByteOrder) -> (event: Vec<u8>)
    ensures
        event@ == ordered_bytes(UHID_DESTROY as nat, 4, order),
{
    let mut event: Vec<u8> = Vec::new();
    push_uint(&mut event, UHID_DESTROY as u64, 4, order);
    event
}


/// A UHID request or notification read from the kernel.
#[derive(Debug, Clone, PartialEq, Eq)]
pub enum Event {
    Output { bytes: Vec<u8> },
    Get { id: u32, report_id: u8, report_type: u8 },
    SetReport { id: u32, report_id: u8, report_type: u8, bytes: Vec<u8> },
    Lifecycle,
}

/// [`Event`] with its bytes taken by their view.
pub ghost enum UhidEventView {
    Output { bytes: Seq<u8> },
    Get { id: u32, report_id: u8, report_type: u8 },
    SetReport { id: u32, report_id: u8, report_type: u8, bytes: Seq<u8> },
    Lifecycle,
}

impl View for Event {
    type V = UhidEventView;

    open spec fn view(&self) -> UhidEventView {
        match self {
            Event::Output { bytes } => UhidEventView::Output { bytes: bytes@ },
            Event::Get { id, report_id, report_type } => UhidEventView::Get {
                id: *id,
                report_id: *report_id,
                report_type: *report_type,
            },
            Event::SetReport { id, report_id, report_type, bytes } => UhidEventView::SetReport {
                id: *id,
                report_id: *report_id,
                report_type: *report_type,
                bytes: bytes@,
            },
            Event::Lifecycle => UhidEventView::Lifecycle,
        }
    }
}

/// Whether a parse `result` is the expected event or error, by views.
pub open spec fn event_result_is(
    result: Result<Event, ProviderError>,
    expected: Result<UhidEventView, ProviderErrorView>,
) -> bool {
    match (result, expected) {
        (Ok(event), Ok(want)) => event@ == want,
        (Err(error), Err(want)) => error@ == want,
        _ => false,
    }
}

/// The `u32` of the `width`-byte field at `offset`.
pub open spec fn field_value(event: Seq<u8>, offset: int, width: int, order: ByteOrder) -> nat {
    ordered_value(event.subrange(offset, offset + width), order)
}

/// What a UHID event image read from the kernel says: an output report, a
/// get- or set-report request, or a notification the provider only counts.
/// Images too short for their type, or whose sizes exceed their data, are
/// refused.
pub open spec fn spec_parse_event(event: Seq<u8>, order: ByteOrder) -> Result<
    UhidEventView,
    ProviderErrorView,
> {
    if event.len() < 4 {
        Err(ProviderErrorView::Read { reason: "truncated UHID event"@ })
    } else {
        let kind = field_value(event, 0, 4, order);
        if kind == UHID_OUTPUT && event.len() >= 4103 {
            let size = field_value(event, 4100, 2, order);
            if size > UHID_DATA_MAX {
                Err(ProviderErrorView::Read { reason: "malformed UHID output"@ })
            } else {
                Ok(UhidEventView::Output { bytes: event.subrange(4, 4 + size as int) })
            }
        } else if kind == UHID_GET_REPORT && event.len() >= 10 {
            Ok(
                UhidEventView::Get {
                    id: field_value(event, 4, 4, order) as u32,
                    report_id: event[8],
                    report_type: event[9],
                },
            )
        } else if kind == UHID_SET_REPORT && event.len() >= 12 {
            let size = field_value(event, 10, 2, order);
            if size > UHID_DATA_MAX || event.len() < 12 + size {
                Err(ProviderErrorView::Read { reason: "malformed UHID set-report"@ })
            } else {
                Ok(
                    UhidEventView::SetReport {
                        id: field_value(event, 4, 4, order) as u32,
                        report_id: event[8],
                        report_type: event[9],
                        bytes: event.subrange(12, 12 + size as int),
                    },
                )
            }
        } else if kind == UHID_OUTPUT || kind == UHID_GET_REPORT || kind == UHID_SET_REPORT {
            Err(ProviderErrorView::Read { reason: "truncated UHID event"@ })
        } else {
            Ok(UhidEventView::Lifecycle)
        }
    }
}

fn copy_range(bytes: &[u8], start: usize, end: usize) -> (copy: Vec<u8>)
    requires
        start <= end <= bytes.len(),
    ensures
        copy@ == bytes@.subrange(start as int, end as int),
{
    let mut copy: Vec<u8> = Vec::new();
    push_all(&mut copy, slice_range(bytes, start, end));
    copy
}

/// Parse a UHID event image read from the kernel.
pub fn parse_event(event: &[u8], order: ByteOrder) -> (parsed: Result<Event, ProviderError>)
    ensures
        event_result_is(parsed, spec_parse_event(event@, order)),
{
    if event.len() < 4 {
        return Err(ProviderError::Read { reason: String::from_str("truncated UHID event") });
    }
    let kind: u32 = get_u32(event, 0, order);
    if kind == UHID_OUTPUT && event.len() >= 4103 {
        let size: usize = get_u16(event, 4100, order) as usize;
        if size > UHID_DATA_MAX {
            return Err(ProviderError::Read { reason: String::from_str("malformed UHID output") });
        }
        return Ok(Event::Output { bytes: copy_range(event, 4, 4 + size) });
    }
    if kind == UHID_GET_REPORT && event.len() >= 10 {
        return Ok(
            Event::Get {
                id: get_u32(event, 4, order),
                report_id: event[8],
                report_type: event[9],
            },
        );
    }
    if kind == UHID_SET_REPORT && event.len() >= 12 {
        let size: usize = get_u16(event, 10, order) as usize;
        if size > UHID_DATA_MAX || event.len() < 12 + size {
            return Err(
                ProviderError::Read { reason: String::from_str("malformed UHID set-report") },
            );
        }
        return Ok(
            Event::SetReport {
                id: get_u32(event, 4, order),
                report_id: event[8],
                report_type: event[9],
                bytes: copy_range(event, 12, 12 + size),
            },
        );
    }
    if kind == UHID_OUTPUT || kind == UHID_GET_REPORT || kind == UHID_SET_REPORT {
        return Err(ProviderError::Read { reason: String::from_str("truncated UHID event") });
    }
    Ok(Event::Lifecycle)
}

} // verus!
