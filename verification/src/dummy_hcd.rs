//! Client-side logic of the provider for the fixed-purpose privileged
//! `dummy_hcd` broker: report sizes of the compiled controllers and the
//! decoding of the output reports the broker hands back.

use vstd::prelude::*;

use crate::realization::{ProviderError, ProviderErrorView, RawReverseEvent, RawReverseEventView};
use crate::uhid_kernel::{spec_pack_report_payload, split_report_payload};

verus! {

/// The compiled controllers the broker can present.
#[derive(Debug, Clone, Copy, PartialEq, Eq, Structural)]
pub enum CompiledControllerKind {
    DualSense,
    DualShock4,
    SwitchPro,
    Xbox360,
}

/// The client-side provider of the `dummy_hcd` broker.
#[derive(Debug, Clone, Copy, Default)]
pub struct LinuxDummyHcdProvider;

/// The input report length of a compiled controller.
pub open spec fn spec_report_length(controller: CompiledControllerKind) -> usize {
    match controller {
        CompiledControllerKind::DualSense
        | CompiledControllerKind::DualShock4
        | CompiledControllerKind::SwitchPro => 64,
        CompiledControllerKind::Xbox360 => 9,
    }
}

pub fn report_length(controller: CompiledControllerKind) -> (length: usize)
    ensures
        length == spec_report_length(controller),
{
    match controller {
        CompiledControllerKind::DualSense
        | CompiledControllerKind::DualShock4
        | CompiledControllerKind::SwitchPro => 64,
        CompiledControllerKind::Xbox360 => 9,
    }
}

/// A USB output report as the broker delivers it: the report ID, then the
/// payload. A report without its ID is refused.
pub open spec fn spec_decode_hid_output(bytes: Seq<u8>) -> Result<RawReverseEventView, ProviderErrorView> {
    if bytes.len() == 0 {
        Err(ProviderErrorView::Read { reason: "dummy_hcd output report omitted its report ID"@ })
    } else {
        Ok(RawReverseEventView::HidOutput { report_id: Some(bytes[0]), bytes: bytes.drop_first() })
    }
}

/// Separate the USB report ID from the payload of an output report.
pub fn decode_hid_output(bytes: Vec<u8>) -> (event: Result<RawReverseEvent, ProviderError>)
    ensures
        match (event, spec_decode_hid_output(bytes@)) {
            (Ok(found), Ok(expected)) => found@ == expected,
            (Err(error), Err(expected)) => error@ == expected,
            _ => false,
        },
{
    if bytes.len() == 0 {
        return Err(
            ProviderError::Read {
                reason: String::from_str("dummy_hcd output report omitted its report ID"),
            },
        );
    }
    let (report_id, payload) = split_report_payload(true, bytes);
    Ok(RawReverseEvent::HidOutput { report_id, bytes: payload })
}


/// Decoding a report the broker framed with its ID gives back the ID and
/// the payload.
pub proof fn lemma_decode_undoes_framing(report_id: u8, payload: Seq<u8>)
    ensures
        spec_decode_hid_output(spec_pack_report_payload(Some(report_id), payload)) == Ok::<
            RawReverseEventView,
            ProviderErrorView,
        >(RawReverseEventView::HidOutput { report_id: Some(report_id), bytes: payload }),
{
    assert((seq![report_id] + payload).drop_first() =~= payload);
}

} // verus!
