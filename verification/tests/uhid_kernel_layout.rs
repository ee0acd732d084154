use virtualgamepad::realization::{NativeDeviceIdentity, NativeHidRealization};
use virtualgamepad::uhid_kernel::{
    build_create2_event, build_destroy_event, build_get_report_reply_event, build_input2_event,
    build_set_report_reply_event, hid_id_matches, le_u16, le_u32, pack_report_payload,
    split_report_payload, UHID_CREATE2, UHID_DATA_MAX, UHID_DESTROY, UHID_GET_REPORT_REPLY,
    UHID_INPUT2, UHID_NAME_LEN, UHID_PHYS_LEN, UHID_RAW_EVENT_LEN, UHID_SET_REPORT_REPLY,
    UHID_UNIQ_LEN,
};

fn fake_usb_spec(descriptor_len: usize) -> NativeHidRealization {
    NativeHidRealization {
        bus_type: 0x03,
        device_name: "fake-dualsense".to_string(),
        physical_path: "virtualgamepad/fake-usb".to_string(),
        unique_id: "virtualgamepad-fake-usb".to_string(),
        identity: NativeDeviceIdentity {
            vendor_id: 0x054c,
            product_id: 0x0ce6,
            version: 0x0100,
        },
        descriptor: vec![0xAB; descriptor_len],
        numbered_input_reports: true,
        numbered_output_reports: true,
        numbered_feature_reports: true,
        feature_report_responses: Vec::new(),
    }
}

#[test]
fn pack_report_payload_prepends_report_id() {
    let payload = pack_report_payload(Some(0x42), &[1, 2, 3]);
    assert_eq!(payload, vec![0x42, 1, 2, 3]);
}

#[test]
fn pack_report_payload_without_report_id_is_passthrough() {
    let payload = pack_report_payload(None, &[1, 2, 3]);
    assert_eq!(payload, vec![1, 2, 3]);
}

#[test]
fn pack_report_payload_handles_empty_bytes() {
    assert_eq!(pack_report_payload(None, &[]), Vec::<u8>::new());
    assert_eq!(pack_report_payload(Some(0x05), &[]), vec![0x05]);
}

#[test]
fn split_report_payload_numbered_extracts_report_id() {
    let (report_id, rest) = split_report_payload(true, vec![0x31, 1, 2, 3]);
    assert_eq!(report_id, Some(0x31));
    assert_eq!(rest, vec![1, 2, 3]);
}

#[test]
fn split_report_payload_numbered_with_empty_returns_none() {
    let (report_id, rest) = split_report_payload(true, vec![]);
    assert_eq!(report_id, None);
    assert!(rest.is_empty());
}

#[test]
fn split_report_payload_not_numbered_returns_full_bytes() {
    let (report_id, rest) = split_report_payload(false, vec![1, 2, 3]);
    assert_eq!(report_id, None);
    assert_eq!(rest, vec![1, 2, 3]);
}

#[test]
fn le_u16_round_trip() {
    assert_eq!(le_u16(&0xABCD_u16.to_le_bytes()), 0xABCD);
}

#[test]
fn le_u32_round_trip() {
    assert_eq!(le_u32(&0xDEAD_BEEF_u32.to_le_bytes()), 0xDEAD_BEEF);
}

#[test]
fn build_destroy_event_only_sets_event_type() {
    let raw = build_destroy_event();
    assert_eq!(le_u32(&raw[0..4]), UHID_DESTROY);
    assert!(raw[4..].iter().all(|b| *b == 0));
    assert_eq!(raw.len(), UHID_RAW_EVENT_LEN);
}

#[test]
fn build_input2_event_writes_size_then_payload() {
    let payload = [0xDE, 0xAD, 0xBE, 0xEF];
    let raw = build_input2_event(&payload);
    assert_eq!(le_u32(&raw[0..4]), UHID_INPUT2);
    assert_eq!(le_u16(&raw[4..6]), payload.len() as u16);
    assert_eq!(&raw[6..6 + payload.len()], &payload);
    assert!(raw[6 + payload.len()..].iter().all(|b| *b == 0));
}

#[test]
fn build_set_report_reply_event_writes_id_and_err() {
    let raw = build_set_report_reply_event(0x1234_5678, 0xABCD);
    assert_eq!(le_u32(&raw[0..4]), UHID_SET_REPORT_REPLY);
    assert_eq!(le_u32(&raw[4..8]), 0x1234_5678);
    assert_eq!(le_u16(&raw[8..10]), 0xABCD);
}

#[test]
fn build_get_report_reply_event_packs_id_err_size_data() {
    let data = [0xAA, 0xBB, 0xCC];
    let raw = build_get_report_reply_event(0x0102_0304, 0x0000, &data);
    assert_eq!(le_u32(&raw[0..4]), UHID_GET_REPORT_REPLY);
    assert_eq!(le_u32(&raw[4..8]), 0x0102_0304);
    assert_eq!(le_u16(&raw[8..10]), 0x0000);
    assert_eq!(le_u16(&raw[10..12]), data.len() as u16);
    assert_eq!(&raw[12..12 + data.len()], &data);
}

#[test]
fn build_create2_event_layout_matches_uhid_uapi() {
    let spec = fake_usb_spec(8);
    let raw = build_create2_event(&spec);

    assert_eq!(le_u32(&raw[0..4]), UHID_CREATE2);

    let name_start = 4;
    let name_end = name_start + UHID_NAME_LEN;
    let name_bytes = spec.device_name.as_bytes();
    assert_eq!(&raw[name_start..name_start + name_bytes.len()], name_bytes);
    assert!(raw[name_start + name_bytes.len()..name_end].iter().all(|b| *b == 0));

    let phys_start = name_end;
    let phys_end = phys_start + UHID_PHYS_LEN;
    let phys_bytes = spec.physical_path.as_bytes();
    assert_eq!(&raw[phys_start..phys_start + phys_bytes.len()], phys_bytes);

    let uniq_start = phys_end;
    let uniq_end = uniq_start + UHID_UNIQ_LEN;
    let uniq_bytes = spec.unique_id.as_bytes();
    assert_eq!(&raw[uniq_start..uniq_start + uniq_bytes.len()], uniq_bytes);

    let mut cursor = uniq_end;
    assert_eq!(le_u16(&raw[cursor..cursor + 2]), spec.descriptor.len() as u16);
    cursor += 2;
    assert_eq!(le_u16(&raw[cursor..cursor + 2]), spec.bus_type);
    cursor += 2;
    assert_eq!(le_u32(&raw[cursor..cursor + 4]), u32::from(spec.identity.vendor_id));
    cursor += 4;
    assert_eq!(le_u32(&raw[cursor..cursor + 4]), u32::from(spec.identity.product_id));
    cursor += 4;
    assert_eq!(le_u32(&raw[cursor..cursor + 4]), u32::from(spec.identity.version));
    cursor += 4;
    assert_eq!(le_u32(&raw[cursor..cursor + 4]), 0);
    cursor += 4;
    assert_eq!(&raw[cursor..cursor + spec.descriptor.len()], spec.descriptor.as_slice());
    assert_eq!(raw.len(), UHID_RAW_EVENT_LEN);
}

#[test]
fn build_create2_event_truncates_oversize_descriptor_size_to_u16_max() {
    let oversize_len = usize::from(u16::MAX) + 1;
    let spec = fake_usb_spec(oversize_len.min(UHID_DATA_MAX));
    let raw = build_create2_event(&spec);
    let cursor = 4 + UHID_NAME_LEN + UHID_PHYS_LEN + UHID_UNIQ_LEN;
    assert_eq!(le_u16(&raw[cursor..cursor + 2]) as usize, spec.descriptor.len());
}

#[test]
fn hid_id_matches_usb_dualsense() {
    assert!(hid_id_matches("0003:0000054c:00000ce6", 0x03, 0x054c, 0x0ce6));
}

#[test]
fn hid_id_matches_is_case_insensitive_for_vendor_product() {
    assert!(hid_id_matches("0003:0000054C:00000CE6", 0x03, 0x054c, 0x0ce6));
}

#[test]
fn hid_id_matches_bluetooth_dualsense() {
    assert!(hid_id_matches("0005:0000054c:00000df2", 0x05, 0x054c, 0x0df2));
}

#[test]
fn hid_id_matches_rejects_wrong_bus() {
    assert!(!hid_id_matches("0005:0000054c:00000ce6", 0x03, 0x054c, 0x0ce6));
}

#[test]
fn hid_id_matches_rejects_wrong_vendor() {
    assert!(!hid_id_matches("0003:00000045:00000ce6", 0x03, 0x054c, 0x0ce6));
}

#[test]
fn hid_id_matches_rejects_wrong_product() {
    assert!(!hid_id_matches("0003:0000054c:00001234", 0x03, 0x054c, 0x0ce6));
}

#[test]
fn hid_id_matches_rejects_malformed_input() {
    assert!(!hid_id_matches("not-a-hid-id", 0x03, 0x054c, 0x0ce6));
    assert!(!hid_id_matches("0003:0000054c", 0x03, 0x054c, 0x0ce6));
    assert!(!hid_id_matches("0003:0000054c:00000ce6:extra", 0x03, 0x054c, 0x0ce6));
}

#[test]
fn hid_id_matches_rejects_unknown_bus_constant() {
    assert!(!hid_id_matches("0001:0000054c:00000ce6", 0x01, 0x054c, 0x0ce6));
}
