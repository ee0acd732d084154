use std::cell::RefCell;
use std::collections::VecDeque;
use std::rc::Rc;

use virtualgamepad::bytes::ByteOrder;
use virtualgamepad::realization::{
    ControllerId, NativeControllerRealization, NativeDeviceIdentity, NativeHidFeatureResponse,
    NativeHidRealization, NativeHidReportKey, ProviderError, ProviderFrame, ProviderOpenRequest,
    ProviderPreflightError, ProviderRequirements, ProviderReverseEvent, ProviderState,
    RawReverseEvent, RealizationSelection, RealizationSessionId, RealizationTarget,
};
use virtualgamepad::realization::{admit_open, ProviderCapabilities};
use virtualgamepad::uhid::{
    copy_text, create_event, get_u32, parse_event, put_u16, put_u32, Event, UHID_EVENT_SIZE,
    UHID_GET_REPORT, UHID_SET_REPORT,
};
use virtualgamepad::uhid_provider::{
    plan_uhid_drain, LinuxUhidProvider, UhidIo, UhidIoFactory, UhidReply, UhidSession,
};

fn host_order() -> ByteOrder {
    if u16::from_ne_bytes([1, 0]) == 1 {
        ByteOrder::Little
    } else {
        ByteOrder::Big
    }
}

#[test]
fn uhid_event_size_matches_the_documented_maximum_layout() {
    assert_eq!(UHID_EVENT_SIZE, 4380);
}

#[test]
fn parses_dynamic_get_and_set_report_requests() {
    let order = host_order();
    let mut get = vec![0_u8; 10];
    put_u32(&mut get, 0, UHID_GET_REPORT, order);
    put_u32(&mut get, 4, 42, order);
    get[8] = 7;
    get[9] = 3;
    assert!(matches!(
        parse_event(&get, order),
        Ok(Event::Get {
            id: 42,
            report_id: 7,
            report_type: 3
        })
    ));

    let mut set = vec![0_u8; 14];
    put_u32(&mut set, 0, UHID_SET_REPORT, order);
    put_u32(&mut set, 4, 99, order);
    set[8] = 4;
    set[9] = 2;
    put_u16(&mut set, 10, 2, order);
    set[12..].copy_from_slice(&[0xaa, 0xbb]);
    assert!(matches!(
        parse_event(&set, order),
        Ok(Event::SetReport {
            id: 99,
            report_id: 4,
            report_type: 2,
            bytes
        }) if bytes == [0xaa, 0xbb]
    ));
}

#[test]
fn rejects_truncated_set_report_payloads() {
    let order = host_order();
    let mut set = vec![0_u8; 12];
    put_u32(&mut set, 0, UHID_SET_REPORT, order);
    put_u16(&mut set, 10, 1, order);
    assert!(matches!(parse_event(&set, order), Err(ProviderError::Read { .. })));
}

#[test]
fn put_then_get_u32_round_trips_in_both_orders() {
    for order in [ByteOrder::Little, ByteOrder::Big] {
        let mut buffer = vec![0_u8; 8];
        put_u32(&mut buffer, 2, 0xDEAD_BEEF, order);
        assert_eq!(get_u32(&buffer, 2, order), 0xDEAD_BEEF);
        assert_eq!(buffer[0], 0);
        assert_eq!(buffer[6], 0);
    }
    let mut little = vec![0_u8; 4];
    put_u32(&mut little, 0, 0x0102_0304, ByteOrder::Little);
    assert_eq!(little, vec![4, 3, 2, 1]);
    let mut big = vec![0_u8; 4];
    put_u32(&mut big, 0, 0x0102_0304, ByteOrder::Big);
    assert_eq!(big, vec![1, 2, 3, 4]);
}

#[test]
fn short_events_are_refused() {
    assert!(matches!(
        parse_event(&[1, 0], ByteOrder::Little),
        Err(ProviderError::Read { .. })
    ));
}

#[derive(Default)]
struct Record {
    inputs: Vec<(Option<u8>, Vec<u8>)>,
    get_replies: Vec<(u32, i16, Vec<u8>)>,
    set_replies: Vec<(u32, i16)>,
    destroys: usize,
}

struct FakeIo {
    events: VecDeque<Result<Event, ProviderError>>,
    input_results: VecDeque<Result<(), ProviderError>>,
    record: Rc<RefCell<Record>>,
}

impl UhidIo for FakeIo {
    fn input(&mut self, id: Option<u8>, bytes: &[u8]) -> Result<(), ProviderError> {
        self.record.borrow_mut().inputs.push((id, bytes.to_vec()));
        self.input_results.pop_front().unwrap_or(Ok(()))
    }
    fn get_reply(&mut self, id: u32, status: i16, bytes: &[u8]) -> Result<(), ProviderError> {
        self.record
            .borrow_mut()
            .get_replies
            .push((id, status, bytes.to_vec()));
        Ok(())
    }
    fn set_reply(&mut self, id: u32, status: i16) -> Result<(), ProviderError> {
        self.record.borrow_mut().set_replies.push((id, status));
        Ok(())
    }
    fn read_event(&mut self) -> Result<Event, ProviderError> {
        self.events
            .pop_front()
            .unwrap_or(Err(ProviderError::WouldBlock))
    }
    fn destroy(&mut self) -> Result<(), ProviderError> {
        self.record.borrow_mut().destroys += 1;
        Ok(())
    }
}

struct FailingFactory;

impl UhidIoFactory for FailingFactory {
    type Io = FakeIo;
    fn preflight(&self, _: &ProviderOpenRequest) -> Result<(), ProviderPreflightError> {
        Ok(())
    }
    fn open(&self, _: &NativeHidRealization) -> Result<FakeIo, ProviderError> {
        Err(ProviderError::Open {
            reason: "scripted create failure".into(),
        })
    }
}

fn specification() -> NativeHidRealization {
    NativeHidRealization {
        bus_type: 3,
        device_name: "test".into(),
        physical_path: String::new(),
        unique_id: String::new(),
        identity: NativeDeviceIdentity {
            vendor_id: 1,
            product_id: 2,
            version: 3,
        },
        descriptor: vec![1],
        numbered_input_reports: true,
        numbered_output_reports: true,
        numbered_feature_reports: true,
        feature_report_responses: vec![NativeHidFeatureResponse {
            key: NativeHidReportKey {
                report_id: 4,
                report_type: 3,
            },
            bytes: vec![9],
        }],
    }
}

fn request() -> ProviderOpenRequest {
    ProviderOpenRequest {
        session: RealizationSessionId(8),
        selection: RealizationSelection {
            controller: ControllerId::new("test.uhid"),
            target: RealizationTarget::Hid,
        },
        requirements: ProviderRequirements::default(),
        realization: NativeControllerRealization::Hid(specification()),
    }
}

#[test]
fn failed_creation_returns_no_session() {
    assert!(matches!(
        LinuxUhidProvider.open_with_factory(request(), &FailingFactory),
        Err(ProviderError::Open { .. })
    ));
}

#[test]
fn fake_io_covers_numbering_static_replies_and_terminal_close() {
    let record = Rc::new(RefCell::new(Record::default()));
    let io = FakeIo {
        events: VecDeque::from([
            Ok(Event::Get {
                id: 77,
                report_id: 4,
                report_type: 3,
            }),
            Ok(Event::Get {
                id: 78,
                report_id: 99,
                report_type: 3,
            }),
            Ok(Event::SetReport {
                id: 79,
                report_id: 2,
                report_type: 2,
                bytes: vec![1, 2, 3],
            }),
            Ok(Event::Output {
                bytes: vec![6, 1, 2],
            }),
        ]),
        input_results: VecDeque::from([
            Err(ProviderError::Write {
                reason: "short write".into(),
            }),
            Ok(()),
        ]),
        record: Rc::clone(&record),
    };
    let mut session = UhidSession::new(io, RealizationSessionId(8), specification());
    assert!(session
        .send_frame(ProviderFrame::HidInput {
            report_id: Some(3),
            bytes: vec![5]
        })
        .is_err());
    session
        .send_frame(ProviderFrame::HidInput {
            report_id: Some(3),
            bytes: vec![5],
        })
        .expect("retry input");
    let mut events: Vec<ProviderReverseEvent> = Vec::new();
    session.drain_into(&mut events).expect("static reply");
    assert!(events.is_empty());
    session.drain_into(&mut events).expect("unsupported probe reply");
    assert!(events.is_empty());
    session
        .drain_into(&mut events)
        .expect("set-report acknowledgement");
    assert!(matches!(
        events[0].event,
        RawReverseEvent::HidSetReportRequest {
            request_id: 79,
            report_id: 2,
            report_type: 2,
            ref bytes,
        } if bytes == &[1, 2, 3]
    ));
    session.drain_into(&mut events).expect("output");
    assert!(matches!(
        events[1].event,
        RawReverseEvent::HidOutput { report_id: Some(6), ref bytes } if bytes == &[1, 2]
    ));
    {
        let observed = record.borrow();
        assert_eq!(observed.inputs, vec![(Some(3), vec![5]), (Some(3), vec![5])]);
        assert_eq!(observed.get_replies, vec![(77, 0, vec![9]), (78, -95, vec![])]);
        assert_eq!(observed.set_replies, vec![(79, 0)]);
    }
    session.close_session().expect("close");
    assert!(matches!(
        session.send_frame(ProviderFrame::HidInput {
            report_id: None,
            bytes: vec![]
        }),
        Err(ProviderError::Closed)
    ));
    session.close_session().expect("repeat close");
    assert_eq!(record.borrow().destroys, 1);
    assert_eq!(session.current_diagnostics().state, ProviderState::Closed);
}

fn open_reason(result: Result<Vec<u8>, ProviderError>) -> String {
    match result {
        Err(ProviderError::Open { reason }) => reason,
        other => panic!("expected an open error, got {:?}", other.map(|bytes| bytes.len())),
    }
}

#[test]
fn create_event_refuses_identity_strings_that_do_not_fit_their_fields() {
    let mut named = specification();
    named.device_name = "n".repeat(127);
    assert!(create_event(&named, host_order()).is_ok());
    named.device_name = "n".repeat(128);
    assert_eq!(
        open_reason(create_event(&named, host_order())),
        "HID device name exceeds the UHID name field"
    );
    let mut located = specification();
    located.physical_path = "p".repeat(64);
    assert_eq!(
        open_reason(create_event(&located, host_order())),
        "HID physical path exceeds the UHID phys field"
    );
    let mut unique = specification();
    unique.unique_id = "u".repeat(63);
    assert!(create_event(&unique, host_order()).is_ok());
    unique.unique_id = "u".repeat(64);
    assert_eq!(
        open_reason(create_event(&unique, host_order())),
        "HID unique ID exceeds the UHID uniq field"
    );
}

#[test]
fn copy_text_writes_only_text_that_leaves_room_for_its_terminator() {
    let mut out = vec![7_u8; 8];
    assert!(copy_text(&mut out, 2, 4, "abc"));
    assert_eq!(out, vec![7, 7, b'a', b'b', b'c', 7, 7, 7]);
    let mut refused = vec![7_u8; 8];
    assert!(!copy_text(&mut refused, 2, 4, "abcd"));
    assert_eq!(refused, vec![7_u8; 8]);
}

#[test]
fn drain_plan_answers_get_and_set_report_requests() {
    let features = specification().feature_report_responses;
    let known = Ok(Event::Get { id: 77, report_id: 4, report_type: 3 });
    assert!(matches!(
        plan_uhid_drain(&known, &features),
        UhidReply::Get { request_id: 77, status: 0, ref bytes } if bytes == &[9]
    ));
    let unknown = Ok(Event::Get { id: 78, report_id: 99, report_type: 3 });
    assert!(matches!(
        plan_uhid_drain(&unknown, &features),
        UhidReply::Get { request_id: 78, status: -95, ref bytes } if bytes.is_empty()
    ));
    let set = Ok(Event::SetReport { id: 79, report_id: 2, report_type: 2, bytes: vec![1, 2, 3] });
    assert!(matches!(
        plan_uhid_drain(&set, &features),
        UhidReply::SetAck { request_id: 79, status: 0 }
    ));
    let output = Ok(Event::Output { bytes: vec![6, 1, 2] });
    assert!(matches!(plan_uhid_drain(&output, &features), UhidReply::Nothing));
    let blocked: Result<Event, ProviderError> = Err(ProviderError::WouldBlock);
    assert!(matches!(plan_uhid_drain(&blocked, &features), UhidReply::Nothing));
}

#[test]
fn admission_reports_validation_then_preflight_errors() {
    let hid = ProviderCapabilities { target: RealizationTarget::Hid, provides_reverse_output: true };
    assert_eq!(admit_open(hid, &request(), Ok(())), Ok(()));
    let denied = ProviderPreflightError::AccessDenied {
        target: RealizationTarget::Hid,
        path: "/dev/uhid".into(),
    };
    assert_eq!(
        admit_open(hid, &request(), Err(denied.clone())),
        Err(ProviderError::Preflight(denied.clone()))
    );
    let evdev = ProviderCapabilities { target: RealizationTarget::Evdev, provides_reverse_output: false };
    assert!(matches!(
        admit_open(evdev, &request(), Err(denied)),
        Err(ProviderError::Unsupported { .. })
    ));
}

#[test]
fn an_open_error_is_handed_back_and_no_session_exists() {
    let failed: Result<UhidSession<FakeIo>, ProviderError> = UhidSession::from_opened(
        Err(ProviderError::Open { reason: "create failed".into() }),
        RealizationSessionId(8),
        specification(),
    );
    assert!(matches!(
        failed,
        Err(ProviderError::Open { ref reason }) if reason == "create failed"
    ));
}

fn quiet_uhid_io() -> FakeIo {
    FakeIo {
        events: VecDeque::new(),
        input_results: VecDeque::new(),
        record: Rc::new(RefCell::new(Record::default())),
    }
}

#[test]
fn accepted_events_are_numbered_and_passed_on() {
    let mut session = UhidSession::new(quiet_uhid_io(), RealizationSessionId(8), specification());
    let mut events: Vec<ProviderReverseEvent> = Vec::new();
    let answered_get = Ok(Event::Get { id: 77, report_id: 4, report_type: 3 });
    assert_eq!(session.accept_event(answered_get, Ok(()), &mut events), Ok(()));
    assert!(events.is_empty());
    let set = Ok(Event::SetReport { id: 79, report_id: 2, report_type: 2, bytes: vec![1, 2, 3] });
    assert_eq!(session.accept_event(set, Ok(()), &mut events), Ok(()));
    assert_eq!(events.len(), 1);
    assert_eq!(events[0].session, RealizationSessionId(8));
    assert_eq!(events[0].sequence, 2);
    assert_eq!(
        events[0].event,
        RawReverseEvent::HidSetReportRequest { request_id: 79, report_id: 2, report_type: 2, bytes: vec![1, 2, 3] }
    );
    let output = Ok(Event::Output { bytes: vec![6, 1, 2] });
    assert_eq!(session.accept_event(output, Ok(()), &mut events), Ok(()));
    assert_eq!(events[1].sequence, 3);
    assert_eq!(events[1].event, RawReverseEvent::HidOutput { report_id: Some(6), bytes: vec![1, 2] });
    let unanswered_set = Ok(Event::SetReport { id: 80, report_id: 2, report_type: 2, bytes: vec![] });
    let refused = Err(ProviderError::Write { reason: "reply refused".into() });
    assert_eq!(
        session.accept_event(unanswered_set, refused.clone(), &mut events),
        refused
    );
    assert_eq!(events.len(), 2);
    assert_eq!(session.current_diagnostics().write_failures, 1);
    assert_eq!(session.current_diagnostics().reverse_events_drained, 3);
    let blocked: Result<Event, ProviderError> = Err(ProviderError::WouldBlock);
    assert_eq!(session.accept_event(blocked, Ok(()), &mut events), Err(ProviderError::WouldBlock));
    assert_eq!(session.current_diagnostics().reverse_events_drained, 3);
}

#[test]
fn replies_are_sent_as_planned() {
    let io = quiet_uhid_io();
    let record = Rc::clone(&io.record);
    let mut session = UhidSession::new(io, RealizationSessionId(8), specification());
    assert_eq!(session.send_reply(UhidReply::Nothing), Ok(()));
    assert_eq!(session.send_reply(UhidReply::Get { request_id: 77, status: 0, bytes: vec![9] }), Ok(()));
    assert_eq!(session.send_reply(UhidReply::SetAck { request_id: 79, status: 0 }), Ok(()));
    assert_eq!(record.borrow().get_replies, vec![(77, 0, vec![9])]);
    assert_eq!(record.borrow().set_replies, vec![(79, 0)]);
}
