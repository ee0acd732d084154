use std::cell::RefCell;
use std::collections::{HashSet, VecDeque};
use std::rc::Rc;

use virtualgamepad::realization::{
    ControllerId, EvdevEvent, NativeAbsoluteAxis, NativeControllerRealization,
    NativeDeviceIdentity, NativeEvdevRealization, ProviderError, ProviderFrame,
    ProviderOpenRequest, ProviderPreflightError, ProviderRequirements, ProviderReverseEvent,
    RawReverseEvent, RealizationSelection, RealizationSessionId,
    RealizationTarget,
};
use virtualgamepad::uinput_provider::{
    validate_frame, LinuxUinputProvider, UinputIo, UinputIoFactory, UinputRead, UinputSession, EV_SYN,
    SYN_REPORT,
};
use virtualgamepad::uinput_setup::{
    device_setup, ioctl_code, setup_error, setup_plan, FfErase, FfUpload, UinputSetupStep,
    IOC_NONE, IOC_WRITE, UI_SET_ABSBIT, UI_SET_EVBIT, UI_SET_KEYBIT,
};

#[test]
fn evdev_frame_requires_a_final_synchronization_event() {
    assert!(validate_frame(&[EvdevEvent {
        event_type: EV_SYN,
        code: SYN_REPORT,
        value: 0,
    }])
    .is_ok());
    assert!(matches!(
        validate_frame(&[EvdevEvent {
            event_type: 1,
            code: 304,
            value: 1,
        }]),
        Err(ProviderError::Write { .. })
    ));
}

#[test]
fn empty_frames_are_refused() {
    assert!(matches!(validate_frame(&[]), Err(ProviderError::Write { .. })));
}

#[derive(Default)]
struct Record {
    writes: usize,
    uploads: Vec<(u32, i32)>,
    destroys: usize,
}

struct FakeIo {
    writes: VecDeque<Result<(), ProviderError>>,
    events: VecDeque<Result<RawReverseEvent, ProviderError>>,
    upload_results: VecDeque<Result<(), ProviderError>>,
    pending_uploads: HashSet<u32>,
    record: Rc<RefCell<Record>>,
}

impl UinputIo for FakeIo {
    fn write_events(&mut self, _: &[EvdevEvent]) -> Result<(), ProviderError> {
        self.record.borrow_mut().writes += 1;
        self.writes.pop_front().unwrap_or(Ok(()))
    }
    fn read_event(&mut self) -> UinputRead {
        match self.events.pop_front().unwrap_or(Err(ProviderError::WouldBlock)) {
            Ok(event) => {
                if let RawReverseEvent::ForceFeedbackUpload { request_id, .. } = &event {
                    self.pending_uploads.insert(*request_id);
                }
                UinputRead::Event(event)
            }
            Err(error) => UinputRead::Failed(error),
        }
    }
    fn finish_upload(&mut self, request_id: u32, status: i32) -> Result<(), ProviderError> {
        if !self.pending_uploads.contains(&request_id) {
            return Err(ProviderError::Unsupported {
                reason: "unknown force-feedback upload request".into(),
            });
        }
        self.record.borrow_mut().uploads.push((request_id, status));
        let result = self.upload_results.pop_front().unwrap_or(Ok(()));
        if result.is_ok() {
            self.pending_uploads.remove(&request_id);
        }
        result
    }
    fn finish_erase(&mut self, _: u32, _: i32) -> Result<(), ProviderError> {
        Ok(())
    }
    fn discard_pending(&mut self) {}
    fn destroy(&mut self) -> Result<(), ProviderError> {
        self.record.borrow_mut().destroys += 1;
        Ok(())
    }
}

struct FailingFactory {
    preflight: Option<ProviderPreflightError>,
    open: Option<ProviderError>,
}

impl UinputIoFactory for FailingFactory {
    type Io = FakeIo;
    fn preflight(&self, _: &ProviderOpenRequest) -> Result<(), ProviderPreflightError> {
        self.preflight.clone().map_or(Ok(()), Err)
    }
    fn open(&self, _: &NativeEvdevRealization) -> Result<FakeIo, ProviderError> {
        Err(self.open.clone().unwrap_or(ProviderError::Open {
            reason: "scripted open".into(),
        }))
    }
}

fn specification() -> NativeEvdevRealization {
    NativeEvdevRealization {
        device_name: "test".into(),
        identity: NativeDeviceIdentity {
            vendor_id: 1,
            product_id: 2,
            version: 3,
        },
        event_codes: vec![1],
        key_codes: vec![304],
        absolute_axes: vec![],
        relative_axes: vec![],
        led_codes: vec![],
        switch_codes: vec![],
        force_feedback_codes: vec![],
    }
}

fn request() -> ProviderOpenRequest {
    ProviderOpenRequest {
        session: RealizationSessionId(7),
        selection: RealizationSelection {
            controller: ControllerId::new("test.uinput"),
            target: RealizationTarget::Evdev,
        },
        requirements: ProviderRequirements::default(),
        realization: NativeControllerRealization::Evdev(specification()),
    }
}

fn frame() -> ProviderFrame {
    ProviderFrame::Evdev(vec![EvdevEvent {
        event_type: 0,
        code: 0,
        value: 0,
    }])
}

#[test]
fn factory_failures_never_return_a_session() {
    let provider = LinuxUinputProvider;
    let denied = FailingFactory {
        preflight: Some(ProviderPreflightError::AccessDenied {
            target: RealizationTarget::Evdev,
            path: "/dev/uinput".into(),
        }),
        open: None,
    };
    assert!(matches!(
        provider.open_with_factory(request(), &denied),
        Err(ProviderError::Preflight(_))
    ));
    let open = FailingFactory {
        preflight: None,
        open: Some(ProviderError::Open {
            reason: "create failed".into(),
        }),
    };
    assert!(matches!(
        provider.open_with_factory(request(), &open),
        Err(ProviderError::Open { .. })
    ));
}

#[test]
fn retryable_failures_and_reverse_ids_preserve_session_state() {
    let record = Rc::new(RefCell::new(Record::default()));
    let io = FakeIo {
        writes: VecDeque::from([
            Err(ProviderError::Write {
                reason: "short write".into(),
            }),
            Ok(()),
        ]),
        events: VecDeque::from([Ok(RawReverseEvent::ForceFeedbackUpload {
            request_id: 41,
            effect: vec![1, 2],
        })]),
        upload_results: VecDeque::from([
            Err(ProviderError::Write {
                reason: "end failed".into(),
            }),
            Ok(()),
        ]),
        pending_uploads: HashSet::new(),
        record: Rc::clone(&record),
    };
    let mut session = UinputSession::new(io, RealizationSessionId(7));
    assert!(session.send_frame(frame()).is_err());
    session.send_frame(frame()).expect("retry send");
    let mut events: Vec<ProviderReverseEvent> = Vec::new();
    session.drain_into(&mut events).expect("reverse event");
    assert!(matches!(
        events[0].event,
        RawReverseEvent::ForceFeedbackUpload { request_id: 41, .. }
    ));
    assert!(session
        .send_frame(ProviderFrame::ForceFeedbackUploadReply {
            request_id: 41,
            status: 0
        })
        .is_err());
    session
        .send_frame(ProviderFrame::ForceFeedbackUploadReply {
            request_id: 41,
            status: 0,
        })
        .expect("retry acknowledgement");
    assert_eq!(record.borrow().uploads, vec![(41, 0), (41, 0)]);
    assert!(matches!(
        session.send_frame(ProviderFrame::ForceFeedbackUploadReply {
            request_id: 41,
            status: 0
        }),
        Err(ProviderError::Unsupported { .. })
    ));
    assert_eq!(session.current_diagnostics().write_failures, 3);
    session.close_session().expect("close");
    assert_eq!(record.borrow().destroys, 1);
    assert!(matches!(session.send_frame(frame()), Err(ProviderError::Closed)));
    session.close_session().expect("repeated close");
    assert_eq!(record.borrow().destroys, 1);
}

#[test]
fn ioctl_codes_match_the_kernel_encoding() {
    // UI_DEV_CREATE is _IO('U', 1), UI_SET_EVBIT is _IOW('U', 100, int).
    assert_eq!(ioctl_code(IOC_NONE, 1, 0), 0x5501);
    assert_eq!(ioctl_code(IOC_WRITE, 100, 4), 0x4004_5564);
    // UI_DEV_SETUP is _IOW('U', 3, struct uinput_setup) with a 92-byte record.
    assert_eq!(ioctl_code(IOC_WRITE, 3, 92), 0x405c_5503);
}

#[test]
fn setup_plan_orders_capabilities_before_creation() {
    let mut spec = specification();
    spec.absolute_axes = vec![NativeAbsoluteAxis {
        code: 0,
        minimum: -32768,
        maximum: 32767,
        flat: 16,
    }];
    let plan = setup_plan(&spec);
    assert_eq!(plan.len(), 6);
    assert_eq!(plan[0], UinputSetupStep::SetBit { number: UI_SET_EVBIT, value: 1 });
    assert_eq!(plan[1], UinputSetupStep::SetBit { number: UI_SET_KEYBIT, value: 304 });
    assert_eq!(plan[2], UinputSetupStep::SetBit { number: UI_SET_ABSBIT, value: 0 });
    assert!(matches!(plan[3], UinputSetupStep::AbsSetup { ref axis } if axis.flat == 16));
    assert_eq!(plan[4], UinputSetupStep::DevSetup);
    assert_eq!(plan[5], UinputSetupStep::DevCreate);
    assert_eq!(plan[1].operation(), "UI_SET_KEYBIT");
    assert_eq!(plan[1].value(), 304);
    assert_eq!(plan[5].request(), 0x5501);
}

#[test]
fn device_setup_truncates_the_name_and_reserves_effects() {
    let mut spec = specification();
    spec.device_name = "x".repeat(100);
    spec.force_feedback_codes = vec![0x50];
    let setup = device_setup(&spec);
    assert_eq!(setup.bustype, 3);
    assert_eq!(setup.vendor, 1);
    assert_eq!(setup.name.len(), 80);
    assert!(setup.name[..79].iter().all(|b| *b == b'x'));
    assert_eq!(setup.name[79], 0);
    assert_eq!(setup.ff_effects_max, 64);

    let short = device_setup(&specification());
    assert_eq!(&short.name[..4], b"test");
    assert!(short.name[4..].iter().all(|b| *b == 0));
    assert_eq!(short.ff_effects_max, 0);
}

#[test]
fn setup_errors_name_the_failed_request() {
    let named = setup_error(
        ProviderError::Open {
            reason: "denied".into(),
        },
        "UI_SET_KEYBIT",
        304,
    );
    assert_eq!(
        named,
        ProviderError::Open {
            reason: "UI_SET_KEYBIT (304): denied".into()
        }
    );
    let unnumbered = setup_error(
        ProviderError::Open {
            reason: "busy".into(),
        },
        "UI_DEV_CREATE",
        0,
    );
    assert_eq!(
        unnumbered,
        ProviderError::Open {
            reason: "UI_DEV_CREATE: busy".into()
        }
    );
    assert_eq!(
        setup_error(ProviderError::WouldBlock, "UI_DEV_SETUP", 0),
        ProviderError::WouldBlock
    );
}

#[test]
fn force_feedback_records_carry_the_answer() {
    let upload = FfUpload::new(41).answered(-5);
    assert_eq!(upload.request_id, 41);
    assert_eq!(upload.retval, -5);
    assert_eq!(upload.effect_bytes(), vec![0; 48]);
    let erase = FfErase::new(9).answered(0);
    assert_eq!(erase, FfErase { request_id: 9, retval: 0, effect_id: 0 });
}

fn quiet_io() -> FakeIo {
    FakeIo {
        writes: VecDeque::new(),
        events: VecDeque::new(),
        upload_results: VecDeque::new(),
        pending_uploads: HashSet::new(),
        record: Rc::new(RefCell::new(Record::default())),
    }
}

#[test]
fn a_read_whose_answer_failed_still_takes_a_number() {
    let mut session = UinputSession::new(quiet_io(), RealizationSessionId(7));
    let mut events: Vec<ProviderReverseEvent> = Vec::new();
    assert_eq!(
        session.accept_read(UinputRead::Failed(ProviderError::WouldBlock), &mut events),
        Err(ProviderError::WouldBlock)
    );
    assert_eq!(session.current_diagnostics().reverse_events_drained, 0);
    assert_eq!(session.current_diagnostics().write_failures, 0);
    assert!(session
        .accept_read(
            UinputRead::Unanswered(ProviderError::Read { reason: "upload failed".into() }),
            &mut events
        )
        .is_err());
    assert!(events.is_empty());
    assert_eq!(session.current_diagnostics().reverse_events_drained, 1);
    assert_eq!(session.current_diagnostics().write_failures, 1);
    let plain = EvdevEvent { event_type: 0x15, code: 0x50, value: 1 };
    session
        .accept_read(UinputRead::Event(RawReverseEvent::Evdev(vec![plain])), &mut events)
        .expect("classified event");
    assert_eq!(events.len(), 1);
    assert_eq!(events[0].session, RealizationSessionId(7));
    assert_eq!(events[0].sequence, 2);
    assert_eq!(events[0].event, RawReverseEvent::Evdev(vec![plain]));
}
