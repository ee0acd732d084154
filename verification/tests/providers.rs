use virtualgamepad::btvirt::{BtvirtSession, LinuxBtvirtProvider};
use virtualgamepad::dummy_hcd::{decode_hid_output, report_length, CompiledControllerKind};
use virtualgamepad::realization::{
    ControllerId, EventReadiness, NativeControllerRealization,
    NativeUsbTransportValidationRealization, ProviderError, ProviderFrame, ProviderOpenRequest,
    ProviderPreflightError, ProviderRequirements, ProviderState, RawReverseEvent,
    RealizationSelection, RealizationSessionId, RealizationTarget, NativeDeviceIdentity,
    NativeHidRealization,
};
use virtualgamepad::reverse_translation::OutputFunction;
use virtualgamepad::uhid::Event;
use virtualgamepad::uhid_provider::{UhidIo, UhidSession};
use virtualgamepad::runtime_model::{
    BackendFamily, BackendLevel, BackendOpenContext, EmulationGoal, FidelityTier, HostPlatform,
};
use virtualgamepad::uhid_broker::{
    broker_context, broker_disconnect, broker_opened, broker_step, check_create, check_send, default_socket_path,
    frame_message, hid_outputs, message_length, BrokerFrame, BrokerOpenContext, BrokerPolicy,
    BrokerRequest, BrokerResponse, BrokerStep, BrokeredLinuxUhidBackendFactory,
    MAX_MESSAGE_BYTES,
};
use virtualgamepad::usb_gadget::{
    endpoint_preflight_error, endpoints_for, endpoint_probe_result, plan_usb_drain, usb_endpoint_checks,
    usb_preflight, EndpointProbe, EndpointRead,
    LinuxUsbGadgetProvider,
    NativeUsbEndpointDirection, UsbEndpointFactory, UsbEndpointIo, UsbGadgetSession,
};
use virtualgamepad::backend_api::{
    BackendError, BackendFactory, BackendFrame, BackendRealizationRequest, BackendSession, BackendState,
    EventReadiness as BackendReadiness, SupportLevel,
};
use virtualgamepad::windows_hid::{WindowsHidBackendFactory, WindowsHidBackendSession};

#[test]
fn dummy_hcd_output_separates_the_usb_report_id_from_its_payload() {
    assert_eq!(
        decode_hid_output(vec![0x02, 0x01, 0x04, 0x30]),
        Ok(RawReverseEvent::HidOutput {
            report_id: Some(0x02),
            bytes: vec![0x01, 0x04, 0x30],
        })
    );
    assert!(decode_hid_output(Vec::new()).is_err());
}

#[test]
fn compiled_controllers_have_their_report_lengths() {
    assert_eq!(report_length(CompiledControllerKind::DualSense), 64);
    assert_eq!(report_length(CompiledControllerKind::Xbox360), 9);
}

struct MissingEndpoints;
struct NoWrites;

impl UsbEndpointIo for NoWrites {
    fn write(&mut self, _: u8, _: &[u8]) -> Result<(), ProviderError> {
        Ok(())
    }
    fn read(&mut self, _: u8, _: usize) -> Result<Vec<u8>, ProviderError> {
        Err(ProviderError::WouldBlock)
    }
}

struct ScriptedReads {
    reads: Vec<Result<Vec<u8>, ProviderError>>,
}

impl UsbEndpointIo for ScriptedReads {
    fn write(&mut self, _: u8, _: &[u8]) -> Result<(), ProviderError> {
        Ok(())
    }
    fn read(&mut self, _: u8, maximum: usize) -> Result<Vec<u8>, ProviderError> {
        let mut next = self.reads.remove(0)?;
        next.truncate(maximum);
        Ok(next)
    }
}

impl UsbEndpointFactory for MissingEndpoints {
    type Io = NoWrites;
    fn probe(&self, _: &str, _: NativeUsbEndpointDirection) -> EndpointProbe {
        EndpointProbe::Missing
    }
    fn open(
        &self,
        _: &NativeUsbTransportValidationRealization,
    ) -> Result<NoWrites, ProviderError> {
        Ok(NoWrites)
    }
}

fn usb_specification() -> NativeUsbTransportValidationRealization {
    NativeUsbTransportValidationRealization {
        input_endpoint_path: "/dev/virtualgamepad-test-missing".into(),
        reverse_endpoint_path: None,
        device_name: "test".into(),
        maximum_input_packet_length: 64,
        maximum_reverse_packet_length: None,
    }
}

fn missing_endpoint_request() -> ProviderOpenRequest {
    ProviderOpenRequest {
        session: RealizationSessionId(1),
        selection: RealizationSelection {
            controller: ControllerId::new("test.usb"),
            target: RealizationTarget::UsbTransportValidation,
        },
        requirements: ProviderRequirements::default(),
        realization: NativeControllerRealization::UsbTransportValidation(usb_specification()),
    }
}

#[test]
fn missing_preprovisioned_endpoint_is_an_actionable_error() {
    let error = endpoint_preflight_error("/dev/virtualgamepad-test-missing", true);
    assert!(matches!(
        error,
        ProviderPreflightError::MissingPreparedEndpoint { .. }
    ));
    assert!(matches!(
        endpoint_preflight_error("/dev/hidg0", false),
        ProviderPreflightError::PreparedEndpointAccessDenied { .. }
    ));
}

#[test]
fn open_returns_no_session_when_preflight_fails() {
    let Err(error) = LinuxUsbGadgetProvider.open_with_factory(missing_endpoint_request(), &MissingEndpoints)
    else {
        panic!("missing endpoint must fail before a session exists");
    };
    assert!(matches!(
        error,
        ProviderError::Preflight(ProviderPreflightError::MissingPreparedEndpoint { .. })
    ));
}

#[test]
fn accepts_only_transport_frames_after_open() {
    let mut session = UsbGadgetSession::new(NoWrites, RealizationSessionId(1), Vec::new());
    session
        .send_frame(ProviderFrame::Transport {
            endpoint: 1,
            bytes: vec![],
        })
        .expect("transport frame");
    assert!(matches!(
        session.send_frame(ProviderFrame::HidInput {
            report_id: None,
            bytes: vec![]
        }),
        Err(ProviderError::Unsupported { .. })
    ));
    assert_eq!(session.current_diagnostics().frames_sent, 1);
    session.close().expect("close succeeds");
    assert!(matches!(
        session.send_frame(ProviderFrame::Transport {
            endpoint: 1,
            bytes: vec![],
        }),
        Err(ProviderError::Closed)
    ));
}

#[test]
fn declared_endpoints_bound_packets_and_readiness() {
    let mut specification = usb_specification();
    specification.reverse_endpoint_path = Some("/dev/hidg0-out".into());
    specification.maximum_reverse_packet_length = Some(32);
    let endpoints = endpoints_for(&specification);
    assert_eq!(endpoints.len(), 2);
    let mut session = UsbGadgetSession::new(NoWrites, RealizationSessionId(2), endpoints);
    assert_eq!(session.readiness(), EventReadiness::AlwaysPoll);
    session
        .send_frame(ProviderFrame::Transport {
            endpoint: 0x81,
            bytes: vec![0; 64],
        })
        .expect("fits");
    assert!(matches!(
        session.send_frame(ProviderFrame::Transport {
            endpoint: 0x81,
            bytes: vec![0; 65],
        }),
        Err(ProviderError::Write { .. })
    ));
    assert!(matches!(
        session.send_frame(ProviderFrame::Transport {
            endpoint: 0x01,
            bytes: vec![0; 1],
        }),
        Err(ProviderError::Unsupported { .. })
    ));
    assert!(matches!(
        session.send_frame(ProviderFrame::Transport {
            endpoint: 0x02,
            bytes: vec![0; 1],
        }),
        Err(ProviderError::Unsupported { .. })
    ));
    assert_eq!(session.current_diagnostics().frames_sent, 1);
}

#[test]
fn reverse_packets_are_numbered_across_drains() {
    let mut specification = usb_specification();
    specification.reverse_endpoint_path = Some("/dev/hidg0-out".into());
    specification.maximum_reverse_packet_length = Some(4);
    let io = ScriptedReads {
        reads: vec![
            Ok(vec![1, 2, 3, 4, 5]),
            Ok(vec![]),
            Err(ProviderError::WouldBlock),
            Ok(vec![9]),
            Err(ProviderError::Read {
                reason: "gone".into(),
            }),
        ],
    };
    let mut session = UsbGadgetSession::new(io, RealizationSessionId(3), endpoints_for(&specification));
    let mut events = Vec::new();
    session.drain_into(&mut events).expect("one packet");
    assert_eq!(events.len(), 1);
    assert_eq!(events[0].sequence, 0);
    assert_eq!(
        events[0].event,
        RawReverseEvent::Transport {
            endpoint: 0x01,
            bytes: vec![1, 2, 3, 4]
        }
    );
    assert_eq!(session.drain_into(&mut events), Err(ProviderError::WouldBlock));
    assert_eq!(session.drain_into(&mut events), Err(ProviderError::WouldBlock));
    session.drain_into(&mut events).expect("second packet");
    assert_eq!(events[1].sequence, 1);
    assert!(matches!(session.drain_into(&mut events), Err(ProviderError::Read { .. })));
    assert_eq!(session.current_diagnostics().reverse_events_drained, 2);
}

#[test]
fn rejects_non_bluetooth_sized_input() {
    let _provider = LinuxBtvirtProvider;
    let mut session = BtvirtSession::new();
    assert!(session.send_input(vec![0; 64]).is_err());
    assert!(session.send_input(vec![0; 78]).is_ok());
    assert_eq!(session.diagnostics().frames_sent, 1);
    assert_eq!(session.drain_reverse_events(), Err(ProviderError::WouldBlock));
    session.close().expect("close");
    assert_eq!(session.state, ProviderState::Closed);
    assert_eq!(session.send_input(vec![0; 78]), Err(ProviderError::Closed));
    assert_eq!(session.drain_reverse_events(), Err(ProviderError::Closed));
}

fn windows_request(tier: FidelityTier, host_platform: HostPlatform) -> BackendRealizationRequest {
    BackendRealizationRequest {
        profile_id: "dualsense".to_string(),
        requested_goal: EmulationGoal::from_fidelity(tier),
        requested_fidelity_tier: tier,
        host_platform,
        required_output_functions: vec![OutputFunction::Rumble, OutputFunction::Lighting],
    }
}

const DEPLOYMENT_REQUIREMENT: &str =
    "deployment requirement: a signed virtual-HID bus driver must be installed before realization";

#[test]
fn inventory_entry_matches_phase_twelve_contract() {
    let entry = WindowsHidBackendFactory::new().inventory_entry();
    assert_eq!(entry.backend_id, "windows-hid");
    assert_eq!(entry.family, BackendFamily::WindowsHid);
    assert_eq!(entry.level, BackendLevel::Hid);
    assert_eq!(entry.host_platform, HostPlatform::Windows);
    assert_eq!(entry.supported_fidelity_tiers, vec![FidelityTier::IdentityAware]);
}

#[test]
fn identity_aware_windows_request_is_supported() {
    let support = WindowsHidBackendFactory::new()
        .can_realize(&windows_request(FidelityTier::IdentityAware, HostPlatform::Windows));
    assert_eq!(support.forward_support, SupportLevel::Full);
    assert_eq!(support.reverse_support, SupportLevel::Full);
    assert_eq!(support.supported_output_functions.len(), 2);
    assert!(
        support.notes.iter().any(|note| note == DEPLOYMENT_REQUIREMENT),
        "expected deployment note in {:?}",
        support.notes
    );
}

#[test]
fn hardware_faithful_windows_request_is_limited() {
    let support = WindowsHidBackendFactory::new()
        .can_realize(&windows_request(FidelityTier::HardwareFaithful, HostPlatform::Windows));
    assert_eq!(support.forward_support, SupportLevel::Unsupported);
    assert_eq!(support.reverse_support, SupportLevel::Unsupported);
    assert!(support.notes.iter().any(|note| note.contains("hardware-faithful")));
}

#[test]
fn open_session_is_explicitly_unsupported() {
    let result = WindowsHidBackendFactory::new().open_session(&BackendOpenContext {
        session_id: 1,
        profile_id: "dualsense".to_string(),
        fidelity_tier: FidelityTier::IdentityAware,
        backend_level: BackendLevel::Hid,
        host_platform: HostPlatform::Windows,
    });
    let Err(error) = result else {
        panic!("planning-only provider should not open sessions");
    };
    assert!(matches!(error, BackendError::Unsupported { .. }));
    assert!(error.message().contains("Phase 12"));
}

#[test]
fn foreign_host_and_unknown_profile_are_both_noted() {
    let mut request = windows_request(FidelityTier::Compatibility, HostPlatform::Linux);
    request.profile_id = "mystery".to_string();
    let support = WindowsHidBackendFactory::new().can_realize(&request);
    assert_eq!(support.forward_support, SupportLevel::Unsupported);
    assert!(support.supported_output_functions.is_empty());
    assert_eq!(support.notes.len(), 5);
    assert_eq!(support.notes[2], "requested host platform does not match windows-hid");
    assert_eq!(
        support.notes[3],
        "profile `mystery` is not registered, so the Phase 12 Windows HID foundation cannot plan it"
    );
    assert!(support.notes[4].starts_with("compatibility-tier"));
}

fn identity_context(profile_id: &str) -> BrokerOpenContext {
    BrokerOpenContext {
        profile_id: profile_id.to_string(),
        fidelity_tier: FidelityTier::IdentityAware,
        backend_level: BackendLevel::Hid,
        host_platform: HostPlatform::Linux,
    }
}

#[test]
fn broker_allows_only_declared_input_reports() {
    let policy = BrokerPolicy::default();
    assert!(check_send(
        &policy,
        &BrokerFrame::HidInputReport {
            report_id: Some(1),
            bytes: vec![0; 78]
        }
    )
    .is_ok());
    assert_eq!(
        check_send(
            &policy,
            &BrokerFrame::HidInputReport {
                report_id: Some(1),
                bytes: vec![0; 79]
            }
        ),
        Err("input report exceeds the broker policy limit".to_string())
    );
    assert_eq!(
        check_send(&policy, &BrokerFrame::Other),
        Err("only HID input reports may cross the broker boundary".to_string())
    );
}

#[test]
fn broker_rejects_non_identity_aware_context_before_opening_a_device() {
    let policy = BrokerPolicy::default();
    assert!(check_create(&policy, 1, false, &identity_context("dualsense")).is_ok());
    let mut compatibility = identity_context("dualsense");
    compatibility.fidelity_tier = FidelityTier::Compatibility;
    assert_eq!(
        check_create(&policy, 1, false, &compatibility),
        Err("requested context is not permitted by the UHID broker policy".to_string())
    );
    assert!(check_create(&policy, 1, false, &identity_context("xbox360")).is_err());
    assert_eq!(
        check_create(&policy, 1, true, &identity_context("dualsense")),
        Err("connection has reached its session limit".to_string())
    );
    assert_eq!(
        check_create(&policy, 2, false, &identity_context("dualsense")),
        Err("unsupported protocol version 2".to_string())
    );
}

#[test]
fn broker_messages_are_length_prefixed() {
    let framed = frame_message(b"{}").expect("small message");
    assert_eq!(framed, vec![0, 0, 0, 2, b'{', b'}']);
    assert_eq!(message_length(&framed[..4]), Ok(2));
    assert!(frame_message(&vec![0; MAX_MESSAGE_BYTES + 1]).is_err());
    assert_eq!(
        message_length(&[0, 2, 0, 1]),
        Err("message exceeds protocol limit".to_string())
    );
}

#[test]
fn brokered_factory_uses_the_constrained_protocol() {
    assert_eq!(default_socket_path(), "/run/virtualgamepad/uhid.sock");
    let factory = BrokeredLinuxUhidBackendFactory::new(default_socket_path().to_string());
    assert_eq!(factory.endpoint, "/run/virtualgamepad/uhid.sock");
}

#[test]
fn windows_session_refuses_every_operation() {
    let mut session = WindowsHidBackendSession::new(3);
    let error = session.open().expect_err("planning-only");
    assert!(matches!(error, BackendError::Unsupported { .. }));
    assert_eq!(session.diagnostics().state, BackendState::Failed);
    assert_eq!(
        session.send(BackendFrame::HidInputReport { report_id: None, bytes: vec![1] }),
        Err(BackendError::SessionClosed)
    );
    let mut out = Vec::new();
    assert_eq!(session.drain_reverse_events(&mut out), Err(BackendError::SessionClosed));
    assert!(out.is_empty());
    assert_eq!(session.readiness(), BackendReadiness::NoReverseEvents);
    assert_eq!(session.diagnostics().last_error.as_deref(), Some("backend session is closed"));
    assert_eq!(session.close(), Ok(()));
    assert_eq!(session.diagnostics().state, BackendState::Closed);
    assert_eq!(session.session_id(), 3);
    assert_eq!(WindowsHidBackendFactory::new().backend_id(), "windows-hid");
}

fn endpoint_read(endpoint: u8, read: Result<Vec<u8>, ProviderError>) -> EndpointRead {
    EndpointRead { endpoint, read }
}

#[test]
fn usb_drain_plan_numbers_non_empty_packets_in_read_order() {
    let (events, outcome) = plan_usb_drain(
        RealizationSessionId(3),
        10,
        vec![
            endpoint_read(1, Ok(vec![1, 2])),
            endpoint_read(2, Ok(vec![])),
            endpoint_read(3, Err(ProviderError::WouldBlock)),
            endpoint_read(4, Ok(vec![5])),
        ],
    );
    assert_eq!(outcome, Ok(()));
    assert_eq!(events.len(), 2);
    assert_eq!(events[0].session, RealizationSessionId(3));
    assert_eq!(events[0].sequence, 10);
    assert_eq!(events[0].event, RawReverseEvent::Transport { endpoint: 1, bytes: vec![1, 2] });
    assert_eq!(events[1].sequence, 11);
    assert_eq!(events[1].event, RawReverseEvent::Transport { endpoint: 4, bytes: vec![5] });
}

#[test]
fn usb_drain_plan_blocks_on_nothing_and_stops_on_a_failed_read() {
    let (events, outcome) = plan_usb_drain(RealizationSessionId(3), 0, vec![endpoint_read(1, Ok(vec![]))]);
    assert!(events.is_empty());
    assert_eq!(outcome, Err(ProviderError::WouldBlock));
    let (events, outcome) = plan_usb_drain(
        RealizationSessionId(3),
        u64::MAX,
        vec![
            endpoint_read(1, Ok(vec![7])),
            endpoint_read(2, Err(ProviderError::Read { reason: "gone".into() })),
        ],
    );
    assert_eq!(events.len(), 1);
    assert_eq!(events[0].sequence, u64::MAX);
    assert_eq!(outcome, Err(ProviderError::Read { reason: "gone".into() }));
}

#[test]
fn endpoint_probes_become_preflight_answers() {
    assert_eq!(endpoint_probe_result("/dev/hidg0", EndpointProbe::Ready), Ok(()));
    assert_eq!(
        endpoint_probe_result("/dev/hidg0", EndpointProbe::Missing),
        Err(ProviderPreflightError::MissingPreparedEndpoint { path: "/dev/hidg0".into() })
    );
    assert_eq!(
        endpoint_probe_result("/dev/hidg0", EndpointProbe::Inaccessible),
        Err(ProviderPreflightError::PreparedEndpointAccessDenied { path: "/dev/hidg0".into() })
    );
}

struct BrokerIo {
    events: Vec<Result<Event, ProviderError>>,
    destroys: std::rc::Rc<std::cell::Cell<u32>>,
}

impl UhidIo for BrokerIo {
    fn input(&mut self, _: Option<u8>, _: &[u8]) -> Result<(), ProviderError> {
        Ok(())
    }
    fn get_reply(&mut self, _: u32, _: i16, _: &[u8]) -> Result<(), ProviderError> {
        Ok(())
    }
    fn set_reply(&mut self, _: u32, _: i16) -> Result<(), ProviderError> {
        Ok(())
    }
    fn read_event(&mut self) -> Result<Event, ProviderError> {
        if self.events.is_empty() {
            Err(ProviderError::WouldBlock)
        } else {
            self.events.remove(0)
        }
    }
    fn destroy(&mut self) -> Result<(), ProviderError> {
        self.destroys.set(self.destroys.get() + 1);
        Ok(())
    }
}

fn brokered_specification() -> NativeHidRealization {
    NativeHidRealization {
        bus_type: 3,
        device_name: "broker".into(),
        physical_path: String::new(),
        unique_id: String::new(),
        identity: NativeDeviceIdentity { vendor_id: 1, product_id: 2, version: 3 },
        descriptor: vec![1],
        numbered_input_reports: true,
        numbered_output_reports: true,
        numbered_feature_reports: true,
        feature_report_responses: Vec::new(),
    }
}

fn brokered() -> UhidSession<BrokerIo> {
    let io = BrokerIo {
        events: vec![Ok(Event::Output { bytes: vec![6, 1, 2] })],
        destroys: std::rc::Rc::new(std::cell::Cell::new(0)),
    };
    UhidSession::new(io, RealizationSessionId(5), brokered_specification())
}

fn answered_error(step: BrokerStep) -> String {
    match step {
        BrokerStep::Answer(BrokerResponse::Error(reason)) => reason,
        _ => panic!("expected an error answer"),
    }
}

#[test]
fn broker_contexts_are_read_from_known_names_only() {
    assert_eq!(
        broker_context("dualsense", "identity-aware", "hid", "linux"),
        Some(identity_context("dualsense"))
    );
    assert_eq!(broker_context("dualsense", "exact", "hid", "linux"), None);
    assert_eq!(broker_context("dualsense", "identity-aware", "usb", "linux"), None);
    assert_eq!(broker_context("dualsense", "identity-aware", "hid", "plan9"), None);
}

#[test]
fn broker_connection_creates_then_serves_one_session() {
    let policy = BrokerPolicy::default();
    let mut session: Option<UhidSession<BrokerIo>> = None;
    assert_eq!(
        answered_error(broker_step(&policy, BrokerRequest::Drain, &mut session)),
        "no active session on this connection"
    );
    assert_eq!(
        answered_error(broker_step(
            &policy,
            BrokerRequest::Create { version: 1, context: None },
            &mut session
        )),
        "requested context is not permitted by the UHID broker policy"
    );
    assert_eq!(
        answered_error(broker_step(
            &policy,
            BrokerRequest::Create { version: 2, context: Some(identity_context("dualsense")) },
            &mut session
        )),
        "unsupported protocol version 2"
    );
    let BrokerStep::Open(context) = broker_step(
        &policy,
        BrokerRequest::Create { version: 1, context: Some(identity_context("dualsense")) },
        &mut session,
    ) else {
        panic!("an admitted create is left to open");
    };
    assert_eq!(context, identity_context("dualsense"));
    assert!(session.is_none());
    assert!(matches!(
        broker_opened(&mut session, Ok(brokered())),
        BrokerResponse::Created
    ));
    assert!(session.is_some());
    assert_eq!(
        answered_error(broker_step(
            &policy,
            BrokerRequest::Create { version: 1, context: Some(identity_context("dualsense")) },
            &mut session
        )),
        "connection has reached its session limit"
    );
    assert!(matches!(
        broker_step(&policy, BrokerRequest::SendHidInput { report_id: Some(1), bytes: vec![0; 78] }, &mut session),
        BrokerStep::Answer(BrokerResponse::Sent)
    ));
    assert_eq!(
        answered_error(broker_step(
            &policy,
            BrokerRequest::SendHidInput { report_id: Some(1), bytes: vec![0; 79] },
            &mut session
        )),
        "input report exceeds the broker policy limit"
    );
    assert_eq!(
        answered_error(broker_step(&policy, BrokerRequest::SendOther, &mut session)),
        "only HID input reports may cross the broker boundary"
    );
    let BrokerStep::Answer(BrokerResponse::Outputs(outputs)) =
        broker_step(&policy, BrokerRequest::Drain, &mut session)
    else {
        panic!("a drain hands back outputs");
    };
    assert_eq!(outputs.len(), 1);
    assert_eq!(outputs[0].sequence, 1);
    assert_eq!(outputs[0].report_id, Some(6));
    assert_eq!(outputs[0].bytes, vec![1, 2]);
    assert!(matches!(
        broker_step(&policy, BrokerRequest::Diagnostics, &mut session),
        BrokerStep::Answer(BrokerResponse::Diagnostics { open: true, frames_sent: 1, write_failures: 0 })
    ));
    assert!(matches!(
        broker_step(&policy, BrokerRequest::Close, &mut session),
        BrokerStep::Answer(BrokerResponse::Closed)
    ));
    assert!(session.is_none());
}

#[test]
fn a_failed_broker_open_leaves_no_session() {
    let mut session: Option<UhidSession<BrokerIo>> = None;
    assert!(matches!(
        broker_opened(&mut session, Err("create failed".to_string())),
        BrokerResponse::Error(ref reason) if reason == "create failed"
    ));
    assert!(session.is_none());
    assert!(hid_outputs(Vec::new()).is_empty());
}

#[test]
fn usb_preflight_checks_the_input_endpoint_then_the_reverse_one() {
    let mut specification = usb_specification();
    let checks = usb_endpoint_checks(&specification);
    assert_eq!(checks.len(), 1);
    assert_eq!(checks[0].path, "/dev/virtualgamepad-test-missing");
    assert_eq!(checks[0].direction, NativeUsbEndpointDirection::DeviceToHost);
    specification.reverse_endpoint_path = Some("/dev/hidg0-out".into());
    let checks = usb_endpoint_checks(&specification);
    assert_eq!(checks.len(), 2);
    assert_eq!(checks[1].path, "/dev/hidg0-out");
    assert_eq!(checks[1].direction, NativeUsbEndpointDirection::HostToDevice);
    assert_eq!(usb_preflight(&specification, EndpointProbe::Ready, EndpointProbe::Ready), Ok(()));
    assert_eq!(
        usb_preflight(&specification, EndpointProbe::Missing, EndpointProbe::Inaccessible),
        Err(ProviderPreflightError::MissingPreparedEndpoint { path: "/dev/virtualgamepad-test-missing".into() })
    );
    assert_eq!(
        usb_preflight(&specification, EndpointProbe::Ready, EndpointProbe::Inaccessible),
        Err(ProviderPreflightError::PreparedEndpointAccessDenied { path: "/dev/hidg0-out".into() })
    );
}

#[test]
fn disconnecting_closes_a_remaining_session_once() {
    let io = BrokerIo { events: Vec::new(), destroys: std::rc::Rc::new(std::cell::Cell::new(0)) };
    let closes = std::rc::Rc::clone(&io.destroys);
    let open = UhidSession::new(io, RealizationSessionId(5), brokered_specification());
    let mut session = Some(open);
    assert_eq!(broker_disconnect(&mut session), Ok(()));
    assert!(session.is_none());
    assert_eq!(broker_disconnect(&mut session), Ok(()));
    assert_eq!(closes.get(), 1);
}
