//! The Linux USB gadget transport-validation provider: which prepared
//! endpoints a realization opens, how their absence is reported, and the
//! session that routes transport packets to them.

use vstd::prelude::*;

use crate::realization::{
    opened_view, reverse_event_views, RawReverseEventView, ProviderReverseEventView, admit_open, spec_admit_open, bump, unit_result_view, EventReadiness, NativeControllerRealization, NativeProviderFactory,
    NativeProviderSession,
    NativeUsbTransportValidationRealization, ProviderCapabilities, ProviderDiagnostics,
    ProviderError, ProviderErrorView, ProviderFrame, ProviderOpenRequest, ProviderPreflightError,
    ProviderReverseEvent, ProviderReverseEventSink, ProviderState, RawReverseEvent,
    PreflightErrorView, RealizationSessionId, RealizationTarget,
};

verus! {

/// Data direction of a USB endpoint.
#[derive(Debug, Clone, Copy, PartialEq, Eq, Structural)]
pub enum NativeUsbEndpointDirection {
    DeviceToHost,
    HostToDevice,
}

/// A prepared endpoint a session has opened.
#[derive(Debug, Clone, Copy, PartialEq, Eq, Structural)]
pub struct UsbEndpoint {
    pub address: u8,
    pub direction: NativeUsbEndpointDirection,
    pub maximum_packet_length: u16,
}

/// The USB gadget transport-validation provider.
#[derive(Debug, Clone, Copy, Default)]
pub struct LinuxUsbGadgetProvider;

impl LinuxUsbGadgetProvider {
    pub fn capabilities(&self) -> (capabilities: ProviderCapabilities)
        ensures
            capabilities.target == RealizationTarget::UsbTransportValidation,
            !capabilities.provides_reverse_output,
    {
        ProviderCapabilities::for_target(RealizationTarget::UsbTransportValidation, false)
    }
}

/// The input endpoint `0x81`, and the reverse endpoint `0x01` when both its
/// path and its packet length are declared.
pub open spec fn spec_endpoints_for(specification: NativeUsbTransportValidationRealization) -> Seq<
    UsbEndpoint,
> {
    let input = UsbEndpoint {
        address: 0x81,
        direction: NativeUsbEndpointDirection::DeviceToHost,
        maximum_packet_length: specification.maximum_input_packet_length,
    };
    if specification.reverse_endpoint_path is Some
        && specification.maximum_reverse_packet_length is Some {
        seq![
            input,
            UsbEndpoint {
                address: 0x01,
                direction: NativeUsbEndpointDirection::HostToDevice,
                maximum_packet_length: specification.maximum_reverse_packet_length->0,
            },
        ]
    } else {
        seq![input]
    }
}

/// The endpoints a session for `specification` opens.
pub fn endpoints_for(specification: &NativeUsbTransportValidationRealization) -> (endpoints: Vec<
    UsbEndpoint,
>)
    ensures
        endpoints@ == spec_endpoints_for(*specification),
{
    let mut endpoints: Vec<UsbEndpoint> = Vec::new();
    endpoints.push(
        UsbEndpoint {
            address: 0x81,
            direction: NativeUsbEndpointDirection::DeviceToHost,
            maximum_packet_length: specification.maximum_input_packet_length,
        },
    );
    match (&specification.reverse_endpoint_path, specification.maximum_reverse_packet_length) {
        (Some(_), Some(maximum_packet_length)) => {
            endpoints.push(
                UsbEndpoint {
                    address: 0x01,
                    direction: NativeUsbEndpointDirection::HostToDevice,
                    maximum_packet_length,
                },
            );
        },
        _ => {},
    }
    assert(endpoints@ =~= spec_endpoints_for(*specification));
    endpoints
}

/// The preflight error for a prepared endpoint at `path` that could not be
/// opened: missing, or present but inaccessible.
pub fn endpoint_preflight_error(path: &str, not_found: bool) -> (error: ProviderPreflightError)
    ensures
        not_found ==> error@ == (crate::realization::PreflightErrorView::MissingPreparedEndpoint {
            path: path@,
        }),
        !not_found ==> error@ == (
        crate::realization::PreflightErrorView::PreparedEndpointAccessDenied { path: path@ }),
{
    if not_found {
        ProviderPreflightError::MissingPreparedEndpoint { path: path.to_owned() }
    } else {
        ProviderPreflightError::PreparedEndpointAccessDenied { path: path.to_owned() }
    }
}

/// What checking a prepared endpoint node found.
#[derive(Debug, Clone, Copy, PartialEq, Eq, Structural)]
pub enum EndpointProbe {
    /// The node exists and opens in the direction asked.
    Ready,
    /// No node exists at the path.
    Missing,
    /// The node exists but cannot be opened.
    Inaccessible,
}

/// The preflight answer for the prepared endpoint at `path`, given what
/// checking it found.
pub open spec fn spec_probe_result(path: Seq<char>, probe: EndpointProbe) -> Result<(), PreflightErrorView> {
    match probe {
        EndpointProbe::Ready => Ok(()),
        EndpointProbe::Missing => Err(PreflightErrorView::MissingPreparedEndpoint { path }),
        EndpointProbe::Inaccessible => Err(PreflightErrorView::PreparedEndpointAccessDenied { path }),
    }
}

/// A preflight answer taken by the view of its error.
pub open spec fn preflight_view(result: Result<(), ProviderPreflightError>) -> Result<(), PreflightErrorView> {
    match result {
        Ok(()) => Ok(()),
        Err(error) => Err(error@),
    }
}

/// The preflight answer of a USB realization, given what checking its
/// input endpoint and, when one is declared, its reverse endpoint found:
/// the input endpoint is checked first.
pub open spec fn spec_usb_preflight(
    specification: NativeUsbTransportValidationRealization,
    input: EndpointProbe,
    reverse: EndpointProbe,
) -> Result<(), PreflightErrorView> {
    match spec_probe_result(specification.input_endpoint_path@, input) {
        Err(error) => Err(error),
        Ok(()) => match specification.reverse_endpoint_path {
            Some(path) => spec_probe_result(path@, reverse),
            None => Ok(()),
        },
    }
}

/// The preflight answer for the prepared endpoint at `path`, given what
/// checking it found.
pub fn endpoint_probe_result(path: &str, probe: EndpointProbe) -> (result: Result<(), ProviderPreflightError>)
    ensures
        preflight_view(result) == spec_probe_result(path@, probe),
{
    match probe {
        EndpointProbe::Ready => Ok(()),
        EndpointProbe::Missing => Err(endpoint_preflight_error(path, true)),
        EndpointProbe::Inaccessible => Err(endpoint_preflight_error(path, false)),
    }
}

/// One prepared endpoint node a preflight checks, and the direction it
/// must open in.
pub struct EndpointCheck {
    pub path: String,
    pub direction: NativeUsbEndpointDirection,
}

/// Each check taken as its path's view and its direction.
pub open spec fn check_views(checks: Seq<EndpointCheck>) -> Seq<(Seq<char>, NativeUsbEndpointDirection)> {
    checks.map_values(|check: EndpointCheck| (check.path@, check.direction))
}

/// The endpoint nodes a USB realization's preflight checks, in order: the
/// input endpoint device-to-host, then the reverse endpoint host-to-device
/// when one is declared.
pub open spec fn spec_usb_checks(specification: NativeUsbTransportValidationRealization) -> Seq<
    (Seq<char>, NativeUsbEndpointDirection),
> {
    seq![(specification.input_endpoint_path@, NativeUsbEndpointDirection::DeviceToHost)]
        + match specification.reverse_endpoint_path {
        Some(path) => seq![(path@, NativeUsbEndpointDirection::HostToDevice)],
        None => Seq::empty(),
    }
}

/// The endpoint nodes a USB realization's preflight checks, in order.
pub fn usb_endpoint_checks(specification: &NativeUsbTransportValidationRealization) -> (checks: Vec<
    EndpointCheck,
>)
    ensures
        check_views(checks@) == spec_usb_checks(*specification),
{
    let mut checks: Vec<EndpointCheck> = Vec::new();
    checks.push(
        EndpointCheck {
            path: specification.input_endpoint_path.clone(),
            direction: NativeUsbEndpointDirection::DeviceToHost,
        },
    );
    match &specification.reverse_endpoint_path {
        Some(path) => {
            checks.push(EndpointCheck { path: path.clone(), direction: NativeUsbEndpointDirection::HostToDevice });
        },
        None => {},
    }
    assert(check_views(checks@) =~= spec_usb_checks(*specification));
    checks
}

/// The preflight answer of a USB realization given what checking its input
/// endpoint and its reverse endpoint found; the reverse answer is read only
/// when the input endpoint is ready and a reverse endpoint is declared.
pub fn usb_preflight(
    specification: &NativeUsbTransportValidationRealization,
    input: EndpointProbe,
    reverse: EndpointProbe,
) -> (result: Result<(), ProviderPreflightError>)
    ensures
        preflight_view(result) == spec_usb_preflight(*specification, input, reverse),
{
    match endpoint_probe_result(specification.input_endpoint_path.as_str(), input) {
        Err(error) => Err(error),
        Ok(()) => match &specification.reverse_endpoint_path {
            Some(path) => endpoint_probe_result(path.as_str(), reverse),
            None => Ok(()),
        },
    }
}

/// Endpoint check answers that explain `preflight` for `request`, when
/// there are any.
spec fn explaining_probes(request: ProviderOpenRequest, preflight: Result<(), ProviderPreflightError>) -> (
    EndpointProbe,
    EndpointProbe,
) {
    match request.realization {
        NativeControllerRealization::UsbTransportValidation(specification) => choose|
            input: EndpointProbe,
            reverse: EndpointProbe,
        |
            #![trigger spec_usb_preflight(specification, input, reverse)]
            preflight_view(preflight) == spec_usb_preflight(specification, input, reverse),
        _ => (EndpointProbe::Ready, EndpointProbe::Ready),
    }
}

/// What opening `request` answers, given what the endpoint checks found and
/// what opening the endpoints answered: the validation error, then the
/// preflight error, then the open error, else success.
pub open spec fn spec_usb_open(
    request: ProviderOpenRequest,
    input: EndpointProbe,
    reverse: EndpointProbe,
    opened: Result<(), ProviderErrorView>,
) -> Result<(), ProviderErrorView> {
    match request.spec_validate_against(
        ProviderCapabilities { target: RealizationTarget::UsbTransportValidation, provides_reverse_output: false },
    ) {
        Err(error) => Err(ProviderErrorView::Unsupported { reason: error.spec_message() }),
        Ok(()) => match request.realization {
            NativeControllerRealization::UsbTransportValidation(specification) => match spec_usb_preflight(
                specification,
                input,
                reverse,
            ) {
                Err(error) => Err(ProviderErrorView::Preflight(error)),
                Ok(()) => opened,
            },
            _ => Err(ProviderErrorView::Unsupported { reason: "USB gadget requires USB realization"@ }),
        },
    }
}

/// The first endpoint with `address`, if any.
pub open spec fn endpoint_at(endpoints: Seq<UsbEndpoint>, address: u8) -> Option<UsbEndpoint>
    decreases endpoints.len(),
{
    if endpoints.len() == 0 {
        None
    } else if endpoints[0].address == address {
        Some(endpoints[0])
    } else {
        endpoint_at(endpoints.drop_first(), address)
    }
}

fn find_endpoint(endpoints: &Vec<UsbEndpoint>, address: u8) -> (found: Option<UsbEndpoint>)
    ensures
        found == endpoint_at(endpoints@, address),
{
    let mut index: usize = 0;
    assert(endpoints@.subrange(0, endpoints.len() as int) =~= endpoints@);
    while index < endpoints.len()
        invariant
            index <= endpoints.len(),
            endpoint_at(endpoints@, address) == endpoint_at(
                endpoints@.subrange(index as int, endpoints.len() as int),
                address,
            ),
        decreases endpoints.len() - index,
    {
        assert(endpoints@.subrange(index as int, endpoints.len() as int).drop_first()
            =~= endpoints@.subrange(index + 1, endpoints.len() as int));
        if endpoints[index].address == address {
            return Some(endpoints[index]);
        }
        index = index + 1;
    }
    None
}

/// What a transport frame asks of the gadget: a write to an endpoint, an
/// acceptance without a write (a session without endpoints), or a refusal.
pub enum UsbSendPlan {
    Write { endpoint: u8, bytes: Vec<u8> },
    Accept,
    Reject(ProviderError),
}

/// [`UsbSendPlan`] taken by views.
pub ghost enum UsbSendPlanView {
    Write { endpoint: u8, bytes: Seq<u8> },
    Accept,
    Reject(ProviderErrorView),
}

impl View for UsbSendPlan {
    type V = UsbSendPlanView;

    open spec fn view(&self) -> UsbSendPlanView {
        match self {
            UsbSendPlan::Write { endpoint, bytes } => UsbSendPlanView::Write {
                endpoint: *endpoint,
                bytes: bytes@,
            },
            UsbSendPlan::Accept => UsbSendPlanView::Accept,
            UsbSendPlan::Reject(error) => UsbSendPlanView::Reject(error@),
        }
    }
}

/// The gadget carries transport packets only, each to a declared
/// device-to-host endpoint and within its maximum packet length.
pub open spec fn spec_plan_usb_send(endpoints: Seq<UsbEndpoint>, frame: ProviderFrame) -> UsbSendPlanView {
    match frame {
        ProviderFrame::Transport { endpoint, bytes } => match endpoint_at(endpoints, endpoint) {
            Some(declared) => if declared.direction != NativeUsbEndpointDirection::DeviceToHost {
                UsbSendPlanView::Reject(
                    ProviderErrorView::Unsupported {
                        reason: "USB transport endpoint is host-to-device"@,
                    },
                )
            } else if bytes@.len() > declared.maximum_packet_length {
                UsbSendPlanView::Reject(
                    ProviderErrorView::Write {
                        reason: "USB transport packet exceeds declared endpoint maximum"@,
                    },
                )
            } else {
                UsbSendPlanView::Write { endpoint, bytes: bytes@ }
            },
            None => if endpoints.len() > 0 {
                UsbSendPlanView::Reject(
                    ProviderErrorView::Unsupported {
                        reason: "USB composite endpoint is not declared"@,
                    },
                )
            } else {
                UsbSendPlanView::Accept
            },
        },
        _ => UsbSendPlanView::Reject(
            ProviderErrorView::Unsupported { reason: "USB gadget accepts transport packets only"@ },
        ),
    }
}

/// Decide what `frame` asks of the gadget with `endpoints` open.
pub fn plan_usb_send(endpoints: &Vec<UsbEndpoint>, frame: ProviderFrame) -> (plan: UsbSendPlan)
    ensures
        plan@ == spec_plan_usb_send(endpoints@, frame),
{
    match frame {
        ProviderFrame::Transport { endpoint, bytes } => match find_endpoint(endpoints, endpoint) {
            Some(declared) => {
                if declared.direction != NativeUsbEndpointDirection::DeviceToHost {
                    UsbSendPlan::Reject(
                        ProviderError::Unsupported {
                            reason: String::from_str("USB transport endpoint is host-to-device"),
                        },
                    )
                } else if bytes.len() > declared.maximum_packet_length as usize {
                    UsbSendPlan::Reject(
                        ProviderError::Write {
                            reason: String::from_str(
                                "USB transport packet exceeds declared endpoint maximum",
                            ),
                        },
                    )
                } else {
                    UsbSendPlan::Write { endpoint, bytes }
                }
            },
            None => {
                if endpoints.len() > 0 {
                    UsbSendPlan::Reject(
                        ProviderError::Unsupported {
                            reason: String::from_str("USB composite endpoint is not declared"),
                        },
                    )
                } else {
                    UsbSendPlan::Accept
                }
            },
        },
        _ => UsbSendPlan::Reject(
            ProviderError::Unsupported {
                reason: String::from_str("USB gadget accepts transport packets only"),
            },
        ),
    }
}

/// Whether some endpoint carries reverse (host-to-device) packets.
pub open spec fn has_reverse_endpoint(endpoints: Seq<UsbEndpoint>) -> bool {
    exists|i: int|
        0 <= i < endpoints.len() && #[trigger] endpoints[i].direction
            == NativeUsbEndpointDirection::HostToDevice
}

/// A session must be polled exactly when it has a reverse endpoint.
pub fn usb_readiness(endpoints: &Vec<UsbEndpoint>) -> (readiness: EventReadiness)
    ensures
        has_reverse_endpoint(endpoints@) ==> readiness == EventReadiness::AlwaysPoll,
        !has_reverse_endpoint(endpoints@) ==> readiness == EventReadiness::NoReverseEvents,
{
    let mut index: usize = 0;
    while index < endpoints.len()
        invariant
            index <= endpoints.len(),
            forall|k: int|
                0 <= k < index ==> #[trigger] endpoints@[k].direction
                    != NativeUsbEndpointDirection::HostToDevice,
        decreases endpoints.len() - index,
    {
        if endpoints[index].direction == NativeUsbEndpointDirection::HostToDevice {
            return EventReadiness::AlwaysPoll;
        }
        index = index + 1;
    }
    EventReadiness::NoReverseEvents
}

/// A send in a USB gadget session: a session that is not open refuses with
/// `Closed`; a frame that is written or accepted counts as sent; a refusal
/// or a failed write changes no counter.
pub open spec fn spec_usb_send(
    state: ProviderState,
    sent: u64,
    plan: UsbSendPlanView,
    device: Result<(), ProviderErrorView>,
) -> (u64, Result<(), ProviderErrorView>) {
    if state != ProviderState::Open {
        (sent, Err(ProviderErrorView::Closed))
    } else {
        match plan {
            UsbSendPlanView::Reject(error) => (sent, Err(error)),
            UsbSendPlanView::Accept => (bump(sent), Ok(())),
            UsbSendPlanView::Write { .. } => match device {
                Ok(()) => (bump(sent), Ok(())),
                Err(error) => (sent, Err(error)),
            },
        }
    }
}

/// Writes transport packets to the gadget's prepared endpoints and reads
/// the host's packets from them.
pub trait UsbEndpointIo {
    fn write(&mut self, endpoint: u8, bytes: &[u8]) -> Result<(), ProviderError>;

    /// Read one packet of at most `maximum` bytes from a host-to-device
    /// endpoint: empty when the endpoint had nothing, `WouldBlock` when
    /// reading would block.
    fn read(&mut self, endpoint: u8, maximum: usize) -> Result<Vec<u8>, ProviderError>;
}

/// `base + count`, saturated at `u64::MAX`.
pub open spec fn saturating_count(base: u64, count: int) -> u64 {
    if base + count <= u64::MAX {
        (base + count) as u64
    } else {
        u64::MAX
    }
}

/// What one read of a host-to-device endpoint gave.
pub struct EndpointRead {
    pub endpoint: u8,
    pub read: Result<Vec<u8>, ProviderError>,
}

/// [`EndpointRead`] taken by views.
pub ghost struct EndpointReadView {
    pub endpoint: u8,
    pub read: Result<Seq<u8>, ProviderErrorView>,
}

impl View for EndpointRead {
    type V = EndpointReadView;

    open spec fn view(&self) -> EndpointReadView {
        EndpointReadView {
            endpoint: self.endpoint,
            read: match &self.read {
                Ok(bytes) => Ok(bytes@),
                Err(error) => Err(error@),
            },
        }
    }
}

/// Each read taken by its view.
pub open spec fn read_views(reads: Seq<EndpointRead>) -> Seq<EndpointReadView> {
    reads.map_values(|r: EndpointRead| r@)
}

/// A read that failed with something other than `WouldBlock`.
pub open spec fn is_hard_failure(read: Result<Seq<u8>, ProviderErrorView>) -> bool {
    read matches Err(error) && error != ProviderErrorView::WouldBlock
}

/// `reads` are one read of each host-to-device endpoint of `endpoints`, in
/// order.
pub open spec fn reads_match(endpoints: Seq<UsbEndpoint>, reads: Seq<EndpointReadView>) -> bool
    decreases endpoints.len(),
{
    if endpoints.len() == 0 {
        reads.len() == 0
    } else if endpoints.last().direction != NativeUsbEndpointDirection::HostToDevice {
        reads_match(endpoints.drop_last(), reads)
    } else {
        reads.len() > 0 && reads.last().endpoint == endpoints.last().address && reads_match(
            endpoints.drop_last(),
            reads.drop_last(),
        )
    }
}

/// `reads` are what a drain read: the host-to-device endpoints in order,
/// up to the first read that failed other than blocking.
pub open spec fn drain_reads(endpoints: Seq<UsbEndpoint>, reads: Seq<EndpointReadView>) -> bool {
    exists|read_to: int|
        #![trigger reads_match(endpoints.subrange(0, read_to), reads)]
        0 <= read_to <= endpoints.len() && reads_match(endpoints.subrange(0, read_to), reads) && (
        forall|i: int| 0 <= i < reads.len() - 1 ==> !is_hard_failure(#[trigger] reads[i].read))
            && (read_to < endpoints.len() ==> reads.len() > 0 && is_hard_failure(
            reads.last().read,
        ))
}

/// The events a drain hands out for `reads`: each non-empty packet, in
/// order, numbered on from `base`.
pub open spec fn spec_drained_events(
    session: RealizationSessionId,
    base: u64,
    reads: Seq<EndpointReadView>,
) -> Seq<ProviderReverseEventView>
    decreases reads.len(),
{
    if reads.len() == 0 {
        Seq::empty()
    } else {
        let earlier = spec_drained_events(session, base, reads.drop_last());
        match reads.last().read {
            Ok(bytes) => if bytes.len() > 0 {
                earlier.push(
                    ProviderReverseEventView {
                        session,
                        sequence: saturating_count(base, earlier.len() as int),
                        event: RawReverseEventView::Transport { endpoint: reads.last().endpoint, bytes },
                    },
                )
            } else {
                earlier
            },
            Err(_) => earlier,
        }
    }
}

/// What a drain answers for `reads`: the failure that stopped it, else
/// `WouldBlock` when nothing was handed out, else success.
pub open spec fn spec_drain_outcome(
    session: RealizationSessionId,
    base: u64,
    reads: Seq<EndpointReadView>,
) -> Result<(), ProviderErrorView> {
    if reads.len() > 0 && is_hard_failure(reads.last().read) {
        Err(reads.last().read->Err_0)
    } else if spec_drained_events(session, base, reads).len() == 0 {
        Err(ProviderErrorView::WouldBlock)
    } else {
        Ok(())
    }
}

/// The events and answer of a drain, given what each endpoint read gave.
pub fn plan_usb_drain(session: RealizationSessionId, base: u64, reads: Vec<EndpointRead>) -> (plan: (
    Vec<ProviderReverseEvent>,
    Result<(), ProviderError>,
))
    ensures
        reverse_event_views(plan.0@) == spec_drained_events(
            session,
            base,
            read_views(reads@),
        ),
        unit_result_view(plan.1) == spec_drain_outcome(
            session,
            base,
            read_views(reads@),
        ),
{
    let ghost all = read_views(reads@);
    let total = reads.len();
    let mut remaining = reads;
    let mut events: Vec<ProviderReverseEvent> = Vec::new();
    let mut outcome: Result<(), ProviderError> = Err(ProviderError::WouldBlock);
    let mut count: u64 = 0;
    let mut index: usize = 0;
    while index < total
        invariant
            total == all.len(),
            index <= total,
            read_views(remaining@) == all.subrange(index as int, total as int),
            remaining@.len() == total - index,
            reverse_event_views(events@) == spec_drained_events(session, base, all.subrange(0, index as int)),
            count == events@.len(),
            count <= index,
            unit_result_view(outcome) == spec_drain_outcome(session, base, all.subrange(0, index as int)),
        decreases total - index,
    {
        let ghost prefix = all.subrange(0, index as int + 1);
        assert(prefix.drop_last() =~= all.subrange(0, index as int));
        let ghost rest_before = remaining@;
        assert(read_views(rest_before)[0] == all[index as int]);
        let next = remaining.remove(0);
        assert(remaining@ =~= rest_before.drop_first());
        assert(next@ == all[index as int]);
        assert(prefix.last() == all[index as int]);
        let ghost mapped = read_views(remaining@);
        let ghost mapped_before = read_views(rest_before);
        assert forall|j: int| 0 <= j < mapped.len() implies #[trigger] mapped[j] == all.subrange(
            index + 1,
            total as int,
        )[j] by {
            assert(remaining@[j] == rest_before[j + 1]);
            assert(mapped_before[j + 1] == all[index + 1 + j]);
        }
        assert(mapped =~= all.subrange(index + 1, total as int));
        match next.read {
            Ok(bytes) => {
                if bytes.len() > 0 {
                    let sequence = base.saturating_add(count);
                    let ghost before = events@;
                    events.push(
                        ProviderReverseEvent {
                            session,
                            sequence,
                            event: RawReverseEvent::Transport { endpoint: next.endpoint, bytes },
                        },
                    );
                    assert(reverse_event_views(events@) =~= reverse_event_views(before).push(events@.last()@));
                    count = count + 1;
                }
                if events.len() > 0 {
                    outcome = Ok(());
                } else {
                    outcome = Err(ProviderError::WouldBlock);
                }
            },
            Err(error) => {
                let hard = match error {
                    ProviderError::WouldBlock => false,
                    _ => true,
                };
                if hard {
                    outcome = Err(error);
                } else if events.len() > 0 {
                    outcome = Ok(());
                } else {
                    outcome = Err(ProviderError::WouldBlock);
                }
            },
        }
        index = index + 1;
    }
    assert(all.subrange(0, total as int) =~= all);
    (events, outcome)
}

/// An open USB gadget session.
pub struct UsbGadgetSession<Io: UsbEndpointIo> {
    io: Io,
    id: RealizationSessionId,
    state: ProviderState,
    sent: u64,
    reverse_events_drained: u64,
    endpoints: Vec<UsbEndpoint>,
}

impl<Io: UsbEndpointIo> UsbGadgetSession<Io> {
    pub closed spec fn state(&self) -> ProviderState {
        self.state
    }

    pub closed spec fn sent(&self) -> u64 {
        self.sent
    }

    pub closed spec fn endpoints(&self) -> Seq<UsbEndpoint> {
        self.endpoints@
    }

    pub closed spec fn reverse_drained(&self) -> u64 {
        self.reverse_events_drained
    }

    pub closed spec fn session_id(&self) -> RealizationSessionId {
        self.id
    }

    /// The session over what the endpoint factory opened; an open error is
    /// handed back unchanged and no session exists.
    pub fn from_opened(
        opened: Result<Io, ProviderError>,
        id: RealizationSessionId,
        endpoints: Vec<UsbEndpoint>,
    ) -> (result: Result<Self, ProviderError>)
        ensures
            match opened {
                Err(error) => result == Err::<Self, ProviderError>(error),
                Ok(_) => result matches Ok(session) && session.state() == ProviderState::Open
                    && session.sent() == 0 && session.endpoints() == endpoints@
                    && session.session_id() == id,
            },
    {
        match opened {
            Ok(io) => Ok(UsbGadgetSession::new(io, id, endpoints)),
            Err(error) => Err(error),
        }
    }

    /// A freshly opened session over the opened `endpoints`.
    pub fn new(io: Io, id: RealizationSessionId, endpoints: Vec<UsbEndpoint>) -> (session: Self)
        ensures
            session.state() == ProviderState::Open,
            session.sent() == 0,
            session.endpoints() == endpoints@,
            session.session_id() == id,
    {
        UsbGadgetSession { io, id, state: ProviderState::Open, sent: 0, reverse_events_drained: 0, endpoints }
    }

    /// Read one packet from each host-to-device endpoint, in endpoint
    /// order, and hand the non-empty ones to `out`, numbered on from the
    /// packets drained before. Reading nothing at all is `WouldBlock`; a
    /// read that fails other than blocking stops the drain (packets already
    /// handed out stay) and leaves the count unchanged.
    pub fn drain_into<S: ProviderReverseEventSink>(&mut self, out: &mut S) -> (result: Result<
        (),
        ProviderError,
    >)
        ensures
            final(out).received().len() >= old(out).received().len(),
            final(out).received().subrange(0, old(out).received().len() as int)
                == old(out).received(),
            exists|reads: Seq<EndpointReadView>|
                #![trigger drain_reads(old(self).endpoints(), reads)]
                drain_reads(old(self).endpoints(), reads) && reverse_event_views(
                    final(out).received().subrange(
                        old(out).received().len() as int,
                        final(out).received().len() as int,
                    ),
                ) == spec_drained_events(old(self).session_id(), old(self).reverse_drained(), reads)
                    && unit_result_view(result) == spec_drain_outcome(
                    old(self).session_id(),
                    old(self).reverse_drained(),
                    reads,
                ),
            result is Ok ==> final(self).reverse_drained() == saturating_count(
                old(self).reverse_drained(),
                final(out).received().len() - old(out).received().len(),
            ),
            result is Err ==> final(self).reverse_drained() == old(self).reverse_drained(),
            final(self).state() == old(self).state(),
            final(self).sent() == old(self).sent(),
            final(self).endpoints() == old(self).endpoints(),
            final(self).session_id() == old(self).session_id(),
    {
        let ghost start = out.received();
        let ghost eps = self.endpoints@;
        let mut reads: Vec<EndpointRead> = Vec::new();
        let mut stopped = false;
        let mut index: usize = 0;
        while index < self.endpoints.len() && !stopped
            invariant
                index <= eps.len(),
                self.endpoints@ == eps,
                eps == old(self).endpoints@,
                self.id == old(self).id,
                self.reverse_events_drained == old(self).reverse_events_drained,
                self.state == old(self).state,
                self.sent == old(self).sent,
                out.received() == start,
                start == old(out).received(),
                reads_match(eps.subrange(0, index as int), read_views(reads@)),
                forall|i: int|
                    0 <= i < read_views(reads@).len() - 1 ==> !is_hard_failure(
                        #[trigger] read_views(reads@)[i].read,
                    ),
                stopped <==> (reads@.len() > 0 && is_hard_failure(read_views(reads@).last().read)),
            decreases eps.len() - index,
        {
            let endpoint = self.endpoints[index];
            let ghost before = reads@;
            let ghost upto = eps.subrange(0, index as int + 1);
            assert(upto.drop_last() =~= eps.subrange(0, index as int));
            assert(upto.last() == endpoint);
            if endpoint.direction == NativeUsbEndpointDirection::HostToDevice {
                let read = self.io.read(endpoint.address, endpoint.maximum_packet_length as usize);
                let hard = match &read {
                    Ok(_) => false,
                    Err(ProviderError::WouldBlock) => false,
                    Err(_) => true,
                };
                reads.push(EndpointRead { endpoint: endpoint.address, read });
                stopped = hard;
                assert forall|i: int|
                    0 <= i < read_views(reads@).len() - 1 implies !is_hard_failure(
                        #[trigger] read_views(reads@)[i].read,
                    ) by {
                    assert(read_views(reads@)[i] == read_views(before)[i]);
                }
                assert(read_views(reads@).drop_last() =~= read_views(before));
                assert(read_views(reads@).last() == reads@.last()@);
            }
            index = index + 1;
        }
        assert(drain_reads(eps, read_views(reads@))) by {
            assert(reads_match(eps.subrange(0, index as int), read_views(reads@)));
        }
        let base = self.reverse_events_drained;
        let ghost all_reads = read_views(reads@);
        let (mut events, outcome) = plan_usb_drain(self.id, base, reads);
        let ghost planned = events@;
        let n = events.len();
        let mut k: usize = 0;
        while k < n
            invariant
                k <= n,
                n == planned.len(),
                events@ == planned.subrange(k as int, n as int),
                out.received() == start + planned.subrange(0, k as int),
            decreases n - k,
        {
            let event = events.remove(0);
            assert(event == planned[k as int]);
            out.push(event);
            assert(events@ =~= planned.subrange(k as int + 1, n as int));
            assert(out.received() =~= start + planned.subrange(0, k as int + 1));
            k = k + 1;
        }
        assert(out.received().subrange(0, start.len() as int) =~= start);
        assert(out.received().subrange(start.len() as int, out.received().len() as int) =~= planned);
        assert(reverse_event_views(
            out.received().subrange(start.len() as int, out.received().len() as int),
        ) == spec_drained_events(self.id, base, all_reads));
        assert(unit_result_view(outcome) == spec_drain_outcome(self.id, base, all_reads));
        assert(drain_reads(old(self).endpoints(), all_reads));
        match outcome {
            Ok(()) => {
                self.reverse_events_drained = base.saturating_add(n as u64);
                Ok(())
            },
            Err(error) => Err(error),
        }
    }

    /// Send one transport packet.
    pub fn send_frame(&mut self, frame: ProviderFrame) -> (result: Result<(), ProviderError>)
        ensures
            (final(self).sent(), unit_result_view(result)) == spec_usb_send(
                old(self).state(),
                old(self).sent(),
                spec_plan_usb_send(old(self).endpoints(), frame),
                unit_result_view(result),
            ),
            final(self).state() == old(self).state(),
            final(self).endpoints() == old(self).endpoints(),
    {
        if self.state != ProviderState::Open {
            return Err(ProviderError::Closed);
        }
        match plan_usb_send(&self.endpoints, frame) {
            UsbSendPlan::Reject(error) => Err(error),
            UsbSendPlan::Accept => {
                self.sent = bump_sent(self.sent);
                Ok(())
            },
            UsbSendPlan::Write { endpoint, bytes } => {
                match self.io.write(endpoint, bytes.as_slice()) {
                    Ok(()) => {
                        self.sent = bump_sent(self.sent);
                        Ok(())
                    },
                    Err(error) => Err(error),
                }
            },
        }
    }

    /// The session's diagnostics: the gadget counts no failures.
    pub fn current_diagnostics(&self) -> (diagnostics: ProviderDiagnostics)
        ensures
            diagnostics.state == self.state(),
            diagnostics.frames_sent == self.sent(),
            diagnostics.write_failures == 0,
            diagnostics.lifecycle_events == 0,
            diagnostics.last_error is None,
    {
        ProviderDiagnostics {
            state: self.state,
            frames_sent: self.sent,
            reverse_events_drained: self.reverse_events_drained,
            write_failures: 0,
            lifecycle_events: 0,
            last_error: None,
        }
    }

    /// Whether the session must be polled for reverse packets.
    pub fn readiness(&self) -> (readiness: EventReadiness)
        ensures
            has_reverse_endpoint(self.endpoints()) ==> readiness == EventReadiness::AlwaysPoll,
            !has_reverse_endpoint(self.endpoints()) ==> readiness
                == EventReadiness::NoReverseEvents,
    {
        usb_readiness(&self.endpoints)
    }

    /// Close the session; closing always succeeds.
    pub fn close(&mut self) -> (result: Result<(), ProviderError>)
        ensures
            result is Ok,
            final(self).state() == ProviderState::Closed,
            final(self).sent() == old(self).sent(),
            final(self).endpoints() == old(self).endpoints(),
    {
        self.state = ProviderState::Closed;
        Ok(())
    }
}

fn bump_sent(x: u64) -> (y: u64)
    ensures
        y == bump(x),
{
    if x < u64::MAX {
        x + 1
    } else {
        x
    }
}

/// Checks and opens the operator-prepared endpoint nodes of a gadget.
pub trait UsbEndpointFactory {
    type Io: UsbEndpointIo;

    /// Check whether the endpoint node at `path` exists and can be opened
    /// in `direction`.
    fn probe(&self, path: &str, direction: NativeUsbEndpointDirection) -> EndpointProbe;

    /// Open the endpoint nodes of `specification`.
    fn open(&self, specification: &NativeUsbTransportValidationRealization) -> Result<
        Self::Io,
        ProviderError,
    >;
}

impl LinuxUsbGadgetProvider {
    /// Check the prepared endpoints of a USB realization: the input
    /// endpoint, then the reverse endpoint when one is declared. Other
    /// realizations have nothing to check.
    pub fn preflight_with<F: UsbEndpointFactory>(
        &self,
        request: &ProviderOpenRequest,
        factory: &F,
    ) -> (result: Result<(), ProviderPreflightError>)
        ensures
            !(request.realization is UsbTransportValidation) ==> result is Ok,
            request.realization matches NativeControllerRealization::UsbTransportValidation(specification)
                ==> exists|input: EndpointProbe, reverse: EndpointProbe|
                #![trigger spec_usb_preflight(specification, input, reverse)]
                preflight_view(result) == spec_usb_preflight(specification, input, reverse),
    {
        match &request.realization {
            NativeControllerRealization::UsbTransportValidation(specification) => {
                let checks = usb_endpoint_checks(specification);
                assert(checks@.len() == check_views(checks@).len());
                assert(spec_usb_checks(*specification).len() >= 1);
                assert(check_views(checks@)[0] == spec_usb_checks(*specification)[0]);
                let input = factory.probe(checks[0].path.as_str(), checks[0].direction);
                let reverse = if input == EndpointProbe::Ready && checks.len() > 1 {
                    factory.probe(checks[1].path.as_str(), checks[1].direction)
                } else {
                    EndpointProbe::Ready
                };
                usb_preflight(specification, input, reverse)
            },
            _ => Ok(()),
        }
    }

    /// Validate `request` against this provider, check its prepared
    /// endpoints and open them. No session exists unless every step
    /// succeeded; the session routes packets to the endpoints the
    /// realization declares.
    pub fn open_with_factory<F: UsbEndpointFactory>(
        &self,
        request: ProviderOpenRequest,
        factory: &F,
    ) -> (result: Result<UsbGadgetSession<F::Io>, ProviderError>)
        ensures
            request.spec_validate_against(
                ProviderCapabilities {
                    target: RealizationTarget::UsbTransportValidation,
                    provides_reverse_output: false,
                },
            ) matches Err(error) ==> {
                &&& result matches Err(e)
                &&& e@ == (ProviderErrorView::Unsupported { reason: error.spec_message() })
            },
            exists|input: EndpointProbe, reverse: EndpointProbe, opened: Result<(), ProviderErrorView>|
                #![trigger spec_usb_open(request, input, reverse, opened)]
                opened_view(result) == spec_usb_open(request, input, reverse, opened),
            result matches Ok(session) ==> {
                &&& request.realization matches NativeControllerRealization::UsbTransportValidation(
                    specification,
                )
                &&& session.state() == ProviderState::Open
                &&& session.sent() == 0
                &&& session.endpoints() == spec_endpoints_for(specification)
            },
    {
        let capabilities = self.capabilities();
        match request.validate_against(capabilities) {
            Ok(()) => {},
            Err(error) => {
                proof {
                    assert(spec_admit_open(request, capabilities, Ok::<(), ProviderPreflightError>(()))
                        is Err);
                }
                let refused = ProviderError::Unsupported { reason: error.message() };
                assert(opened_view(Err::<UsbGadgetSession<F::Io>, ProviderError>(refused))
                    == spec_usb_open(request, EndpointProbe::Ready, EndpointProbe::Ready, Ok(())));
                return Err(refused);
            },
        }
        let preflight = self.preflight_with(&request, factory);
        let ghost answered = preflight;
        let ghost probes = explaining_probes(request, answered);
        match admit_open(capabilities, &request, preflight) {
            Ok(()) => {},
            Err(error) => {
                proof {
                    assert(spec_usb_open(request, probes.0, probes.1, Ok(())) == opened_view(
                        Err::<UsbGadgetSession<F::Io>, ProviderError>(error),
                    ));
                }
                return Err(error);
            },
        }
        let session_id = request.session;
        match request.realization {
            NativeControllerRealization::UsbTransportValidation(specification) => {
                let opened = factory.open(&specification);
                let ghost opened_answer = opened_view(opened);
                let endpoints = endpoints_for(&specification);
                let result = UsbGadgetSession::from_opened(opened, session_id, endpoints);
                assert(opened_view(result) == spec_usb_open(request, probes.0, probes.1, opened_answer));
                result
            },
            _ => Err(
                ProviderError::Unsupported {
                    reason: String::from_str("USB gadget requires USB realization"),
                },
            ),
        }
    }
}

impl<Io: UsbEndpointIo> NativeProviderSession for UsbGadgetSession<Io> {
    open spec fn sent_frame(before: Self, after: Self, frame: ProviderFrame, result: Result<(), ProviderError>) -> bool {
        &&& (after.sent(), unit_result_view(result)) == spec_usb_send(
            before.state(),
            before.sent(),
            spec_plan_usb_send(before.endpoints(), frame),
            unit_result_view(result),
        )
        &&& after.state() == before.state()
        &&& after.endpoints() == before.endpoints()
    }

    open spec fn drained(
        before: Self,
        after: Self,
        handed: Seq<ProviderReverseEventView>,
        result: Result<(), ProviderError>,
    ) -> bool {
        &&& exists|reads: Seq<EndpointReadView>|
            #![trigger drain_reads(before.endpoints(), reads)]
            drain_reads(before.endpoints(), reads) && handed == spec_drained_events(
                before.session_id(),
                before.reverse_drained(),
                reads,
            ) && unit_result_view(result) == spec_drain_outcome(
                before.session_id(),
                before.reverse_drained(),
                reads,
            )
        &&& result is Ok ==> after.reverse_drained() == saturating_count(before.reverse_drained(), handed.len() as int)
        &&& result is Err ==> after.reverse_drained() == before.reverse_drained()
        &&& after.state() == before.state()
        &&& after.sent() == before.sent()
        &&& after.endpoints() == before.endpoints()
        &&& after.session_id() == before.session_id()
    }

    open spec fn reports(&self, diagnostics: ProviderDiagnostics) -> bool {
        &&& diagnostics.state == self.state()
        &&& diagnostics.frames_sent == self.sent()
        &&& diagnostics.write_failures == 0
        &&& diagnostics.lifecycle_events == 0
        &&& diagnostics.last_error is None
    }

    open spec fn closed_with(before: Self, after: Self, result: Result<(), ProviderError>) -> bool {
        &&& result is Ok
        &&& after.state() == ProviderState::Closed
        &&& after.sent() == before.sent()
        &&& after.endpoints() == before.endpoints()
    }

    fn send(&mut self, frame: ProviderFrame) -> (result: Result<(), ProviderError>) {
        self.send_frame(frame)
    }

    fn drain_reverse_events<S: ProviderReverseEventSink>(&mut self, out: &mut S) -> (result: Result<
        (),
        ProviderError,
    >) {
        self.drain_into(out)
    }

    fn readiness(&self) -> (readiness: EventReadiness) {
        UsbGadgetSession::readiness(self)
    }

    fn diagnostics(&self) -> (diagnostics: ProviderDiagnostics) {
        self.current_diagnostics()
    }

    fn close(&mut self) -> (result: Result<(), ProviderError>) {
        UsbGadgetSession::close(self)
    }
}

/// [`LinuxUsbGadgetProvider`] backed by an endpoint factory.
pub struct LinuxUsbGadgetProviderOn<F: UsbEndpointFactory> {
    pub factory: F,
}

impl<F: UsbEndpointFactory> NativeProviderFactory for LinuxUsbGadgetProviderOn<F> {
    type Session = UsbGadgetSession<F::Io>;

    fn capabilities(&self) -> (capabilities: ProviderCapabilities) {
        LinuxUsbGadgetProvider.capabilities()
    }

    /// Check the prepared endpoints of a USB realization; other
    /// realizations have nothing to check.
    fn preflight(&self, request: &ProviderOpenRequest) -> (result: Result<(), ProviderPreflightError>)
        ensures
            !(request.realization is UsbTransportValidation) ==> result is Ok,
    {
        LinuxUsbGadgetProvider.preflight_with(request, &self.factory)
    }

    /// Validate, check and open the endpoints; no session exists unless
    /// every step succeeded.
    fn open(&self, request: ProviderOpenRequest) -> (result: Result<Self::Session, ProviderError>)
        ensures
            request.spec_validate_against(
                ProviderCapabilities {
                    target: RealizationTarget::UsbTransportValidation,
                    provides_reverse_output: false,
                },
            ) matches Err(error) ==> {
                &&& result matches Err(e)
                &&& e@ == (ProviderErrorView::Unsupported { reason: error.spec_message() })
            },
            result matches Ok(session) ==> {
                &&& request.realization matches NativeControllerRealization::UsbTransportValidation(
                    specification,
                )
                &&& session.state() == ProviderState::Open
                &&& session.sent() == 0
                &&& session.endpoints() == spec_endpoints_for(specification)
            },
    {
        LinuxUsbGadgetProvider.open_with_factory(request, &self.factory)
    }
}

} // verus!
