//! Test-support vocabulary: an ad-hoc profile builder, backend-trace and
//! scenario enums, and the controller-dossier records.

use std::collections::BTreeMap;
use vstd::prelude::*;

use crate::backend_api::{
    copy_bytes, copy_events, same_frame, spec_frame_kind, BackendError, BackendFrame,
    BackendReverseEvent,
};
use crate::fake_backend::{copy_reverse_event, same_reverse_event};
use crate::inputs::ProfileInputFrame;
use crate::builtin_profiles::{
    generic_gamepad_inputs, generic_gamepad_profile, generic_gamepad_ranges,
    generic_gamepad_required_fields,
};
use crate::profile_contract::{CapabilityItem, ControllerProfile};
use crate::profiles::{DeltaSupportRule, InputFieldRef, ProfileFamily, TransportHint};
use crate::reverse_translation::OutputFunction;
use crate::realization::EvdevEvent;
use crate::runtime_model::{
    BackendFamily, BackendLevel, EmulationGoal, FidelityTier, HostPlatform, ProviderId,
    SessionHostMetadata, SessionLifecycleState, SessionRequest,
};
use crate::session::{SessionError, SessionSendError};
use crate::text::{decimal, push_decimal, str_eq};
use crate::transport_trace::{
    TransportControlStep, TransportEndpoints, TransportTraceBus, TransportTraceState,
};

verus! {

/// Builder for ad-hoc test profiles.
pub fn ad_hoc_profile(id: &str) -> (builder: ControllerProfileBuilder)
    ensures
        builder.spec_id() == id@,
        builder.spec_missing() == Seq::<Seq<char>>::empty(),
{
    let missing_required_fields: Vec<String> = Vec::new();
    let builder = ControllerProfileBuilder { id: id.to_string(), missing_required_fields };
    assert(builder.spec_missing() =~= Seq::<Seq<char>>::empty());
    builder
}

/// An ad-hoc profile: the built-in generic gamepad under another ID, with
/// chosen required fields blanked out.
#[derive(Debug, Clone)]
pub struct ControllerProfileBuilder {
    id: String,
    missing_required_fields: Vec<String>,
}

/// `name` is among the fields declared missing.
pub open spec fn declared_missing(missing: Seq<Seq<char>>, name: Seq<char>) -> bool {
    missing.contains(name)
}

impl ControllerProfileBuilder {
    pub closed spec fn spec_id(&self) -> Seq<char> {
        self.id@
    }

    /// The fields declared missing, in declaration order.
    pub closed spec fn spec_missing(&self) -> Seq<Seq<char>> {
        self.missing_required_fields@.map_values(|field: String| field@)
    }

    /// Declare that a required profile field is intentionally missing.
    pub fn missing_required_field(self, field: &'static str) -> (builder: Self)
        ensures
            builder.spec_id() == self.spec_id(),
            builder.spec_missing() == self.spec_missing().push(field@),
    {
        let mut builder = self;
        builder.missing_required_fields.push(field.to_string());
        assert(builder.spec_missing() =~= self.spec_missing().push(field@));
        builder
    }

    /// Build the profile. `display_name` empties the display name,
    /// `identity` or `identity.vendor_id` zeroes the vendor ID,
    /// `identity.product_id` the product ID, and `supported_fidelity`,
    /// `capabilities.input` and `input_contract.required_fields` empty
    /// those lists; other names change nothing.
    pub fn build(self) -> (profile: ControllerProfile)
        ensures
            profile.profile_id@ == self.spec_id(),
            profile.display_name@ == (if declared_missing(self.spec_missing(), "display_name"@) {
                Seq::<char>::empty()
            } else {
                "Ad hoc test profile"@
            }),
            profile.profile_family == ProfileFamily::GenericGamepad,
            profile.identity.vendor_id == (if declared_missing(self.spec_missing(), "identity"@)
                || declared_missing(self.spec_missing(), "identity.vendor_id"@) {
                0int
            } else {
                1int
            }),
            profile.identity.product_id == (if declared_missing(
                self.spec_missing(),
                "identity.product_id"@,
            ) {
                0int
            } else {
                1int
            }),
            profile.supported_fidelity@ == (if declared_missing(
                self.spec_missing(),
                "supported_fidelity"@,
            ) {
                Seq::<FidelityTier>::empty()
            } else {
                seq![FidelityTier::Compatibility]
            }),
            profile.capabilities.input@ == (if declared_missing(
                self.spec_missing(),
                "capabilities.input"@,
            ) {
                Seq::<CapabilityItem>::empty()
            } else {
                generic_gamepad_inputs()
            }),
            profile.input_contract.required_fields@ == (
            if declared_missing(self.spec_missing(), "input_contract.required_fields"@) {
                Seq::<InputFieldRef>::empty()
            } else {
                generic_gamepad_required_fields()
            }),
            profile.capabilities.output@ == Seq::<CapabilityItem>::empty(),
            profile.reverse_command_support.supported@ == Seq::<OutputFunction>::empty(),
            profile.identity.version == None::<u16>,
            profile.identity.transport_hints@ == Seq::<TransportHint>::empty(),
            profile.input_contract.optional_fields@ == Seq::<InputFieldRef>::empty(),
            profile.input_contract.ranges@ == generic_gamepad_ranges(),
            profile.input_contract.delta_support == DeltaSupportRule::SparsePartial,
            profile.descriptor_templates@.len() == 1,
            profile.descriptor_templates@[0].fidelity == FidelityTier::Compatibility,
            profile.descriptor_templates@[0].descriptor.0@ == Seq::<u8>::empty(),
    {
        let mut profile = generic_gamepad_profile();
        profile.profile_id = self.id;
        profile.display_name = String::from_str("Ad hoc test profile");
        let ghost missing = self.missing_required_fields@.map_values(|field: String| field@);
        let ghost fields0 = profile.input_contract.required_fields@;
        let mut index: usize = 0;
        while index < self.missing_required_fields.len()
            invariant
                missing == self.missing_required_fields@.map_values(|field: String| field@),
                0 <= index <= missing.len(),
                fields0 == generic_gamepad_required_fields(),
                profile.profile_id@ == self.id@,
                profile.profile_family == ProfileFamily::GenericGamepad,
                profile.capabilities.output@ == Seq::<CapabilityItem>::empty(),
                profile.reverse_command_support.supported@ == Seq::<OutputFunction>::empty(),
                profile.identity.version == None::<u16>,
                profile.identity.transport_hints@ == Seq::<TransportHint>::empty(),
                profile.input_contract.optional_fields@ == Seq::<InputFieldRef>::empty(),
                profile.input_contract.ranges@ == generic_gamepad_ranges(),
                profile.input_contract.delta_support == DeltaSupportRule::SparsePartial,
                profile.descriptor_templates@.len() == 1,
                profile.descriptor_templates@[0].fidelity == FidelityTier::Compatibility,
                profile.descriptor_templates@[0].descriptor.0@ == Seq::<u8>::empty(),
                profile.display_name@ == (if missing.subrange(0, index as int).contains(
                    "display_name"@,
                ) {
                    Seq::<char>::empty()
                } else {
                    "Ad hoc test profile"@
                }),
                profile.identity.vendor_id == (if missing.subrange(0, index as int).contains("identity"@)
                    || missing.subrange(0, index as int).contains("identity.vendor_id"@) {
                    0int
                } else {
                    1int
                }),
                profile.identity.product_id == (if missing.subrange(0, index as int).contains(
                    "identity.product_id"@,
                ) {
                    0int
                } else {
                    1int
                }),
                profile.supported_fidelity@ == (if missing.subrange(0, index as int).contains(
                    "supported_fidelity"@,
                ) {
                    Seq::<FidelityTier>::empty()
                } else {
                    seq![FidelityTier::Compatibility]
                }),
                profile.capabilities.input@ == (if missing.subrange(0, index as int).contains(
                    "capabilities.input"@,
                ) {
                    Seq::<CapabilityItem>::empty()
                } else {
                    generic_gamepad_inputs()
                }),
                profile.input_contract.required_fields@ == (
                if missing.subrange(0, index as int).contains("input_contract.required_fields"@) {
                    Seq::<InputFieldRef>::empty()
                } else {
                    fields0
                }),
            decreases self.missing_required_fields@.len() - index,
        {
            let field = self.missing_required_fields[index].as_str();
            let ghost before = missing.subrange(0, index as int);
            let ghost after = missing.subrange(0, index as int + 1);
            assert(after =~= before.push(field@));
            assert(forall|name: Seq<char>| after.contains(name) <==> (before.contains(name)
                || name == field@)) by {
                assert forall|name: Seq<char>| after.contains(name) implies (before.contains(name)
                    || name == field@) by {
                    let k = choose|k: int| 0 <= k < after.len() && after[k] == name;
                    if k < before.len() {
                        assert(before[k] == name);
                    }
                }
                assert forall|name: Seq<char>| before.contains(name) || name == field@ implies after.contains(name) by {
                    if before.contains(name) {
                        let k = choose|k: int| 0 <= k < before.len() && before[k] == name;
                        assert(after[k] == name);
                    } else {
                        assert(after[before.len() as int] == name);
                    }
                }
            }
            if str_eq(field, "display_name") {
                profile.display_name = String::new();
            }
            if str_eq(field, "identity") || str_eq(field, "identity.vendor_id") {
                profile.identity.vendor_id = 0;
            }
            if str_eq(field, "identity.product_id") {
                profile.identity.product_id = 0;
            }
            if str_eq(field, "supported_fidelity") {
                profile.supported_fidelity = Vec::new();
            }
            if str_eq(field, "capabilities.input") {
                profile.capabilities.input = Vec::new();
            }
            if str_eq(field, "input_contract.required_fields") {
                profile.input_contract.required_fields = Vec::new();
                assert(profile.input_contract.required_fields@
                    =~= Seq::<InputFieldRef>::empty());
            }
            index = index + 1;
        }
        assert(missing.subrange(0, missing.len() as int) =~= missing);
        profile
    }
}

/// Builder of session requests for planner and session tests. It starts
/// as an identity-aware request for session 1 with no hints.
#[derive(Debug, Clone)]
pub struct SessionRequestBuilder {
    pub request: SessionRequest,
}

/// A request builder for `profile_id` with the defaults.
pub fn session_request(profile_id: &str) -> (builder: SessionRequestBuilder)
    ensures
        builder.request.session_id == 1,
        builder.request.profile_id@ == profile_id@,
        builder.request.goal == EmulationGoal::IdentityAware,
        builder.request.requested_fidelity_tier == FidelityTier::IdentityAware,
        builder.request.host_platform_preference is None,
        builder.request.backend_preference is None,
        builder.request.provider_preference is None,
        builder.request.host_metadata.host_name is None,
        builder.request.host_metadata.host_version is None,
        builder.request.host_metadata.tags@ == Map::<String, String>::empty(),
{
    SessionRequestBuilder {
        request: SessionRequest {
            session_id: 1,
            profile_id: profile_id.to_string(),
            goal: EmulationGoal::IdentityAware,
            requested_fidelity_tier: FidelityTier::IdentityAware,
            host_platform_preference: None,
            backend_preference: None,
            provider_preference: None,
            host_metadata: SessionHostMetadata {
                host_name: None,
                host_version: None,
                tags: BTreeMap::new(),
            },
        },
    }
}

impl SessionRequestBuilder {
    /// Use another session ID.
    pub fn session_id(self, id: u64) -> (builder: Self)
        ensures
            builder.request == (SessionRequest { session_id: id, ..self.request }),
    {
        let mut builder = self;
        builder.request.session_id = id;
        builder
    }

    /// Ask for another emulation goal.
    pub fn goal(self, goal: EmulationGoal) -> (builder: Self)
        ensures
            builder.request == (SessionRequest { goal, ..self.request }),
    {
        let mut builder = self;
        builder.request.goal = goal;
        builder
    }

    /// Ask for another fidelity tier.
    pub fn requested_fidelity_tier(self, tier: FidelityTier) -> (builder: Self)
        ensures
            builder.request == (SessionRequest { requested_fidelity_tier: tier, ..self.request }),
    {
        let mut builder = self;
        builder.request.requested_fidelity_tier = tier;
        builder
    }

    /// Prefer a host platform.
    pub fn host_platform(self, host: HostPlatform) -> (builder: Self)
        ensures
            builder.request == (SessionRequest {
                host_platform_preference: Some(host),
                ..self.request
            }),
    {
        let mut builder = self;
        builder.request.host_platform_preference = Some(host);
        builder
    }

    /// Prefer a backend level.
    pub fn backend_preference(self, level: BackendLevel) -> (builder: Self)
        ensures
            builder.request == (SessionRequest { backend_preference: Some(level), ..self.request }),
    {
        let mut builder = self;
        builder.request.backend_preference = Some(level);
        builder
    }

    /// Prefer a provider by its ID.
    pub fn provider_preference(self, provider: &str) -> (builder: Self)
        ensures
            builder.request.provider_preference matches Some(id) && id.0@ == provider@,
            builder.request.session_id == self.request.session_id,
            builder.request.profile_id == self.request.profile_id,
            builder.request.goal == self.request.goal,
            builder.request.requested_fidelity_tier == self.request.requested_fidelity_tier,
            builder.request.host_platform_preference == self.request.host_platform_preference,
            builder.request.backend_preference == self.request.backend_preference,
            builder.request.host_metadata == self.request.host_metadata,
    {
        let mut builder = self;
        builder.request.provider_preference = Some(ProviderId::new(provider));
        builder
    }

    /// Attach host metadata.
    pub fn host_metadata(self, metadata: SessionHostMetadata) -> (builder: Self)
        ensures
            builder.request == (SessionRequest { host_metadata: metadata, ..self.request }),
    {
        let mut builder = self;
        builder.request.host_metadata = metadata;
        builder
    }

    /// The request built so far.
    pub fn build(self) -> (request: SessionRequest)
        ensures
            request == self.request,
    {
        self.request
    }
}

/// Which way a recorded backend-trace step went.
#[derive(Debug, Clone, Copy, PartialEq, Eq, Structural)]
pub enum TraceDirection {
    Outbound,
    Inbound,
    Error,
}

/// The backend operation a recorded failure happened in.
#[derive(Debug, Clone, Copy, PartialEq, Eq, Structural)]
pub enum TraceOperation {
    Open,
    Send,
    DrainReverseEvents,
    Close,
}

/// The transport a backend trace was recorded on, with what replay should
/// check.
#[derive(Debug, Clone, PartialEq, Eq)]
pub struct TransportTraceSpec {
    pub bus: TransportTraceBus,
    pub expected_final_state: Option<TransportTraceState>,
    pub endpoints: Option<TransportEndpoints>,
}

/// The payload of one recorded backend-trace step.
#[derive(Debug, Clone, PartialEq, Eq)]
pub enum BackendTracePayload {
    HidInputReport { report_id: Option<u8>, bytes: Vec<u8> },
    HidFeatureReport { report_id: u8, bytes: Vec<u8> },
    TransportPacket { endpoint_id: u8, bytes: Vec<u8> },
    TransportControl { step: TransportControlStep, endpoint_id: Option<u8>, bytes: Vec<u8> },
    EvdevEvents { events: Vec<EvdevEvent> },
    ReverseEvent { event: BackendReverseEvent },
    Failure { operation: TraceOperation, error: String },
    /// A frame kind the trace encoder does not know.
    Unsupported { frame_kind: String },
}

/// One recorded step of a backend trace.
#[derive(Debug, Clone, PartialEq, Eq)]
pub struct BackendTraceStep {
    pub direction: TraceDirection,
    pub payload: BackendTracePayload,
}

/// A recorded backend session: who recorded it, on which transport, and
/// its steps.
#[derive(Debug, Clone, PartialEq, Eq)]
pub struct BackendTrace {
    pub backend_id: Option<String>,
    pub family: Option<BackendFamily>,
    pub transport: Option<TransportTraceSpec>,
    pub steps: Vec<BackendTraceStep>,
}

/// The trace payload a frame is recorded as.
pub open spec fn spec_payload_of_frame(frame: BackendFrame) -> BackendTracePayload {
    match frame {
        BackendFrame::HidInputReport { report_id, bytes } => BackendTracePayload::HidInputReport {
            report_id,
            bytes,
        },
        BackendFrame::HidFeatureReport { report_id, bytes } =>
            BackendTracePayload::HidFeatureReport { report_id, bytes },
        BackendFrame::TransportPacket { endpoint_id, bytes } =>
            BackendTracePayload::TransportPacket { endpoint_id, bytes },
        BackendFrame::EvdevEvents { events } => BackendTracePayload::EvdevEvents { events },
    }
}

/// The frame a trace payload replays as, if it is a frame.
pub open spec fn spec_frame_of_payload(payload: BackendTracePayload) -> Option<BackendFrame> {
    match payload {
        BackendTracePayload::HidInputReport { report_id, bytes } => Some(
            BackendFrame::HidInputReport { report_id, bytes },
        ),
        BackendTracePayload::HidFeatureReport { report_id, bytes } => Some(
            BackendFrame::HidFeatureReport { report_id, bytes },
        ),
        BackendTracePayload::TransportPacket { endpoint_id, bytes } => Some(
            BackendFrame::TransportPacket { endpoint_id, bytes },
        ),
        BackendTracePayload::EvdevEvents { events } => Some(BackendFrame::EvdevEvents { events }),
        _ => None,
    }
}

/// The label a trace step kind is shown with.
pub open spec fn spec_kind_label(payload: BackendTracePayload) -> Seq<char> {
    match payload {
        BackendTracePayload::HidInputReport { .. } => "hid-input-report"@,
        BackendTracePayload::HidFeatureReport { .. } => "hid-feature-report"@,
        BackendTracePayload::TransportPacket { .. } => "transport-packet"@,
        BackendTracePayload::TransportControl { .. } => "transport-control"@,
        BackendTracePayload::EvdevEvents { .. } => "evdev-events"@,
        BackendTracePayload::ReverseEvent { .. } => "reverse-event"@,
        BackendTracePayload::Failure { .. } => "failure"@,
        BackendTracePayload::Unsupported { .. } => "unsupported-frame"@,
    }
}

impl BackendTracePayload {
    /// Record a frame as a trace payload.
    pub fn from_frame(frame: BackendFrame) -> (payload: Self)
        ensures
            payload == spec_payload_of_frame(frame),
    {
        match frame {
            BackendFrame::HidInputReport { report_id, bytes } => BackendTracePayload::HidInputReport {
                report_id,
                bytes,
            },
            BackendFrame::HidFeatureReport { report_id, bytes } =>
                BackendTracePayload::HidFeatureReport { report_id, bytes },
            BackendFrame::TransportPacket { endpoint_id, bytes } =>
                BackendTracePayload::TransportPacket { endpoint_id, bytes },
            BackendFrame::EvdevEvents { events } => BackendTracePayload::EvdevEvents { events },
        }
    }

    /// The frame this payload replays as: a copy of the recorded frame, or
    /// `None` for control, reverse, failure and unknown steps.
    pub fn as_frame(&self) -> (frame: Option<BackendFrame>)
        ensures
            match (frame, spec_frame_of_payload(*self)) {
                (Some(copy), Some(recorded)) => same_frame(copy, recorded),
                (None, None) => true,
                _ => false,
            },
    {
        let recorded = match self {
            BackendTracePayload::HidInputReport { report_id, bytes } => BackendFrame::HidInputReport {
                report_id: *report_id,
                bytes: copy_bytes(bytes),
            },
            BackendTracePayload::HidFeatureReport { report_id, bytes } =>
                BackendFrame::HidFeatureReport { report_id: *report_id, bytes: copy_bytes(bytes) },
            BackendTracePayload::TransportPacket { endpoint_id, bytes } =>
                BackendFrame::TransportPacket {
                    endpoint_id: *endpoint_id,
                    bytes: copy_bytes(bytes),
                },
            BackendTracePayload::EvdevEvents { events } => BackendFrame::EvdevEvents {
                events: copy_events(events),
            },
            _ => {
                return None;
            },
        };
        Some(recorded)
    }

    /// The label this step kind is shown with.
    pub fn kind_label(&self) -> (label: &'static str)
        ensures
            label@ == spec_kind_label(*self),
    {
        match self {
            BackendTracePayload::HidInputReport { .. } => "hid-input-report",
            BackendTracePayload::HidFeatureReport { .. } => "hid-feature-report",
            BackendTracePayload::TransportPacket { .. } => "transport-packet",
            BackendTracePayload::TransportControl { .. } => "transport-control",
            BackendTracePayload::EvdevEvents { .. } => "evdev-events",
            BackendTracePayload::ReverseEvent { .. } => "reverse-event",
            BackendTracePayload::Failure { .. } => "failure",
            BackendTracePayload::Unsupported { .. } => "unsupported-frame",
        }
    }
}

impl BackendTracePayload {
    /// The reverse event this payload carries, copied, or `None` for every
    /// other step kind.
    pub fn as_reverse_event(&self) -> (event: Option<BackendReverseEvent>)
        ensures
            match (event, *self) {
                (Some(copy), BackendTracePayload::ReverseEvent { event: recorded }) =>
                    same_reverse_event(copy, recorded),
                (None, payload) => !(payload is ReverseEvent),
                _ => false,
            },
    {
        match self {
            BackendTracePayload::ReverseEvent { event } => Some(copy_reverse_event(event)),
            _ => None,
        }
    }

    /// A drain failure recorded from a backend error: the error's message
    /// under the drain operation.
    pub fn from_error(error: &BackendError) -> (payload: Self)
        ensures
            payload matches BackendTracePayload::Failure { operation, error: text } && operation
                == TraceOperation::DrainReverseEvents && text@ == error.spec_message(),
    {
        BackendTracePayload::Failure {
            operation: TraceOperation::DrainReverseEvents,
            error: error.message(),
        }
    }
}

/// Replaying a recorded frame gives the frame back, and it is labelled
/// with its frame kind.
pub proof fn lemma_recorded_frames_replay(frame: BackendFrame)
    ensures
        spec_frame_of_payload(spec_payload_of_frame(frame)) == Some(frame),
        spec_kind_label(spec_payload_of_frame(frame)) == spec_frame_kind(frame),
{
}

/// A scripted failure of a fake backend in a session scenario.
#[derive(Debug, Clone, Copy, PartialEq, Eq, Structural)]
pub enum ScenarioFailure {
    SendWouldBlock,
    DrainParseError,
    CloseFails,
    EventReadinessFlapping,
    OpenRefused,
    SendPermanentlyFails,
    ProviderPanic,
}

/// A failure while running a session scenario.
#[derive(Debug, Clone, PartialEq, Eq)]
pub enum HarnessError {
    Session(SessionError),
    Send(SessionSendError),
    Scenario(String),
}

impl HarnessError {
    pub open spec fn spec_message(&self) -> Seq<char> {
        match self {
            HarnessError::Session(error) => error.spec_message(),
            HarnessError::Send(error) => error.spec_message(),
            HarnessError::Scenario(text) => text@,
        }
    }

    /// The error's human-readable message: that of the wrapped error.
    pub fn message(&self) -> (text: String)
        ensures
            text@ == self.spec_message(),
    {
        match self {
            HarnessError::Session(error) => error.message().to_string(),
            HarnessError::Send(error) => error.message(),
            HarnessError::Scenario(text) => text.clone(),
        }
    }
}

/// Where a controller family stands: its tiers, capability families and
/// validation hosts.
#[derive(Debug, Clone, PartialEq, Eq)]
pub struct ControllerDossier {
    pub profile_family: String,
    pub current_branch: String,
    pub default_branch_pattern: String,
    pub workflow_mode: String,
    pub primary_validation_host: String,
    pub tiers: Vec<ControllerTierRecord>,
    pub capability_families: Vec<CapabilityFamilyRecord>,
    pub validation_hosts: Vec<ValidationHostRecord>,
}

/// The evidence behind one fidelity tier of a controller family.
#[derive(Debug, Clone, PartialEq, Eq)]
pub struct ControllerTierRecord {
    pub tier: String,
    pub implemented: bool,
    pub document_backed: bool,
    pub physically_validated: bool,
    pub host_validated: bool,
    pub claimable: bool,
    pub notes: Vec<String>,
}

#[derive(Debug, Clone, PartialEq, Eq)]
pub struct CapabilityFamilyRecord {
    pub family: String,
    pub status: String,
    pub detail: String,
}

#[derive(Debug, Clone, PartialEq, Eq)]
pub struct ValidationHostRecord {
    pub host: String,
    pub role: String,
    pub status: String,
}

/// A check a runtime scenario makes of what its session has done so far.
#[derive(Debug, Clone, PartialEq, Eq)]
pub enum ScenarioAssertion {
    FramesWritten { at_least: usize },
    Counter { key: String, at_least: u64 },
    OutputCount { at_least: usize },
    SessionState { state: SessionLifecycleState },
}

/// What a scenario observes of its session: the frames the backend
/// captured, the diagnostics counters, the output commands delivered, and
/// the session's current or archived state, if it has one.
#[derive(Debug, Clone, PartialEq, Eq)]
pub struct ScenarioObservation {
    pub frames_written: usize,
    pub counters: Vec<(String, u64)>,
    pub outputs: usize,
    pub state: Option<SessionLifecycleState>,
}

/// The value of the counter named `key`: its first entry, or zero when
/// there is none.
pub open spec fn counter_reading(counters: Seq<(String, u64)>, key: Seq<char>) -> u64
    decreases counters.len(),
{
    if counters.len() == 0 {
        0
    } else if counters[0].0@ == key {
        counters[0].1
    } else {
        counter_reading(counters.drop_first(), key)
    }
}

/// How a lifecycle state is named in a scenario's failure message.
pub open spec fn lifecycle_name(state: SessionLifecycleState) -> Seq<char> {
    match state {
        SessionLifecycleState::Created => "Created"@,
        SessionLifecycleState::Planned => "Planned"@,
        SessionLifecycleState::Running => "Running"@,
        SessionLifecycleState::Closing => "Closing"@,
        SessionLifecycleState::Closed => "Closed"@,
        SessionLifecycleState::Failed => "Failed"@,
    }
}

/// Why `assertion` does not hold of `observed`, if it does not.
pub open spec fn assertion_failure(assertion: ScenarioAssertion, observed: ScenarioObservation) -> Option<
    Seq<char>,
> {
    match assertion {
        ScenarioAssertion::FramesWritten { at_least } => if observed.frames_written >= at_least {
            None
        } else {
            Some(
                "expected at least "@ + decimal(at_least as nat) + " written frames, got "@ + decimal(
                    observed.frames_written as nat,
                ),
            )
        },
        ScenarioAssertion::Counter { key, at_least } => {
            let actual = counter_reading(observed.counters@, key@);
            if actual >= at_least {
                None
            } else {
                Some(
                    "expected counter `"@ + key@ + "` >= "@ + decimal(at_least as nat) + ", got "@
                        + decimal(actual as nat),
                )
            }
        },
        ScenarioAssertion::OutputCount { at_least } => if observed.outputs >= at_least {
            None
        } else {
            Some(
                "expected at least "@ + decimal(at_least as nat) + " output commands, got "@ + decimal(
                    observed.outputs as nat,
                ),
            )
        },
        ScenarioAssertion::SessionState { state } => if observed.state == Some(state) {
            None
        } else {
            Some(
                "expected session state "@ + lifecycle_name(state) + ", got "@ + match observed.state {
                    Some(actual) => lifecycle_name(actual),
                    None => "missing"@,
                },
            )
        },
    }
}

fn lifecycle_text(state: SessionLifecycleState) -> (name: &'static str)
    ensures
        name@ == lifecycle_name(state),
{
    match state {
        SessionLifecycleState::Created => "Created",
        SessionLifecycleState::Planned => "Planned",
        SessionLifecycleState::Running => "Running",
        SessionLifecycleState::Closing => "Closing",
        SessionLifecycleState::Closed => "Closed",
        SessionLifecycleState::Failed => "Failed",
    }
}

/// The value of the counter named `key`: its first entry, or zero.
pub fn read_counter(counters: &Vec<(String, u64)>, key: &str) -> (value: u64)
    ensures
        value == counter_reading(counters@, key@),
{
    let mut index: usize = 0;
    assert(counters@.subrange(0, counters@.len() as int) =~= counters@);
    while index < counters.len()
        invariant
            index <= counters@.len(),
            counter_reading(counters@, key@) == counter_reading(counters@.subrange(index as int, counters@.len() as int), key@),
        decreases counters@.len() - index,
    {
        let ghost rest = counters@.subrange(index as int, counters@.len() as int);
        assert(rest.drop_first() =~= counters@.subrange(index + 1, counters@.len() as int));
        assert(rest[0] == counters@[index as int]);
        if str_eq(counters[index].0.as_str(), key) {
            return counters[index].1;
        }
        index = index + 1;
    }
    0
}

/// Check one scenario assertion against what was observed, with the
/// message a failed check reports.
pub fn check_scenario_assertion(assertion: &ScenarioAssertion, observed: &ScenarioObservation) -> (result:
    Result<(), String>)
    ensures
        match assertion_failure(*assertion, *observed) {
            Some(reason) => result matches Err(text) && text@ == reason,
            None => result is Ok,
        },
{
    match assertion {
        ScenarioAssertion::FramesWritten { at_least } => {
            if observed.frames_written >= *at_least {
                return Ok(());
            }
            let mut text = String::from_str("expected at least ");
            push_decimal(&mut text, *at_least as u64);
            text.append(" written frames, got ");
            push_decimal(&mut text, observed.frames_written as u64);
            Err(text)
        },
        ScenarioAssertion::Counter { key, at_least } => {
            let actual = read_counter(&observed.counters, key.as_str());
            if actual >= *at_least {
                return Ok(());
            }
            let mut text = String::from_str("expected counter `");
            text.append(key.as_str());
            text.append("` >= ");
            push_decimal(&mut text, *at_least);
            text.append(", got ");
            push_decimal(&mut text, actual);
            Err(text)
        },
        ScenarioAssertion::OutputCount { at_least } => {
            if observed.outputs >= *at_least {
                return Ok(());
            }
            let mut text = String::from_str("expected at least ");
            push_decimal(&mut text, *at_least as u64);
            text.append(" output commands, got ");
            push_decimal(&mut text, observed.outputs as u64);
            Err(text)
        },
        ScenarioAssertion::SessionState { state } => {
            let matched = match observed.state {
                Some(actual) => actual == *state,
                None => false,
            };
            if matched {
                return Ok(());
            }
            let mut text = String::from_str("expected session state ");
            text.append(lifecycle_text(*state));
            text.append(", got ");
            match observed.state {
                Some(actual) => text.append(lifecycle_text(actual)),
                None => text.append("missing"),
            }
            Err(text)
        },
    }
}

/// How long a scenario keeps polling a failing assertion, in
/// milliseconds.
pub const ASSERT_POLL_TIMEOUT_MS: u64 = 500;

/// How long a scenario waits between two polls of an assertion, in
/// milliseconds.
pub const ASSERT_POLL_INTERVAL_MS: u64 = 5;

/// One step of a runtime scenario.
pub enum ScenarioStep {
    SendInput { frame: ProfileInputFrame },
    InjectReverse { event: BackendReverseEvent },
    SleepMs { millis: u64 },
    CloseSession,
    Check(ScenarioAssertion),
}

/// What a scenario runner does next.
pub enum ScenarioAction {
    /// Carry out step `index` against the session.
    Perform { index: usize },
    /// Observe the session and decide again.
    Observe,
    /// Wait this long, observe again and decide again.
    Wait { millis: u64 },
    /// The assertion held; go on with the next step.
    Advance,
    /// Every step ran and every assertion held.
    Done,
    /// An assertion still failed when polling ran out.
    Fail(String),
}

/// The next action, the step to decide on next, and how long the current
/// assertion has been polled.
pub struct ScenarioDecision {
    pub action: ScenarioAction,
    pub next_index: usize,
    pub waited_ms: u64,
}

/// Decide what a scenario runner does at step `index`, having polled its
/// assertion for `waited_ms` and observed `observed` (if it has observed
/// since): steps other than assertions are carried out in order; an
/// assertion is observed, passes on to the next step when it holds, and is
/// polled at the poll interval until the timeout, when it fails with its
/// message.
pub fn scenario_next(
    steps: &Vec<ScenarioStep>,
    index: usize,
    waited_ms: u64,
    observed: Option<&ScenarioObservation>,
) -> (decision: ScenarioDecision)
    ensures
        index >= steps@.len() ==> decision.action is Done && decision.next_index == index,
        index < steps@.len() && !(steps@[index as int] is Check) ==> {
            &&& decision.action == (ScenarioAction::Perform { index })
            &&& decision.next_index == index + 1
            &&& decision.waited_ms == 0
        },
        index < steps@.len() ==> (steps@[index as int] matches ScenarioStep::Check(assertion) ==> match observed {
            None => decision.action is Observe && decision.next_index == index && decision.waited_ms
                == waited_ms,
            Some(observation) => match assertion_failure(assertion, *observation) {
                None => decision.action is Advance && decision.next_index == index + 1
                    && decision.waited_ms == 0,
                Some(reason) => if waited_ms >= ASSERT_POLL_TIMEOUT_MS {
                    decision.action matches ScenarioAction::Fail(text) && text@ == reason
                        && decision.next_index == index
                } else {
                    &&& decision.action == (ScenarioAction::Wait { millis: ASSERT_POLL_INTERVAL_MS })
                    &&& decision.next_index == index
                    &&& decision.waited_ms == waited_ms + ASSERT_POLL_INTERVAL_MS
                },
            },
        }),
{
    if index >= steps.len() {
        return ScenarioDecision { action: ScenarioAction::Done, next_index: index, waited_ms };
    }
    match &steps[index] {
        ScenarioStep::Check(assertion) => match observed {
            None => ScenarioDecision { action: ScenarioAction::Observe, next_index: index, waited_ms },
            Some(observation) => match check_scenario_assertion(assertion, observation) {
                Ok(()) => ScenarioDecision { action: ScenarioAction::Advance, next_index: index + 1, waited_ms: 0 },
                Err(message) => if waited_ms >= ASSERT_POLL_TIMEOUT_MS {
                    ScenarioDecision { action: ScenarioAction::Fail(message), next_index: index, waited_ms }
                } else {
                    ScenarioDecision {
                        action: ScenarioAction::Wait { millis: ASSERT_POLL_INTERVAL_MS },
                        next_index: index,
                        waited_ms: waited_ms + ASSERT_POLL_INTERVAL_MS,
                    }
                },
            },
        },
        _ => ScenarioDecision { action: ScenarioAction::Perform { index }, next_index: index + 1, waited_ms: 0 },
    }
}

} // verus!
