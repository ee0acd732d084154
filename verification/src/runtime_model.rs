//! Runtime contracts shared by planning, sessions and translators.

use std::collections::BTreeMap;
use vstd::prelude::*;

use crate::reverse_translation::OutputFunction;

verus! {

/// Identifier of a provider implementation.
#[derive(Debug, Clone, PartialEq, Eq, Hash)]
pub struct ProviderId(pub String);

impl ProviderId {
    pub fn new(value: &str) -> (id: Self)
        ensures
            id.0@ == value@,
    {
        ProviderId(value.to_owned())
    }
}

/// Identifier of a profile-specific output function.
#[derive(Debug, Clone, PartialEq, Eq, Hash)]
pub struct ProfileSpecificOutputFunctionId(pub String);

/// Identifier of a profile-specific output payload.
#[derive(Debug, Clone, PartialEq, Eq, Hash)]
pub struct ProfileSpecificOutputPayloadId(pub String);

/// How faithfully a session reproduces the emulated controller.
#[derive(Debug, Clone, Copy, PartialEq, Eq, Hash, Structural)]
pub enum FidelityTier {
    Compatibility,
    IdentityAware,
    HardwareFaithful,
}

/// The host interface level a backend realizes a controller at.
#[derive(Debug, Clone, Copy, PartialEq, Eq, Hash, Structural)]
pub enum BackendLevel {
    Evdev,
    Hid,
    Transport,
}

#[derive(Debug, Clone, Copy, PartialEq, Eq, Hash, Structural)]
pub enum HostPlatform {
    Linux,
    Windows,
    Macos,
}

#[derive(Debug, Clone, Copy, PartialEq, Eq, Hash, Structural)]
pub enum EmulationGoal {
    Compatibility,
    IdentityAware,
    HardwareFaithful,
}

impl EmulationGoal {
    /// The goal of reaching a fidelity tier.
    pub open spec fn spec_from_fidelity(value: FidelityTier) -> EmulationGoal {
        match value {
            FidelityTier::Compatibility => EmulationGoal::Compatibility,
            FidelityTier::IdentityAware => EmulationGoal::IdentityAware,
            FidelityTier::HardwareFaithful => EmulationGoal::HardwareFaithful,
        }
    }

    pub fn from_fidelity(value: FidelityTier) -> (goal: EmulationGoal)
        ensures
            goal == Self::spec_from_fidelity(value),
    {
        match value {
            FidelityTier::Compatibility => EmulationGoal::Compatibility,
            FidelityTier::IdentityAware => EmulationGoal::IdentityAware,
            FidelityTier::HardwareFaithful => EmulationGoal::HardwareFaithful,
        }
    }
}

#[derive(Debug, Clone, Copy, PartialEq, Eq, Hash, Structural)]
pub enum TranslatorFamily {
    Unresolved,
    GenericGamepad,
    XboxStyle,
    DualSense,
    SteamController,
}

#[derive(Debug, Clone, PartialEq, Eq, Default)]
pub struct SessionHostMetadata {
    pub host_name: Option<String>,
    pub host_version: Option<String>,
    pub tags: BTreeMap<String, String>,
}

#[derive(Debug, Clone, PartialEq, Eq)]
pub enum ReverseEventDeliveryPolicy {
    Callback { callback_namespace: String },
    Channel { state_field_prefix: Option<String> },
    LogOnly,
    PassThroughToPhysicalDevice,
    Ignore,
}

#[derive(Debug, Clone, PartialEq, Eq, Structural)]
pub enum BackpressurePolicy {
    DropNewest { log_dropped_outputs: bool, max_queue_depth: Option<u32> },
    DropOldest { log_dropped_outputs: bool, max_queue_depth: Option<u32> },
    BlockProducer { log_dropped_outputs: bool, max_queue_depth: Option<u32> },
}

#[derive(Debug, Clone, PartialEq, Eq)]
pub struct SessionOptionsSnapshot {
    pub accepted_update_kinds: Vec<String>,
    pub unknown_field_policy: String,
    pub range_validation_policy: String,
    pub coerce_integer_like_values: bool,
    pub allow_missing_optional_fields: bool,
    pub require_monotonic_sequence: bool,
    pub preferred_provider: Option<ProviderId>,
    pub reject_unsupported_provider_preference: bool,
    pub unsupported_capability_policy: String,
    pub delivery_policy: ReverseEventDeliveryPolicy,
    pub backpressure_policy: BackpressurePolicy,
}

#[derive(Debug, Clone, PartialEq, Eq, Default)]
pub struct CapabilityNegotiationResult {
    pub enabled_capabilities: Vec<String>,
    pub unsupported_capabilities: Vec<String>,
}

#[derive(Debug, Clone, PartialEq, Eq)]
pub struct PlannerWarning {
    pub code: String,
    pub message: String,
}

#[derive(Debug, Clone, PartialEq, Eq, Default)]
pub struct DeploymentRequirements {
    pub requirements: Vec<String>,
}

#[derive(Debug, Clone, PartialEq, Eq, Default)]
pub struct TranslationConstants {
    pub values: BTreeMap<String, String>,
}

#[derive(Debug, Clone, Copy, PartialEq, Eq, Structural)]
pub enum OutputCommandType {
    StateUpdate,
    Notification,
    FeatureRequest,
}

#[derive(Debug, Clone, PartialEq, Eq, Structural)]
pub struct RumblePayload {
    pub strong: u16,
    pub weak: u16,
}

#[derive(Debug, Clone, PartialEq, Eq, Structural)]
pub struct LightingPayload {
    pub red: Option<u8>,
    pub green: Option<u8>,
    pub blue: Option<u8>,
    pub player_index: Option<u8>,
}

#[derive(Debug, Clone, PartialEq, Eq)]
pub struct TriggerEffectPayload {
    pub mode: String,
    pub parameters: BTreeMap<String, String>,
}

#[derive(Debug, Clone, PartialEq, Eq)]
pub struct AudioCommand {
    pub action: String,
    pub target: Option<String>,
}

#[derive(Debug, Clone, PartialEq, Eq)]
pub struct FeatureRequestPayload {
    pub request: String,
}

#[derive(Debug, Clone, PartialEq, Eq)]
pub struct ProfileSpecificOutputPayload {
    pub payload_id: ProfileSpecificOutputPayloadId,
    pub fields: BTreeMap<String, String>,
}

#[derive(Debug, Clone, PartialEq, Eq)]
#[non_exhaustive]
pub enum OutputPayload {
    Rumble(RumblePayload),
    Lighting(LightingPayload),
    TriggerEffect(TriggerEffectPayload),
    Audio(AudioCommand),
    FeatureRequest(FeatureRequestPayload),
    ProfileSpecific(ProfileSpecificOutputPayload),
}

#[derive(Debug, Clone, Copy, PartialEq, Eq, Structural)]
pub enum SessionLifecycleState {
    Created,
    Planned,
    Running,
    Closing,
    Closed,
    Failed,
}

/// A session's lifecycle state, with the warnings its backend last
/// reported.
#[derive(Debug, Clone, PartialEq, Eq)]
pub struct SessionStatusSnapshot {
    pub state: SessionLifecycleState,
    pub session_id: Option<u64>,
    pub profile_id: Option<String>,
    pub warnings: Vec<String>,
}

/// A session's last error and diagnostics counters, each counter as its
/// name and value.
#[derive(Debug, Clone, PartialEq, Eq)]
pub struct SessionDiagnosticsSnapshot {
    pub session_id: Option<u64>,
    pub last_error: Option<String>,
    pub counters: Vec<(String, u64)>,
}

/// The host-side backend family a session is realized through.
#[derive(Debug, Clone, Copy, PartialEq, Eq, Hash, Structural)]
pub enum BackendFamily {
    LinuxUinput,
    LinuxUhid,
    LinuxTransportUsb,
    LinuxTransportBluetooth,
    WindowsHid,
    MacosHid,
}

/// A request to create a session.
#[derive(Debug, Clone, PartialEq, Eq)]
pub struct SessionRequest {
    pub session_id: u64,
    pub profile_id: String,
    pub goal: EmulationGoal,
    pub requested_fidelity_tier: FidelityTier,
    pub host_platform_preference: Option<HostPlatform>,
    pub backend_preference: Option<BackendLevel>,
    pub provider_preference: Option<ProviderId>,
    pub host_metadata: SessionHostMetadata,
}

/// Whether, and why, a plan was downgraded from the requested tier.
#[derive(Debug, Clone, PartialEq, Eq, Default)]
pub struct DegradationReport {
    pub degraded: bool,
    pub reasons: Vec<DegradationReason>,
}

/// Why a plan was downgraded from the requested fidelity tier.
#[derive(Debug, Clone, PartialEq, Eq)]
#[non_exhaustive]
pub enum DegradationReason {
    TransportNotRealizable {
        requested_backend_level: BackendLevel,
        available_backend_levels: Vec<BackendLevel>,
        available_backends: Vec<String>,
        reason: String,
    },
    ReversePathUnavailable,
    BackendDoesNotSupportFidelity { requested: FidelityTier, available: FidelityTier },
    ProviderHintIgnored { preferred: ProviderId, reason: String },
    BackendLevelHintIgnored { preferred: BackendLevel, reason: String },
    UnsupportedOutputCapability { function: OutputFunction, reason: String },
}

/// What a backend factory needs to realize a planned session.
#[derive(Debug, Clone, PartialEq, Eq)]
pub struct BackendOpenContext {
    pub session_id: u64,
    pub profile_id: String,
    pub fidelity_tier: FidelityTier,
    pub backend_level: BackendLevel,
    pub host_platform: HostPlatform,
}

/// The planner's answer to a session request: the backend, level and
/// translator selected, and the options the session runs with.
#[derive(Debug, Clone, PartialEq, Eq)]
pub struct SessionPlan {
    pub session_id: u64,
    pub profile_id: String,
    pub requested_goal: EmulationGoal,
    pub requested_fidelity_tier: FidelityTier,
    pub selected_level: BackendLevel,
    pub target_host_platform: HostPlatform,
    pub selected_backend_family: BackendFamily,
    pub selected_provider_id: ProviderId,
    pub selected_translator_family: TranslatorFamily,
    pub capability_result: CapabilityNegotiationResult,
    pub degradation: DegradationReport,
    pub warnings: Vec<PlannerWarning>,
    pub deployment_requirements: DeploymentRequirements,
    pub backend_open_context: BackendOpenContext,
    pub session_options: SessionOptionsSnapshot,
}

/// The planner's refusal of a request no backend can realize.
#[derive(Debug, Clone, PartialEq, Eq)]
pub struct PlanRejection {
    pub profile_id: String,
    pub requested_goal: EmulationGoal,
    pub requested_fidelity_tier: FidelityTier,
    pub reasons: Vec<PlanRejectionReason>,
    pub considered_backends: Vec<String>,
}

/// Why a request was refused.
#[derive(Debug, Clone, PartialEq, Eq)]
#[non_exhaustive]
pub enum PlanRejectionReason {
    NoBackendSupportsProfile {
        requested_backend_level: BackendLevel,
        available_backends: Vec<String>,
        reason: String,
    },
    NoBackendSupportsFidelity { requested: FidelityTier },
    NoBackendSupportsHost { requested: HostPlatform },
    BidirectionalSupportRequired { missing: Vec<OutputFunction> },
}

/// The descriptor a translation context was prepared with: its tier and
/// length.
#[derive(Debug, Clone, Copy, PartialEq, Eq, Structural)]
pub struct DescriptorTemplateSummary {
    pub fidelity: Option<FidelityTier>,
    pub descriptor_len: Option<usize>,
}

/// What a session's translators are prepared with.
#[derive(Debug, Clone, PartialEq, Eq)]
pub struct PreparedTranslationContext {
    pub session_id: Option<u64>,
    pub profile_family: Option<String>,
    pub host_platform: Option<HostPlatform>,
    pub backend_family: Option<BackendFamily>,
    pub provider_id: Option<ProviderId>,
    pub level: Option<BackendLevel>,
    pub session_options: Option<SessionOptionsSnapshot>,
    pub descriptor_template: Option<DescriptorTemplateSummary>,
    pub translation_constants: TranslationConstants,
}

/// An output function, semantic or named by the profile.
#[derive(Debug, Clone, PartialEq, Eq)]
#[non_exhaustive]
pub enum OutputFunctionRef {
    Semantic(OutputFunction),
    ProfileSpecific(ProfileSpecificOutputFunctionId),
}

/// A command the host sends a virtual controller's outputs.
#[derive(Debug, Clone, PartialEq, Eq)]
pub struct ControllerOutputCommand {
    pub session_id: u64,
    pub profile_id: String,
    pub timestamp: u64,
    pub command_type: OutputCommandType,
    pub function: OutputFunctionRef,
    pub payload: OutputPayload,
}

} // verus!
