//! Session option policies and their compilation from a validated
//! session configuration.

use vstd::prelude::*;

use crate::runtime_model::{BackpressurePolicy, HostPlatform, ProviderId, ReverseEventDeliveryPolicy};

verus! {

#[derive(Debug, Clone, PartialEq, Eq)]
pub struct ProviderHints {
    pub host_platform_preference: Option<HostPlatform>,
    pub preferred_provider: Option<ProviderId>,
    pub reject_unsupported_provider_preference: bool,
}

/// A kind of input update a session may accept.
#[derive(Debug, Clone, Copy, PartialEq, Eq, Structural)]
pub enum AcceptedUpdateKind {
    Frame,
    Delta,
}

#[derive(Debug, Clone, Copy, PartialEq, Eq, Structural)]
pub enum UnknownFieldPolicy {
    Reject,
    Warn,
}

#[derive(Debug, Clone, Copy, PartialEq, Eq, Structural)]
pub enum RangeValidationPolicy {
    Reject,
    Allow,
}

#[derive(Debug, Clone, Copy, PartialEq, Eq, Structural)]
pub enum CompileError {
    EmptyAcceptedUpdateKinds,
}

impl CompileError {
    /// The error's human-readable message.
    pub fn message(&self) -> (text: &'static str)
        ensures
            text@ == "acceptedUpdateKinds must not be empty"@,
    {
        "acceptedUpdateKinds must not be empty"
    }
}

/// A host platform a configuration may prefer.
#[derive(Debug, Clone, Copy, PartialEq, Eq, Structural)]
pub enum HostPlatformPreference {
    Linux,
    Windows,
    Macos,
}

/// How a session hands host output events to the application.
#[derive(Debug, Clone, Copy, PartialEq, Eq, Structural)]
pub enum OutputHandlingMode {
    Callback,
    Channel,
    LogOnly,
    PassThroughToPhysicalDevice,
    Ignore,
}

/// What a full output queue does, as configured.
#[derive(Debug, Clone, Copy, PartialEq, Eq, Structural)]
pub enum ConfigBackpressurePolicy {
    DropNewest,
    DropOldest,
    BlockProducer,
}

/// The `session` section of a configuration, as far as options read it.
#[derive(Debug, Clone, PartialEq, Eq)]
pub struct SessionSection {
    pub host_platform_preference: Option<HostPlatformPreference>,
    pub provider_preference: Option<String>,
}

/// The `input` section of a configuration.
#[derive(Debug, Clone, PartialEq, Eq)]
pub struct InputSection {
    pub accepted_update_kinds: Vec<AcceptedUpdateKind>,
    pub reject_unknown_fields: bool,
    pub reject_out_of_range_values: bool,
    pub coerce_integer_like_values: bool,
    pub allow_missing_optional_fields: bool,
    pub require_monotonic_sequence: bool,
}

/// The `output_handling` section of a configuration.
#[derive(Debug, Clone, PartialEq, Eq)]
pub struct OutputHandlingSection {
    pub mode: OutputHandlingMode,
    pub callback_namespace: Option<String>,
    pub state_field_prefix: Option<String>,
    pub backpressure_policy: ConfigBackpressurePolicy,
    pub log_dropped_outputs: bool,
    pub max_queue_depth: Option<u32>,
}

/// The `validation` section of a configuration, as far as options read it.
#[derive(Debug, Clone, PartialEq, Eq)]
pub struct ValidationSection {
    pub reject_unsupported_provider_preference: bool,
}

/// A validated session configuration.
#[derive(Debug, Clone, PartialEq, Eq)]
pub struct SessionConfig {
    pub session: SessionSection,
    pub input: InputSection,
    pub output_handling: OutputHandlingSection,
    pub validation: ValidationSection,
}

/// How a session validates its input.
#[derive(Debug, Clone, PartialEq, Eq)]
pub struct InputValidationPolicy {
    pub accepted_update_kinds: Vec<AcceptedUpdateKind>,
    pub unknown_field_policy: UnknownFieldPolicy,
    pub range_validation_policy: RangeValidationPolicy,
    pub coerce_integer_like_values: bool,
    pub allow_missing_optional_fields: bool,
    pub require_monotonic_sequence: bool,
}

/// Immutable runtime options of one session.
#[derive(Debug, Clone, PartialEq, Eq)]
pub struct CompiledSessionOptions {
    pub input_validation_policy: InputValidationPolicy,
    pub provider_hints: ProviderHints,
    pub delivery_policy: ReverseEventDeliveryPolicy,
    pub backpressure_policy: BackpressurePolicy,
}

pub open spec fn spec_host_platform(value: HostPlatformPreference) -> HostPlatform {
    match value {
        HostPlatformPreference::Linux => HostPlatform::Linux,
        HostPlatformPreference::Windows => HostPlatform::Windows,
        HostPlatformPreference::Macos => HostPlatform::Macos,
    }
}

fn host_platform_from_config(value: HostPlatformPreference) -> (platform: HostPlatform)
    ensures
        platform == spec_host_platform(value),
{
    match value {
        HostPlatformPreference::Linux => HostPlatform::Linux,
        HostPlatformPreference::Windows => HostPlatform::Windows,
        HostPlatformPreference::Macos => HostPlatform::Macos,
    }
}

/// Two optional strings hold the same text.
pub open spec fn same_text(a: Option<String>, b: Option<String>) -> bool {
    match (a, b) {
        (Some(x), Some(y)) => x@ == y@,
        (None, None) => true,
        _ => false,
    }
}

fn clone_text(value: &Option<String>) -> (copy: Option<String>)
    ensures
        same_text(copy, *value),
{
    match value {
        Some(text) => Some(text.clone()),
        None => None,
    }
}

/// The delivery policy a configuration's output handling compiles to: a
/// callback without a namespace uses `virtualGamepad`.
pub open spec fn delivery_policy_ok(section: OutputHandlingSection, policy: ReverseEventDeliveryPolicy) -> bool {
    match section.mode {
        OutputHandlingMode::Callback => {
            &&& policy matches ReverseEventDeliveryPolicy::Callback { callback_namespace }
            &&& callback_namespace@ == match section.callback_namespace {
                Some(namespace) => namespace@,
                None => "virtualGamepad"@,
            }
        },
        OutputHandlingMode::Channel => {
            &&& policy matches ReverseEventDeliveryPolicy::Channel { state_field_prefix }
            &&& same_text(state_field_prefix, section.state_field_prefix)
        },
        OutputHandlingMode::LogOnly => policy == ReverseEventDeliveryPolicy::LogOnly,
        OutputHandlingMode::PassThroughToPhysicalDevice => policy
            == ReverseEventDeliveryPolicy::PassThroughToPhysicalDevice,
        OutputHandlingMode::Ignore => policy == ReverseEventDeliveryPolicy::Ignore,
    }
}

fn delivery_policy_from_config(section: &OutputHandlingSection) -> (policy:
    ReverseEventDeliveryPolicy)
    ensures
        delivery_policy_ok(*section, policy),
{
    match section.mode {
        OutputHandlingMode::Callback => ReverseEventDeliveryPolicy::Callback {
            callback_namespace: match &section.callback_namespace {
                Some(namespace) => namespace.clone(),
                None => String::from_str("virtualGamepad"),
            },
        },
        OutputHandlingMode::Channel => ReverseEventDeliveryPolicy::Channel {
            state_field_prefix: clone_text(&section.state_field_prefix),
        },
        OutputHandlingMode::LogOnly => ReverseEventDeliveryPolicy::LogOnly,
        OutputHandlingMode::PassThroughToPhysicalDevice =>
            ReverseEventDeliveryPolicy::PassThroughToPhysicalDevice,
        OutputHandlingMode::Ignore => ReverseEventDeliveryPolicy::Ignore,
    }
}

/// The backpressure policy a configuration's output handling compiles to.
pub open spec fn spec_backpressure_policy(section: OutputHandlingSection) -> BackpressurePolicy {
    let log_dropped_outputs = section.log_dropped_outputs;
    let max_queue_depth = section.max_queue_depth;
    match section.backpressure_policy {
        ConfigBackpressurePolicy::DropNewest => BackpressurePolicy::DropNewest {
            log_dropped_outputs,
            max_queue_depth,
        },
        ConfigBackpressurePolicy::DropOldest => BackpressurePolicy::DropOldest {
            log_dropped_outputs,
            max_queue_depth,
        },
        ConfigBackpressurePolicy::BlockProducer => BackpressurePolicy::BlockProducer {
            log_dropped_outputs,
            max_queue_depth,
        },
    }
}

fn backpressure_policy_from_config(section: &OutputHandlingSection) -> (policy: BackpressurePolicy)
    ensures
        policy == spec_backpressure_policy(*section),
{
    let log_dropped_outputs = section.log_dropped_outputs;
    let max_queue_depth = section.max_queue_depth;
    match section.backpressure_policy {
        ConfigBackpressurePolicy::DropNewest => BackpressurePolicy::DropNewest {
            log_dropped_outputs,
            max_queue_depth,
        },
        ConfigBackpressurePolicy::DropOldest => BackpressurePolicy::DropOldest {
            log_dropped_outputs,
            max_queue_depth,
        },
        ConfigBackpressurePolicy::BlockProducer => BackpressurePolicy::BlockProducer {
            log_dropped_outputs,
            max_queue_depth,
        },
    }
}

pub fn copy_kinds(kinds: &Vec<AcceptedUpdateKind>) -> (copy: Vec<AcceptedUpdateKind>)
    ensures
        copy@ == kinds@,
{
    let mut copy: Vec<AcceptedUpdateKind> = Vec::new();
    let mut index: usize = 0;
    while index < kinds.len()
        invariant
            0 <= index <= kinds@.len(),
            copy@ == kinds@.subrange(0, index as int),
        decreases kinds@.len() - index,
    {
        copy.push(kinds[index]);
        assert(kinds@.subrange(0, index as int + 1) =~= kinds@.subrange(0, index as int).push(
            kinds@[index as int],
        ));
        index = index + 1;
    }
    assert(kinds@.subrange(0, kinds@.len() as int) =~= kinds@);
    copy
}

/// The options compile exactly from the configuration: the accepted
/// update kinds and input flags copied, the rejection flags turned into
/// policies, the provider preference into a provider ID, and the output
/// handling into delivery and backpressure policies.
pub open spec fn compiled_from(config: SessionConfig, options: CompiledSessionOptions) -> bool {
    let input = config.input;
    let policy = options.input_validation_policy;
    let hints = options.provider_hints;
    &&& policy.accepted_update_kinds@ == input.accepted_update_kinds@
    &&& policy.unknown_field_policy == (if input.reject_unknown_fields {
        UnknownFieldPolicy::Reject
    } else {
        UnknownFieldPolicy::Warn
    })
    &&& policy.range_validation_policy == (if input.reject_out_of_range_values {
        RangeValidationPolicy::Reject
    } else {
        RangeValidationPolicy::Allow
    })
    &&& policy.coerce_integer_like_values == input.coerce_integer_like_values
    &&& policy.allow_missing_optional_fields == input.allow_missing_optional_fields
    &&& policy.require_monotonic_sequence == input.require_monotonic_sequence
    &&& hints.host_platform_preference == match config.session.host_platform_preference {
        Some(preference) => Some(spec_host_platform(preference)),
        None => None,
    }
    &&& match (hints.preferred_provider, config.session.provider_preference) {
        (Some(id), Some(preference)) => id.0@ == preference@,
        (None, None) => true,
        _ => false,
    }
    &&& hints.reject_unsupported_provider_preference
        == config.validation.reject_unsupported_provider_preference
    &&& delivery_policy_ok(config.output_handling, options.delivery_policy)
    &&& options.backpressure_policy == spec_backpressure_policy(config.output_handling)
}

/// Compile a validated configuration into immutable session options; a
/// configuration that accepts no update kind is refused.
pub fn compile_session_options(config: &SessionConfig) -> (result: Result<
    CompiledSessionOptions,
    CompileError,
>)
    ensures
        config.input.accepted_update_kinds@.len() == 0 ==> result == Err::<
            CompiledSessionOptions,
            CompileError,
        >(CompileError::EmptyAcceptedUpdateKinds),
        config.input.accepted_update_kinds@.len() > 0 ==> (result matches Ok(options)
            && compiled_from(*config, options)),
{
    if config.input.accepted_update_kinds.len() == 0 {
        return Err(CompileError::EmptyAcceptedUpdateKinds);
    }
    let input = &config.input;
    let host_platform_preference = match config.session.host_platform_preference {
        Some(preference) => Some(host_platform_from_config(preference)),
        None => None,
    };
    let preferred_provider = match &config.session.provider_preference {
        Some(preference) => Some(ProviderId::new(preference.as_str())),
        None => None,
    };
    Ok(
        CompiledSessionOptions {
            input_validation_policy: InputValidationPolicy {
                accepted_update_kinds: copy_kinds(&input.accepted_update_kinds),
                unknown_field_policy: if input.reject_unknown_fields {
                    UnknownFieldPolicy::Reject
                } else {
                    UnknownFieldPolicy::Warn
                },
                range_validation_policy: if input.reject_out_of_range_values {
                    RangeValidationPolicy::Reject
                } else {
                    RangeValidationPolicy::Allow
                },
                coerce_integer_like_values: input.coerce_integer_like_values,
                allow_missing_optional_fields: input.allow_missing_optional_fields,
                require_monotonic_sequence: input.require_monotonic_sequence,
            },
            provider_hints: ProviderHints {
                host_platform_preference,
                preferred_provider,
                reject_unsupported_provider_preference:
                    config.validation.reject_unsupported_provider_preference,
            },
            delivery_policy: delivery_policy_from_config(&config.output_handling),
            backpressure_policy: backpressure_policy_from_config(&config.output_handling),
        },
    )
}

/// A copy of a backpressure policy.
pub fn copy_backpressure_policy(policy: &BackpressurePolicy) -> (copy: BackpressurePolicy)
    ensures
        copy == *policy,
{
    match policy {
        BackpressurePolicy::DropNewest { log_dropped_outputs, max_queue_depth } =>
            BackpressurePolicy::DropNewest {
                log_dropped_outputs: *log_dropped_outputs,
                max_queue_depth: *max_queue_depth,
            },
        BackpressurePolicy::DropOldest { log_dropped_outputs, max_queue_depth } =>
            BackpressurePolicy::DropOldest {
                log_dropped_outputs: *log_dropped_outputs,
                max_queue_depth: *max_queue_depth,
            },
        BackpressurePolicy::BlockProducer { log_dropped_outputs, max_queue_depth } =>
            BackpressurePolicy::BlockProducer {
                log_dropped_outputs: *log_dropped_outputs,
                max_queue_depth: *max_queue_depth,
            },
    }
}

/// The options sessions run with unless configured otherwise: frames and
/// deltas accepted, unknown fields and out-of-range values rejected,
/// missing optional fields allowed, sequence order not enforced, no
/// provider preferred (an unsupported preference rejected), commands
/// delivered to callbacks under `virtualGamepad`, and the oldest of at most
/// eight queued commands dropped, with drops logged.
pub fn default_session_options() -> (options: CompiledSessionOptions)
    ensures
        options.input_validation_policy.accepted_update_kinds@ == seq![
            AcceptedUpdateKind::Frame,
            AcceptedUpdateKind::Delta,
        ],
        options.input_validation_policy.unknown_field_policy == UnknownFieldPolicy::Reject,
        options.input_validation_policy.range_validation_policy == RangeValidationPolicy::Reject,
        !options.input_validation_policy.coerce_integer_like_values,
        options.input_validation_policy.allow_missing_optional_fields,
        !options.input_validation_policy.require_monotonic_sequence,
        options.provider_hints.host_platform_preference is None,
        options.provider_hints.preferred_provider is None,
        options.provider_hints.reject_unsupported_provider_preference,
        options.delivery_policy matches ReverseEventDeliveryPolicy::Callback { callback_namespace }
            && callback_namespace@ == "virtualGamepad"@,
        options.backpressure_policy == (BackpressurePolicy::DropOldest {
            log_dropped_outputs: true,
            max_queue_depth: Some(8),
        }),
{
    let mut accepted_update_kinds: Vec<AcceptedUpdateKind> = Vec::new();
    accepted_update_kinds.push(AcceptedUpdateKind::Frame);
    accepted_update_kinds.push(AcceptedUpdateKind::Delta);
    assert(accepted_update_kinds@ =~= seq![AcceptedUpdateKind::Frame, AcceptedUpdateKind::Delta]);
    CompiledSessionOptions {
        input_validation_policy: InputValidationPolicy {
            accepted_update_kinds,
            unknown_field_policy: UnknownFieldPolicy::Reject,
            range_validation_policy: RangeValidationPolicy::Reject,
            coerce_integer_like_values: false,
            allow_missing_optional_fields: true,
            require_monotonic_sequence: false,
        },
        provider_hints: ProviderHints {
            host_platform_preference: None,
            preferred_provider: None,
            reject_unsupported_provider_preference: true,
        },
        delivery_policy: ReverseEventDeliveryPolicy::Callback {
            callback_namespace: String::from_str("virtualGamepad"),
        },
        backpressure_policy: BackpressurePolicy::DropOldest {
            log_dropped_outputs: true,
            max_queue_depth: Some(8),
        },
    }
}

} // verus!
