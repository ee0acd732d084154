//! Transport enumeration state machine and canned-trace replay.
//!
//! A USB transport is enumerated in a fixed order: connect, read the
//! descriptor, configure the endpoints, then signal readiness. Only a ready
//! transport carries input and reverse packets, and any enumerated stage may
//! disconnect. Replaying a canned trace checks it against this machine.

use vstd::prelude::*;

use crate::text::{decimal, hex_padded, push_decimal, push_hex_padded};

verus! {

#[derive(Debug, Clone, Copy, PartialEq, Eq, Structural)]
pub enum TransportTraceBus {
    Usb,
    Bluetooth,
}

impl TransportTraceBus {
    pub open spec fn spec_label(self) -> Seq<char> {
        match self {
            TransportTraceBus::Usb => "usb"@,
            TransportTraceBus::Bluetooth => "bluetooth"@,
        }
    }

    /// The bus's kebab-case name.
    pub fn label(self) -> (text: &'static str)
        ensures
            text@ == self.spec_label(),
    {
        match self {
            TransportTraceBus::Usb => "usb",
            TransportTraceBus::Bluetooth => "bluetooth",
        }
    }
}

#[derive(Debug, Clone, Copy, PartialEq, Eq, Structural)]
pub enum TransportTraceState {
    Idle,
    Connected,
    DescriptorRead,
    EndpointsConfigured,
    Ready,
    Disconnected,
}

impl TransportTraceState {
    pub open spec fn spec_label(self) -> Seq<char> {
        match self {
            TransportTraceState::Idle => "idle"@,
            TransportTraceState::Connected => "connected"@,
            TransportTraceState::DescriptorRead => "descriptor-read"@,
            TransportTraceState::EndpointsConfigured => "endpoints-configured"@,
            TransportTraceState::Ready => "ready"@,
            TransportTraceState::Disconnected => "disconnected"@,
        }
    }

    /// The state's kebab-case name.
    pub fn label(self) -> (text: &'static str)
        ensures
            text@ == self.spec_label(),
    {
        match self {
            TransportTraceState::Idle => "idle",
            TransportTraceState::Connected => "connected",
            TransportTraceState::DescriptorRead => "descriptor-read",
            TransportTraceState::EndpointsConfigured => "endpoints-configured",
            TransportTraceState::Ready => "ready",
            TransportTraceState::Disconnected => "disconnected",
        }
    }
}

#[derive(Debug, Clone, Copy, PartialEq, Eq, Structural)]
pub enum TransportControlStep {
    Connect,
    ReadDescriptor,
    ConfigureEndpoints,
    ReadySignal,
    InputPacket,
    ReversePacket,
    Disconnect,
}

impl TransportControlStep {
    pub open spec fn spec_label(self) -> Seq<char> {
        match self {
            TransportControlStep::Connect => "connect"@,
            TransportControlStep::ReadDescriptor => "read-descriptor"@,
            TransportControlStep::ConfigureEndpoints => "configure-endpoints"@,
            TransportControlStep::ReadySignal => "ready-signal"@,
            TransportControlStep::InputPacket => "input-packet"@,
            TransportControlStep::ReversePacket => "reverse-packet"@,
            TransportControlStep::Disconnect => "disconnect"@,
        }
    }

    /// The step's kebab-case name.
    pub fn label(self) -> (text: &'static str)
        ensures
            text@ == self.spec_label(),
    {
        match self {
            TransportControlStep::Connect => "connect",
            TransportControlStep::ReadDescriptor => "read-descriptor",
            TransportControlStep::ConfigureEndpoints => "configure-endpoints",
            TransportControlStep::ReadySignal => "ready-signal",
            TransportControlStep::InputPacket => "input-packet",
            TransportControlStep::ReversePacket => "reverse-packet",
            TransportControlStep::Disconnect => "disconnect",
        }
    }
}

#[derive(Debug, Clone, PartialEq, Eq)]
pub struct TransportTraceStep {
    pub step: TransportControlStep,
    pub endpoint_id: Option<u8>,
    pub bytes: Vec<u8>,
}

#[derive(Debug, Clone, Copy, PartialEq, Eq, Structural)]
pub struct TransportEndpoints {
    pub input: u8,
    pub reverse: u8,
}

#[derive(Debug, Clone, PartialEq, Eq, Structural)]
pub struct TransportReplaySummary {
    pub final_state: TransportTraceState,
    pub consumed_steps: usize,
}

#[derive(Debug, Clone, PartialEq, Eq, Structural)]
pub enum TransportReplayError {
    InvalidEndpoint { step_index: usize, step: TransportControlStep, expected: u8, actual: u8 },
    MissingTransition {
        step_index: usize,
        step: TransportControlStep,
        current_state: TransportTraceState,
        required_step: TransportControlStep,
    },
    UnexpectedFinalState { expected: TransportTraceState, actual: TransportTraceState },
}

impl TransportReplayError {
    pub open spec fn spec_message(&self) -> Seq<char> {
        match self {
            TransportReplayError::InvalidEndpoint { step_index, step, expected, actual } =>
                "transport trace step "@ + decimal(*step_index as nat) + " `"@ + step.spec_label()
                + "` targeted endpoint 0x"@ + hex_padded(*actual as nat, 2) + ", expected 0x"@
                + hex_padded(*expected as nat, 2),
            TransportReplayError::MissingTransition {
                step_index,
                step,
                current_state,
                required_step,
            } => "transport trace step "@ + decimal(*step_index as nat) + " `"@ + step.spec_label()
                + "` requires `"@ + required_step.spec_label() + "` before it; current state is `"@
                + current_state.spec_label() + "`"@,
            TransportReplayError::UnexpectedFinalState { expected, actual } =>
                "transport trace finished in `"@ + actual.spec_label() + "` but fixture expected `"@
                + expected.spec_label() + "`"@,
        }
    }

    /// The error's human-readable message.
    pub fn message(&self) -> (text: String)
        ensures
            text@ == self.spec_message(),
    {
        match self {
            TransportReplayError::InvalidEndpoint { step_index, step, expected, actual } => {
                let mut text = String::from_str("transport trace step ");
                push_decimal(&mut text, *step_index as u64);
                text.append(" `");
                text.append(step.label());
                text.append("` targeted endpoint 0x");
                push_hex_padded(&mut text, *actual as u64, 2);
                text.append(", expected 0x");
                push_hex_padded(&mut text, *expected as u64, 2);
                text
            },
            TransportReplayError::MissingTransition {
                step_index,
                step,
                current_state,
                required_step,
            } => {
                let mut text = String::from_str("transport trace step ");
                push_decimal(&mut text, *step_index as u64);
                text.append(" `");
                text.append(step.label());
                text.append("` requires `");
                text.append(required_step.label());
                text.append("` before it; current state is `");
                text.append(current_state.label());
                text.append("`");
                text
            },
            TransportReplayError::UnexpectedFinalState { expected, actual } => {
                let mut text = String::from_str("transport trace finished in `");
                text.append(actual.label());
                text.append("` but fixture expected `");
                text.append(expected.label());
                text.append("`");
                text
            },
        }
    }
}

/// The state the machine moves to when `step` happens in `state`, or `None`
/// when the machine does not accept `step` there.
pub open spec fn spec_transition(state: TransportTraceState, step: TransportControlStep) -> Option<
    TransportTraceState,
> {
    match (state, step) {
        (TransportTraceState::Idle, TransportControlStep::Connect) => Some(
            TransportTraceState::Connected,
        ),
        (TransportTraceState::Connected, TransportControlStep::ReadDescriptor) => Some(
            TransportTraceState::DescriptorRead,
        ),
        (TransportTraceState::DescriptorRead, TransportControlStep::ConfigureEndpoints) => Some(
            TransportTraceState::EndpointsConfigured,
        ),
        (TransportTraceState::EndpointsConfigured, TransportControlStep::ReadySignal) => Some(
            TransportTraceState::Ready,
        ),
        (TransportTraceState::Ready, TransportControlStep::InputPacket) => Some(
            TransportTraceState::Ready,
        ),
        (TransportTraceState::Ready, TransportControlStep::ReversePacket) => Some(
            TransportTraceState::Ready,
        ),
        (TransportTraceState::Connected, TransportControlStep::Disconnect) => Some(
            TransportTraceState::Disconnected,
        ),
        (TransportTraceState::DescriptorRead, TransportControlStep::Disconnect) => Some(
            TransportTraceState::Disconnected,
        ),
        (TransportTraceState::EndpointsConfigured, TransportControlStep::Disconnect) => Some(
            TransportTraceState::Disconnected,
        ),
        (TransportTraceState::Ready, TransportControlStep::Disconnect) => Some(
            TransportTraceState::Disconnected,
        ),
        _ => None,
    }
}

/// The step that must immediately precede `step` for the machine to accept
/// it.
pub open spec fn spec_required_previous_step(step: TransportControlStep) -> TransportControlStep {
    match step {
        TransportControlStep::Connect => TransportControlStep::Connect,
        TransportControlStep::ReadDescriptor => TransportControlStep::Connect,
        TransportControlStep::Disconnect => TransportControlStep::Connect,
        TransportControlStep::ConfigureEndpoints => TransportControlStep::ReadDescriptor,
        TransportControlStep::ReadySignal => TransportControlStep::ConfigureEndpoints,
        TransportControlStep::InputPacket => TransportControlStep::ReadySignal,
        TransportControlStep::ReversePacket => TransportControlStep::ReadySignal,
    }
}

/// The endpoint that `step` must name when endpoints are pinned, if any.
pub open spec fn spec_expected_endpoint(
    endpoints: TransportEndpoints,
    step: TransportControlStep,
) -> Option<u8> {
    match step {
        TransportControlStep::InputPacket => Some(endpoints.input),
        TransportControlStep::ReversePacket => Some(endpoints.reverse),
        _ => None,
    }
}

/// The outcome of the step at 1-based position `step_index` when the
/// machine is in `state`: the endpoint check comes first, then the
/// transition.
pub open spec fn spec_replay_step(
    endpoints: Option<TransportEndpoints>,
    state: TransportTraceState,
    step: TransportTraceStep,
    step_index: int,
) -> Result<TransportTraceState, TransportReplayError> {
    if endpoints is Some && step.endpoint_id is Some && spec_expected_endpoint(
        endpoints->0,
        step.step,
    ) is Some && step.endpoint_id->0 != spec_expected_endpoint(endpoints->0, step.step)->0 {
        Err(
            TransportReplayError::InvalidEndpoint {
                step_index: step_index as usize,
                step: step.step,
                expected: spec_expected_endpoint(endpoints->0, step.step)->0,
                actual: step.endpoint_id->0,
            },
        )
    } else {
        match spec_transition(state, step.step) {
            Some(next) => Ok(next),
            None => Err(
                TransportReplayError::MissingTransition {
                    step_index: step_index as usize,
                    step: step.step,
                    current_state: state,
                    required_step: spec_required_previous_step(step.step),
                },
            ),
        }
    }
}

/// The state after the first `n` steps from `Idle`, or the error of the
/// first step that was refused.
pub open spec fn spec_replay_prefix(
    endpoints: Option<TransportEndpoints>,
    steps: Seq<TransportTraceStep>,
    n: nat,
) -> Result<TransportTraceState, TransportReplayError>
    decreases n,
{
    if n == 0 {
        Ok(TransportTraceState::Idle)
    } else {
        match spec_replay_prefix(endpoints, steps, (n - 1) as nat) {
            Err(error) => Err(error),
            Ok(state) => spec_replay_step(endpoints, state, steps[n - 1], n as int),
        }
    }
}

/// What [`replay_transport_trace`] answers.
pub open spec fn spec_replay(
    endpoints: Option<TransportEndpoints>,
    steps: Seq<TransportTraceStep>,
    expected_final_state: Option<TransportTraceState>,
) -> Result<TransportReplaySummary, TransportReplayError> {
    match spec_replay_prefix(endpoints, steps, steps.len()) {
        Err(error) => Err(error),
        Ok(state) => if expected_final_state is Some && state != expected_final_state->0 {
            Err(
                TransportReplayError::UnexpectedFinalState {
                    expected: expected_final_state->0,
                    actual: state,
                },
            )
        } else {
            Ok(TransportReplaySummary { final_state: state, consumed_steps: steps.len() as usize })
        },
    }
}

/// The step that must immediately precede `step`: `Connect` for
/// `Connect`, `ReadDescriptor` and `Disconnect`, `ReadDescriptor` for
/// `ConfigureEndpoints`, `ConfigureEndpoints` for `ReadySignal`, and
/// `ReadySignal` for both packet steps.
pub fn required_previous_step(step: TransportControlStep) -> (required: TransportControlStep)
    ensures
        required == spec_required_previous_step(step),
{
    match step {
        TransportControlStep::Connect
        | TransportControlStep::ReadDescriptor
        | TransportControlStep::Disconnect => TransportControlStep::Connect,
        TransportControlStep::ConfigureEndpoints => TransportControlStep::ReadDescriptor,
        TransportControlStep::ReadySignal => TransportControlStep::ConfigureEndpoints,
        TransportControlStep::InputPacket
        | TransportControlStep::ReversePacket => TransportControlStep::ReadySignal,
    }
}

fn transition(state: TransportTraceState, step: TransportControlStep) -> (next: Option<
    TransportTraceState,
>)
    ensures
        next == spec_transition(state, step),
{
    match (state, step) {
        (TransportTraceState::Idle, TransportControlStep::Connect) => Some(
            TransportTraceState::Connected,
        ),
        (TransportTraceState::Connected, TransportControlStep::ReadDescriptor) => Some(
            TransportTraceState::DescriptorRead,
        ),
        (TransportTraceState::DescriptorRead, TransportControlStep::ConfigureEndpoints) => Some(
            TransportTraceState::EndpointsConfigured,
        ),
        (TransportTraceState::EndpointsConfigured, TransportControlStep::ReadySignal)
        | (TransportTraceState::Ready, TransportControlStep::InputPacket)
        | (TransportTraceState::Ready, TransportControlStep::ReversePacket) => Some(
            TransportTraceState::Ready,
        ),
        (TransportTraceState::Connected, TransportControlStep::Disconnect)
        | (TransportTraceState::DescriptorRead, TransportControlStep::Disconnect)
        | (TransportTraceState::EndpointsConfigured, TransportControlStep::Disconnect)
        | (TransportTraceState::Ready, TransportControlStep::Disconnect) => Some(
            TransportTraceState::Disconnected,
        ),
        _ => None,
    }
}

/// Replay a canned transport enumeration/control-flow trace through the
/// transport state machine.
///
/// `endpoints` is optional: when supplied, `InputPacket`/`ReversePacket`
/// steps that carry an `endpoint_id` must name the matching endpoint. Pass
/// `None` to skip endpoint validation.
pub fn replay_transport_trace(
    endpoints: Option<TransportEndpoints>,
    steps: &[TransportTraceStep],
    expected_final_state: Option<TransportTraceState>,
) -> (result: Result<TransportReplaySummary, TransportReplayError>)
    ensures
        result == spec_replay(endpoints, steps@, expected_final_state),
{
    let mut state = TransportTraceState::Idle;
    let mut index: usize = 0;
    while index < steps.len()
        invariant
            0 <= index <= steps.len(),
            spec_replay_prefix(endpoints, steps@, index as nat) == Ok::<
                TransportTraceState,
                TransportReplayError,
            >(state),
        decreases steps.len() - index,
    {
        let step = &steps[index];
        let step_index: usize = index + 1;
        proof {
            lemma_error_persists(endpoints, steps@, (index + 1) as nat, steps.len() as nat);
        }
        match (endpoints, step.endpoint_id) {
            (Some(eps), Some(endpoint_id)) => {
                let expected_endpoint = match step.step {
                    TransportControlStep::InputPacket => Some(eps.input),
                    TransportControlStep::ReversePacket => Some(eps.reverse),
                    _ => None,
                };
                match expected_endpoint {
                    Some(expected) => {
                        if endpoint_id != expected {
                            return Err(
                                TransportReplayError::InvalidEndpoint {
                                    step_index,
                                    step: step.step,
                                    expected,
                                    actual: endpoint_id,
                                },
                            );
                        }
                    },
                    None => {},
                }
            },
            _ => {},
        }
        match transition(state, step.step) {
            Some(next) => {
                state = next;
            },
            None => {
                return Err(
                    TransportReplayError::MissingTransition {
                        step_index,
                        step: step.step,
                        current_state: state,
                        required_step: required_previous_step(step.step),
                    },
                );
            },
        }
        index = index + 1;
    }
    match expected_final_state {
        Some(expected) => {
            if state != expected {
                return Err(TransportReplayError::UnexpectedFinalState { expected, actual: state });
            }
        },
        None => {},
    }
    Ok(TransportReplaySummary { final_state: state, consumed_steps: steps.len() })
}

/// A refused step stays refused: every longer prefix of the trace reports
/// the same error.
pub proof fn lemma_error_persists(
    endpoints: Option<TransportEndpoints>,
    steps: Seq<TransportTraceStep>,
    n: nat,
    m: nat,
)
    requires
        n <= m,
    ensures
        spec_replay_prefix(endpoints, steps, n) is Err ==> spec_replay_prefix(endpoints, steps, m)
            == spec_replay_prefix(endpoints, steps, n),
    decreases m - n,
{
    if n < m {
        lemma_error_persists(endpoints, steps, n, (m - 1) as nat);
    }
}

/// What the machine's state says of the steps that led to it: every
/// enumeration stage is reached only through the stages before it, in order.
pub open spec fn history_fits(
    steps: Seq<TransportTraceStep>,
    n: nat,
    state: TransportTraceState,
) -> bool {
    match state {
        TransportTraceState::Idle => n == 0,
        TransportTraceState::Connected => n == 1 && steps[0].step == TransportControlStep::Connect,
        TransportTraceState::DescriptorRead => n == 2 && steps[0].step
            == TransportControlStep::Connect && steps[1].step
            == TransportControlStep::ReadDescriptor,
        TransportTraceState::EndpointsConfigured => n == 3 && steps[0].step
            == TransportControlStep::Connect && steps[1].step
            == TransportControlStep::ReadDescriptor && steps[2].step
            == TransportControlStep::ConfigureEndpoints,
        TransportTraceState::Ready => n >= 4 && steps[0].step == TransportControlStep::Connect
            && steps[1].step == TransportControlStep::ReadDescriptor && steps[2].step
            == TransportControlStep::ConfigureEndpoints && steps[3].step
            == TransportControlStep::ReadySignal,
        TransportTraceState::Disconnected => n >= 2 && steps[0].step
            == TransportControlStep::Connect && steps[n - 1].step
            == TransportControlStep::Disconnect,
    }
}

/// Every state that an accepted prefix reaches fits the steps that led to it.
pub proof fn lemma_accepted_prefix_history(
    endpoints: Option<TransportEndpoints>,
    steps: Seq<TransportTraceStep>,
    n: nat,
)
    requires
        n <= steps.len(),
    ensures
        spec_replay_prefix(endpoints, steps, n) matches Ok(state) ==> history_fits(steps, n, state),
    decreases n,
{
    if n > 0 {
        lemma_accepted_prefix_history(endpoints, steps, (n - 1) as nat);
    }
}

/// A trace reaches `Ready` only through the full enumeration: its first
/// four steps are connect, read-descriptor, configure-endpoints and
/// ready-signal, in that order.
pub proof fn lemma_ready_requires_enumeration(
    endpoints: Option<TransportEndpoints>,
    steps: Seq<TransportTraceStep>,
    expected_final_state: Option<TransportTraceState>,
)
    requires
        spec_replay(endpoints, steps, expected_final_state) matches Ok(summary)
            && summary.final_state == TransportTraceState::Ready,
    ensures
        steps.len() >= 4,
        steps[0].step == TransportControlStep::Connect,
        steps[1].step == TransportControlStep::ReadDescriptor,
        steps[2].step == TransportControlStep::ConfigureEndpoints,
        steps[3].step == TransportControlStep::ReadySignal,
{
    lemma_accepted_prefix_history(endpoints, steps, steps.len());
}

/// Disconnection is terminal: once a trace has disconnected, any further
/// step is refused.
pub proof fn lemma_disconnect_is_terminal(
    endpoints: Option<TransportEndpoints>,
    steps: Seq<TransportTraceStep>,
    n: nat,
)
    requires
        n < steps.len(),
        spec_replay_prefix(endpoints, steps, n) == Ok::<TransportTraceState, TransportReplayError>(
            TransportTraceState::Disconnected,
        ),
    ensures
        spec_replay_prefix(endpoints, steps, n + 1) is Err,
        spec_replay(endpoints, steps, None) is Err,
{
    lemma_error_persists(endpoints, steps, n + 1, steps.len());
}

/// A replay that fails with a step's error fails at the first refused step:
/// the steps before it are all accepted.
pub proof fn lemma_error_names_first_refused_step(
    endpoints: Option<TransportEndpoints>,
    steps: Seq<TransportTraceStep>,
    expected_final_state: Option<TransportTraceState>,
)
    requires
        steps.len() <= usize::MAX,
    ensures
        spec_replay(endpoints, steps, expected_final_state) matches Err(
            TransportReplayError::MissingTransition { step_index, .. },
        ) ==> 1 <= step_index <= steps.len() && spec_replay_prefix(
            endpoints,
            steps,
            (step_index - 1) as nat,
        ) is Ok,
        spec_replay(endpoints, steps, expected_final_state) matches Err(
            TransportReplayError::InvalidEndpoint { step_index, .. },
        ) ==> 1 <= step_index <= steps.len() && spec_replay_prefix(
            endpoints,
            steps,
            (step_index - 1) as nat,
        ) is Ok,
{
    lemma_first_error_position(endpoints, steps, steps.len());
}

proof fn lemma_first_error_position(
    endpoints: Option<TransportEndpoints>,
    steps: Seq<TransportTraceStep>,
    n: nat,
)
    requires
        n <= steps.len() <= usize::MAX,
    ensures
        spec_replay_prefix(endpoints, steps, n) matches Err(
            TransportReplayError::MissingTransition { step_index, .. },
        ) ==> 1 <= step_index <= n && spec_replay_prefix(endpoints, steps, (step_index - 1) as nat) is Ok,
        spec_replay_prefix(endpoints, steps, n) matches Err(
            TransportReplayError::InvalidEndpoint { step_index, .. },
        ) ==> 1 <= step_index <= n && spec_replay_prefix(endpoints, steps, (step_index - 1) as nat) is Ok,
        !(spec_replay_prefix(endpoints, steps, n) is Err && spec_replay_prefix(endpoints, steps, n)->Err_0
            is UnexpectedFinalState),
    decreases n,
{
    if n > 0 {
        lemma_first_error_position(endpoints, steps, (n - 1) as nat);
    }
}

} // verus!
