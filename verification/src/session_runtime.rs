//! Starting a planned session and the steps its actor takes: writing
//! translated frames to the backend, pulling reverse events into output
//! commands, failing and shutting down. The manager's registry, the
//! actor's scheduling and the waiting between steps belong to the runtime
//! that drives these steps.

use vstd::prelude::*;

use crate::backend_api::{
    same_frame, BackendError, BackendFactory, BackendFrame, BackendReverseEvent, BackendSession,
    EventReadiness,
};
use crate::inputs::ProfileInputFrame;
use crate::reverse_translation::{
    reverse_decoded, reverse_translator_profile, spec_forward_registered, ReverseOutput,
};
use crate::runtime_model::{
    BackendOpenContext, BackendLevel, BackpressurePolicy, ControllerOutputCommand, OutputCommandType,
    OutputFunctionRef, PlanRejection, PreparedTranslationContext, SessionLifecycleState,
    SessionPlan, SessionRequest, TranslatorFamily,
};
use crate::session_options::{
    copy_backpressure_policy, copy_kinds, default_session_options, AcceptedUpdateKind,
    CompiledSessionOptions,
};
use crate::session::SessionSendError;
use crate::session_archive::{is_diagnostics_of, is_status_of, SessionArchive};
use crate::session_core::{fail_session, offer_output_command, submission_outcome, submit_frame};
use crate::session_queues::{spec_offer, InputQueue, ReverseAdmission, ReverseQueue};
use crate::session_state::{CounterKey, SessionState};
use crate::translation_context::{context_outcome, context_prepares, prepared_translation_context};
use crate::text::str_eq;
use crate::translators::{TranslationError, TranslatorRegistry};

verus! {

// ---------------------------------------------------------------------
// Manager errors and configuration
// ---------------------------------------------------------------------

/// Why the manager refused to start or find a session.
#[derive(Debug, Clone, PartialEq, Eq)]
pub enum ManagerError {
    NoBackendsRegistered,
    PlanRejected(PlanRejection),
    BackendOpenFailed { backend_id: String, source: BackendError },
    TranslatorContextFailed(TranslationError),
    SessionAlreadyActive { session_id: u64 },
    SessionNotFound { session_id: u64 },
}

/// How the manager sizes and configures the sessions it starts.
#[derive(Debug, Clone)]
pub struct ManagerConfig {
    pub session_input_queue_depth: usize,
    pub session_reverse_queue_depth: usize,
    pub worker_pool_size: Option<usize>,
    pub default_session_options: CompiledSessionOptions,
}

impl Default for ManagerConfig {
    /// Eight queued input frames, thirty-two queued output commands, the
    /// runtime's own worker count and the default session options.
    fn default() -> (config: Self)
        ensures
            config.session_input_queue_depth == 8,
            config.session_reverse_queue_depth == 32,
            config.worker_pool_size is None,
            config.default_session_options.input_validation_policy.accepted_update_kinds@ == seq![
                AcceptedUpdateKind::Frame,
                AcceptedUpdateKind::Delta,
            ],
            !config.default_session_options.input_validation_policy.require_monotonic_sequence,
            config.default_session_options.backpressure_policy == (BackpressurePolicy::DropOldest {
                log_dropped_outputs: true,
                max_queue_depth: Some(8),
            }),
    {
        ManagerConfig {
            session_input_queue_depth: 8,
            session_reverse_queue_depth: 32,
            worker_pool_size: None,
            default_session_options: default_session_options(),
        }
    }
}

// ---------------------------------------------------------------------
// Reverse commands
// ---------------------------------------------------------------------

/// The profile a reverse event's commands are addressed to: the event's
/// own, else the context's profile family, else `unknown-profile`.
pub open spec fn spec_event_profile_id(
    event: BackendReverseEvent,
    context: PreparedTranslationContext,
) -> Seq<char> {
    match event.profile_id {
        Some(id) => id@,
        None => match context.profile_family {
            Some(family) => family@,
            None => "unknown-profile"@,
        },
    }
}

/// The state-update command an output decoded from `event` becomes.
pub open spec fn is_output_command(
    command: ControllerOutputCommand,
    event: BackendReverseEvent,
    context: PreparedTranslationContext,
    output: ReverseOutput,
) -> bool {
    &&& command.session_id == event.session_id
    &&& command.profile_id@ == spec_event_profile_id(event, context)
    &&& command.timestamp == event.timestamp
    &&& command.command_type == OutputCommandType::StateUpdate
    &&& command.function == OutputFunctionRef::Semantic(output.function)
    &&& command.payload == output.payload
}

fn event_profile_id(event: &BackendReverseEvent, context: &PreparedTranslationContext) -> (id:
    String)
    ensures
        id@ == spec_event_profile_id(*event, *context),
{
    match &event.profile_id {
        Some(id) => id.clone(),
        None => match &context.profile_family {
            Some(family) => family.clone(),
            None => String::from_str("unknown-profile"),
        },
    }
}

/// `commands` are the state-update commands of `outputs` decoded from
/// `event`, in order.
pub open spec fn commands_of(
    commands: Seq<ControllerOutputCommand>,
    event: BackendReverseEvent,
    context: PreparedTranslationContext,
    outputs: Seq<ReverseOutput>,
) -> bool {
    &&& commands.len() == outputs.len()
    &&& forall|i: int|
        0 <= i < outputs.len() ==> is_output_command(#[trigger] commands[i], event, context, outputs[i])
}

/// The commands decoding `event` with the reverse translator registered
/// for `family` gives: none without a translator or when decoding fails,
/// otherwise the decoded outputs as state-update commands.
pub open spec fn event_commands(
    family: TranslatorFamily,
    event: BackendReverseEvent,
    context: PreparedTranslationContext,
    commands: Seq<ControllerOutputCommand>,
) -> bool {
    if reverse_translator_profile(family) is None {
        commands.len() == 0
    } else {
        exists|outputs: Seq<ReverseOutput>, result: Result<(), TranslationError>|
            #![trigger reverse_decoded(family, event.target, event.payload, Seq::<ReverseOutput>::empty(), outputs, result)]
            reverse_decoded(
                family,
                event.target,
                event.payload,
                Seq::<ReverseOutput>::empty(),
                outputs,
                result,
            ) && if result is Ok {
                commands_of(commands, event, context, outputs)
            } else {
                commands.len() == 0
            }
    }
}

/// The commands decoding `events` in order gives: each event's commands,
/// one event after another.
pub open spec fn batch_commands(
    family: TranslatorFamily,
    context: PreparedTranslationContext,
    events: Seq<BackendReverseEvent>,
    commands: Seq<ControllerOutputCommand>,
) -> bool
    decreases events.len(),
{
    if events.len() == 0 {
        commands.len() == 0
    } else {
        exists|split: int|
            #![trigger commands.subrange(0, split)]
            0 <= split <= commands.len() && batch_commands(
                family,
                context,
                events.drop_last(),
                commands.subrange(0, split),
            ) && event_commands(
                family,
                events.last(),
                context,
                commands.subrange(split, commands.len() as int),
            )
    }
}

/// Decode a reverse event with the translator registered for `family` and
/// append the decoded outputs to `out` as state-update commands. `None`
/// (with `out` unchanged) when no reverse translator is registered; on a
/// decoding error nothing is appended.
pub fn translate_reverse_event(
    translators: &TranslatorRegistry,
    family: TranslatorFamily,
    event: &BackendReverseEvent,
    context: &PreparedTranslationContext,
    out: &mut Vec<ControllerOutputCommand>,
) -> (result: Option<Result<(), TranslationError>>)
    ensures
        result is None <==> reverse_translator_profile(family) is None,
        final(out)@.len() >= old(out)@.len(),
        final(out)@.subrange(0, old(out)@.len() as int) == old(out)@,
        event_commands(
            family,
            *event,
            *context,
            final(out)@.subrange(old(out)@.len() as int, final(out)@.len() as int),
        ),
        match result {
            None => final(out)@ == old(out)@,
            Some(decoded) => exists|outputs: Seq<ReverseOutput>|
                #![trigger reverse_decoded(family, event.target, event.payload, Seq::<ReverseOutput>::empty(), outputs, decoded)]
                reverse_decoded(
                    family,
                    event.target,
                    event.payload,
                    Seq::<ReverseOutput>::empty(),
                    outputs,
                    decoded,
                ) && (decoded is Ok ==> commands_of(
                    final(out)@.subrange(old(out)@.len() as int, final(out)@.len() as int),
                    *event,
                    *context,
                    outputs,
                )) && (decoded is Err ==> final(out)@ == old(out)@),
        },
{
    let ghost start = out@;
    let mut outputs: Vec<ReverseOutput> = Vec::new();
    let decoded = translators.translate_reverse(family, event.target, &event.payload, &mut outputs);
    let ghost decoded_outputs = outputs@;
    proof {
        assert(out@.subrange(0, start.len() as int) =~= start);
        assert(out@.subrange(start.len() as int, out@.len() as int) =~= Seq::<
            ControllerOutputCommand,
        >::empty());
    }
    match &decoded {
        None => {},
        Some(Err(_)) => {
            proof {
                assert(reverse_decoded(
                    family,
                    event.target,
                    event.payload,
                    Seq::<ReverseOutput>::empty(),
                    decoded_outputs,
                    decoded->Some_0,
                ));
            }
        },
        Some(Ok(())) => {
            let profile_id = event_profile_id(event, context);
            let mut index: usize = 0;
            let total = outputs.len();
            let mut remaining = outputs;
            while index < total
                invariant
                    total == decoded_outputs.len(),
                    index <= total,
                    remaining@ == decoded_outputs.subrange(index as int, total as int),
                    profile_id@ == spec_event_profile_id(*event, *context),
                    out@.len() == start.len() + index,
                    out@.subrange(0, start.len() as int) == start,
                    forall|i: int|
                        0 <= i < index ==> is_output_command(
                            #[trigger] out@[start.len() + i],
                            *event,
                            *context,
                            decoded_outputs[i],
                        ),
                decreases total - index,
            {
                let output = remaining.remove(0);
                out.push(
                    ControllerOutputCommand {
                        session_id: event.session_id,
                        profile_id: profile_id.clone(),
                        timestamp: event.timestamp,
                        command_type: OutputCommandType::StateUpdate,
                        function: OutputFunctionRef::Semantic(output.function),
                        payload: output.payload,
                    },
                );
                proof {
                    assert(remaining@ =~= decoded_outputs.subrange(index + 1, total as int));
                    assert(out@.subrange(0, start.len() as int) =~= start);
                }
                index = index + 1;
            }
            proof {
                let appended = out@.subrange(start.len() as int, out@.len() as int);
                assert forall|i: int| 0 <= i < decoded_outputs.len() implies is_output_command(
                    #[trigger] appended[i],
                    *event,
                    *context,
                    decoded_outputs[i],
                ) by {
                    assert(appended[i] == out@[start.len() + i]);
                }
                assert(commands_of(appended, *event, *context, decoded_outputs));
                assert(reverse_decoded(
                    family,
                    event.target,
                    event.payload,
                    Seq::<ReverseOutput>::empty(),
                    decoded_outputs,
                    decoded->Some_0,
                ));
            }
        },
    }
    decoded
}

// ---------------------------------------------------------------------
// Starting a session
// ---------------------------------------------------------------------

/// A started session: its bookkeeping, its open backend session, its
/// queues, what its translators were prepared with, and the input and
/// backpressure policies it runs under.
pub struct ActiveSession<S> {
    pub state: SessionState,
    pub backend: S,
    pub backend_id: String,
    pub input_queue: InputQueue<ProfileInputFrame>,
    pub reverse_queue: ReverseQueue<ControllerOutputCommand>,
    pub translation_context: PreparedTranslationContext,
    pub translator_family: TranslatorFamily,
    pub level: BackendLevel,
    pub accepted_update_kinds: Vec<AcceptedUpdateKind>,
    pub require_monotonic_sequence: bool,
    pub backpressure_policy: BackpressurePolicy,
}

impl<S> ActiveSession<S> {
    /// The state has every counter and the queues are within capacity.
    pub open spec fn wf(&self) -> bool {
        &&& self.state.wf()
        &&& self.input_queue.wf()
        &&& self.reverse_queue.wf()
    }
}

/// Some registered backend has ID `id`.
pub open spec fn has_backend<F: BackendFactory>(backends: Seq<F>, id: Seq<char>) -> bool {
    exists|i: int| 0 <= i < backends.len() && (#[trigger] backends[i]).spec_backend_id() == id
}

/// Backend `index` is the first registered with ID `id`.
pub open spec fn is_first_backend<F: BackendFactory>(backends: Seq<F>, id: Seq<char>, index: int) -> bool {
    &&& 0 <= index < backends.len()
    &&& backends[index].spec_backend_id() == id
    &&& forall|j: int| 0 <= j < index ==> (#[trigger] backends[j]).spec_backend_id() != id
}

/// `result` is what opening a session on `backend` for `context` and
/// starting it gave: an error of either step is the open failure's source
/// unchanged, and a started session runs on the backend session as the
/// start left it.
pub open spec fn started_on<F: BackendFactory>(
    backend: F,
    context: BackendOpenContext,
    result: Result<ActiveSession<F::Session>, ManagerError>,
) -> bool {
    exists|opened: Result<F::Session, BackendError>|
        #![trigger backend.session_opened(context, opened)]
        backend.session_opened(context, opened) && match opened {
            Err(error) => result matches Err(ManagerError::BackendOpenFailed { source, .. }) && source
                == error,
            Ok(fresh) => exists|after: F::Session, answer: Result<(), BackendError>|
                #![trigger <F::Session as BackendSession>::opened(fresh, after, answer)]
                <F::Session as BackendSession>::opened(fresh, after, answer) && match answer {
                    Err(error) => result matches Err(ManagerError::BackendOpenFailed { source, .. })
                        && source == error,
                    Ok(()) => result matches Ok(session) && session.backend == after,
                },
        }
}

/// The reason a plan naming an unregistered backend is refused with.
pub open spec fn unregistered_provider_reason() -> Seq<char> {
    "selected provider was not registered"@
}

/// A session started for `request` under `plan`: running, with fresh
/// counters, on the planned backend and translators, with empty queues of
/// the configured depths and the configured input and backpressure
/// policies.
pub open spec fn started_as<S>(
    session: ActiveSession<S>,
    config: ManagerConfig,
    request: SessionRequest,
    plan: SessionPlan,
) -> bool {
    let options = config.default_session_options;
    &&& session.wf()
    &&& session.state.session_id == request.session_id
    &&& session.state.profile_id@ == request.profile_id@
    &&& session.state.lifecycle == SessionLifecycleState::Running
    &&& session.state.last_error is None
    &&& forall|key: CounterKey| session.state.counter(key) == 0
    &&& session.state.last_payload is None
    &&& session.state.last_sequence is None
    &&& session.state.last_backend_diagnostics is None
    &&& session.backend_id@ == plan.selected_provider_id.0@
    &&& context_outcome(plan, Ok(session.translation_context))
    &&& session.translator_family == plan.selected_translator_family
    &&& session.level == plan.selected_level
    &&& session.input_queue.items() == Seq::<ProfileInputFrame>::empty()
    &&& session.input_queue.spec_capacity() == config.session_input_queue_depth
    &&& !session.input_queue.is_closed()
    &&& session.reverse_queue.items() == Seq::<ControllerOutputCommand>::empty()
    &&& session.reverse_queue.spec_capacity() == config.session_reverse_queue_depth
    &&& !session.reverse_queue.is_closed()
    &&& session.accepted_update_kinds@ == options.input_validation_policy.accepted_update_kinds@
    &&& session.require_monotonic_sequence
        == options.input_validation_policy.require_monotonic_sequence
    &&& session.backpressure_policy == options.backpressure_policy
}

/// Start a session for `request` under the planner's verdict `plan`.
/// Refused, in this order: when no backend is registered, when a session
/// with the request's ID is active, when the planner rejected the request,
/// when the plan's translation context cannot be prepared, when no
/// registered backend has the planned ID, and when that backend fails to
/// open or start a session. Otherwise the session is running on it.
pub fn start_session<F: BackendFactory>(
    config: &ManagerConfig,
    backends: &Vec<F>,
    active_sessions: &Vec<u64>,
    translators: &TranslatorRegistry,
    request: &SessionRequest,
    plan: Result<SessionPlan, PlanRejection>,
) -> (result: Result<ActiveSession<F::Session>, ManagerError>)
    ensures
        backends@.len() == 0 ==> result == Err::<ActiveSession<F::Session>, ManagerError>(
            ManagerError::NoBackendsRegistered,
        ),
        backends@.len() > 0 && active_sessions@.contains(request.session_id) ==> result == Err::<
            ActiveSession<F::Session>,
            ManagerError,
        >(ManagerError::SessionAlreadyActive { session_id: request.session_id }),
        backends@.len() > 0 && !active_sessions@.contains(request.session_id) ==> match plan {
            Err(rejection) => result == Err::<ActiveSession<F::Session>, ManagerError>(
                ManagerError::PlanRejected(rejection),
            ),
            Ok(plan) => if !context_prepares(plan) {
                result matches Err(ManagerError::TranslatorContextFailed(error)) && context_outcome(
                    plan,
                    Err(error),
                )
            } else if !has_backend(backends@, plan.selected_provider_id.0@) {
                result matches Err(ManagerError::BackendOpenFailed { backend_id, source }) && {
                    &&& backend_id@ == plan.selected_provider_id.0@
                    &&& source matches BackendError::OpenFailed { reason }
                    &&& source->OpenFailed_reason@ == unregistered_provider_reason()
                }
            } else {
                &&& match result {
                    Ok(session) => started_as(session, *config, *request, plan),
                    Err(error) => error matches ManagerError::BackendOpenFailed { backend_id, .. }
                        && backend_id@ == plan.selected_provider_id.0@,
                }
                &&& forall|i: int|
                    #[trigger] is_first_backend(backends@, plan.selected_provider_id.0@, i)
                        ==> started_on(backends@[i], plan.backend_open_context, result)
            },
        },
{
    if backends.len() == 0 {
        return Err(ManagerError::NoBackendsRegistered);
    }
    let mut scan: usize = 0;
    while scan < active_sessions.len()
        invariant
            backends@.len() > 0,
            scan <= active_sessions@.len(),
            forall|j: int| 0 <= j < scan ==> active_sessions@[j] != request.session_id,
        decreases active_sessions@.len() - scan,
    {
        if active_sessions[scan] == request.session_id {
            return Err(ManagerError::SessionAlreadyActive { session_id: request.session_id });
        }
        scan = scan + 1;
    }
    assert(!active_sessions@.contains(request.session_id));
    let plan = match plan {
        Ok(plan) => plan,
        Err(rejection) => return Err(ManagerError::PlanRejected(rejection)),
    };
    let translation_context = match prepared_translation_context(&plan, translators) {
        Ok(context) => context,
        Err(error) => return Err(ManagerError::TranslatorContextFailed(error)),
    };
    let mut index: usize = 0;
    let mut found = false;
    while !found && index < backends.len()
        invariant
            index <= backends@.len(),
            found ==> index < backends@.len() && backends@[index as int].spec_backend_id()
                == plan.selected_provider_id.0@,
            forall|j: int|
                0 <= j < index ==> (#[trigger] backends@[j]).spec_backend_id()
                    != plan.selected_provider_id.0@,
        decreases backends@.len() - index + (if found {
            0int
        } else {
            1int
        }),
    {
        let id = backends[index].backend_id();
        if str_eq(id.as_str(), plan.selected_provider_id.0.as_str()) {
            found = true;
        } else {
            index = index + 1;
        }
    }
    if !found {
        return Err(
            ManagerError::BackendOpenFailed {
                backend_id: plan.selected_provider_id.0.clone(),
                source: BackendError::OpenFailed {
                    reason: String::from_str("selected provider was not registered"),
                },
            },
        );
    }
    let backend = &backends[index];
    proof {
        assert forall|i: int| is_first_backend(backends@, plan.selected_provider_id.0@, i) implies i
            == index by {
            if i < index {
                assert(backends@[i].spec_backend_id() != plan.selected_provider_id.0@);
            }
            if index < i {
                assert(backends@[index as int].spec_backend_id() != plan.selected_provider_id.0@);
            }
        }
    }
    let opened = backend.open_session(&plan.backend_open_context);
    let ghost opened_as = opened;
    let mut session = match opened {
        Ok(session) => session,
        Err(source) => {
            proof {
                assert(backend.session_opened(plan.backend_open_context, opened_as));
            }
            return Err(ManagerError::BackendOpenFailed { backend_id: backend.backend_id(), source });
        },
    };
    let ghost fresh = session;
    let answer = session.open();
    let ghost answered = answer;
    proof {
        assert(backend.session_opened(plan.backend_open_context, opened_as));
        assert(<F::Session as BackendSession>::opened(fresh, session, answered));
    }
    match answer {
        Ok(()) => {},
        Err(source) => {
            return Err(ManagerError::BackendOpenFailed { backend_id: backend.backend_id(), source });
        },
    }
    let mut state = SessionState::new(request.session_id, request.profile_id.clone());
    state.set_state(SessionLifecycleState::Running);
    let options = &config.default_session_options;
    Ok(
        ActiveSession {
            state,
            backend: session,
            backend_id: backend.backend_id(),
            input_queue: InputQueue::new(config.session_input_queue_depth),
            reverse_queue: ReverseQueue::new(config.session_reverse_queue_depth),
            translation_context,
            translator_family: plan.selected_translator_family,
            level: plan.selected_level,
            accepted_update_kinds: copy_kinds(&options.input_validation_policy.accepted_update_kinds),
            require_monotonic_sequence: options.input_validation_policy.require_monotonic_sequence,
            backpressure_policy: copy_backpressure_policy(&options.backpressure_policy),
        },
    )
}

// ---------------------------------------------------------------------
// The session actor's steps
// ---------------------------------------------------------------------

/// What became of one frame the actor tried to write.
#[derive(Debug)]
pub enum FrameStep {
    Written,
    /// The backend would block: send this translated frame again later.
    Blocked(BackendFrame),
    Failed(BackendError),
}

/// What one pull of reverse events from the backend gave.
#[derive(Debug, Clone, Copy, PartialEq, Eq, Structural)]
pub enum ReverseDrain {
    /// The backend never delivers reverse events.
    NoReverseEvents,
    /// The backend would block; nothing was drained.
    WouldBlock,
    /// The drain failed; the error was recorded.
    Failed,
    /// This many events were drained.
    Drained { count: usize },
}

/// What an output queue holding `items` holds after `commands` are offered
/// to it in order.
pub open spec fn queued_items(
    items: Seq<ControllerOutputCommand>,
    capacity: nat,
    closed: bool,
    commands: Seq<ControllerOutputCommand>,
    policy: BackpressurePolicy,
) -> Seq<ControllerOutputCommand>
    decreases commands.len(),
{
    if commands.len() == 0 {
        items
    } else {
        spec_offer(
            queued_items(items, capacity, closed, commands.drop_last(), policy),
            capacity,
            closed,
            commands.last(),
            policy,
        ).0
    }
}

/// The commands, in order, that the policy makes wait when `commands` are
/// offered in order to an output queue holding `items`.
pub open spec fn waiting_commands(
    items: Seq<ControllerOutputCommand>,
    capacity: nat,
    closed: bool,
    commands: Seq<ControllerOutputCommand>,
    policy: BackpressurePolicy,
) -> Seq<ControllerOutputCommand>
    decreases commands.len(),
{
    if commands.len() == 0 {
        Seq::empty()
    } else {
        let earlier = waiting_commands(items, capacity, closed, commands.drop_last(), policy);
        match spec_offer(
            queued_items(items, capacity, closed, commands.drop_last(), policy),
            capacity,
            closed,
            commands.last(),
            policy,
        ).1 {
            ReverseAdmission::MustWait(command) => earlier.push(command),
            _ => earlier,
        }
    }
}

/// Asking `before` for readiness answered `readiness`, and draining the
/// session it left handed out `handed`, answered `result` and left `after`.
pub open spec fn pulled<S: BackendSession>(
    before: S,
    after: S,
    readiness: EventReadiness,
    handed: Seq<BackendReverseEvent>,
    result: Result<(), BackendError>,
) -> bool {
    exists|ready: S|
        #![trigger S::readied(before, ready, readiness)]
        S::readied(before, ready, readiness) && S::drained(ready, after, handed, result)
}

/// `step` reports how the backend answered a write of `frame`: written on
/// success, the frame handed back when it would block, any other error
/// handed on.
pub open spec fn step_answers(step: FrameStep, frame: BackendFrame, result: Result<(), BackendError>) -> bool {
    match step {
        FrameStep::Written => result is Ok,
        FrameStep::Blocked(again) => result == Err::<(), BackendError>(BackendError::WouldBlock)
            && same_frame(again, frame),
        FrameStep::Failed(error) => result == Err::<(), BackendError>(error) && error
            != BackendError::WouldBlock,
    }
}

/// The backend went from `before` to `after` sending a copy of `frame`,
/// and `step` reports its answer.
pub open spec fn wrote<S: BackendSession>(before: S, after: S, frame: BackendFrame, step: FrameStep) -> bool {
    exists|copy: BackendFrame, result: Result<(), BackendError>|
        #![trigger S::sent(before, after, copy, result)]
        same_frame(copy, frame) && S::sent(before, after, copy, result) && step_answers(
            step,
            frame,
            result,
        )
}

impl<S: BackendSession> ActiveSession<S> {
    /// Submit a full input frame: refused once the session is closing or
    /// by its input policy, otherwise recorded and queued.
    pub fn send_input(&mut self, frame: ProfileInputFrame) -> (result: Result<(), SessionSendError>)
        requires
            old(self).wf(),
            old(self).state.counter(CounterKey::FramesReceived) < u64::MAX,
            old(self).state.counter(CounterKey::FramesCoalesced) < u64::MAX,
        ensures
            final(self).wf(),
            submission_outcome(
                old(self).state,
                final(self).state,
                old(self).input_queue.items(),
                old(self).input_queue.spec_capacity(),
                old(self).input_queue.is_closed(),
                final(self).input_queue.items(),
                old(self).accepted_update_kinds@,
                old(self).require_monotonic_sequence,
                frame,
                result,
            ),
            final(self).input_queue.spec_capacity() == old(self).input_queue.spec_capacity(),
            final(self).input_queue.is_closed() == old(self).input_queue.is_closed(),
            final(self).reverse_queue == old(self).reverse_queue,
            final(self).backend == old(self).backend,
            final(self).accepted_update_kinds == old(self).accepted_update_kinds,
            final(self).require_monotonic_sequence == old(self).require_monotonic_sequence,
    {
        submit_frame(
            &mut self.state,
            &mut self.input_queue,
            self.accepted_update_kinds.as_slice(),
            self.require_monotonic_sequence,
            frame,
        )
    }

    /// Write a translated frame to the backend. Written: `frames.written`
    /// counts it. Would block: the frame comes back to send again later,
    /// nothing recorded. Any other failure is handed back. Whenever the
    /// backend answered other than blocking, its diagnostics are kept.
    pub fn send_translated(&mut self, frame: BackendFrame) -> (step: FrameStep)
        requires
            old(self).wf(),
            old(self).backend.can_continue(),
            old(self).state.counter(CounterKey::FramesWritten) < u64::MAX,
        ensures
            final(self).wf(),
            final(self).state.lifecycle == old(self).state.lifecycle,
            final(self).state.last_error == old(self).state.last_error,
            final(self).state.session_id == old(self).state.session_id,
            final(self).input_queue == old(self).input_queue,
            final(self).reverse_queue == old(self).reverse_queue,
            wrote(old(self).backend, final(self).backend, frame, step),
            match step {
                FrameStep::Written => {
                    &&& final(self).state.counter(CounterKey::FramesWritten) == old(
                        self,
                    ).state.counter(CounterKey::FramesWritten) + 1
                    &&& forall|key: CounterKey|
                        key != CounterKey::FramesWritten ==> final(self).state.counter(key) == old(
                            self,
                        ).state.counter(key)
                    &&& final(self).state.last_backend_diagnostics is Some
                },
                FrameStep::Blocked(again) => {
                    &&& same_frame(again, frame)
                    &&& forall|key: CounterKey|
                        final(self).state.counter(key) == old(self).state.counter(key)
                    &&& final(self).state.last_backend_diagnostics == old(
                        self,
                    ).state.last_backend_diagnostics
                },
                FrameStep::Failed(error) => {
                    &&& error != BackendError::WouldBlock
                    &&& forall|key: CounterKey|
                        final(self).state.counter(key) == old(self).state.counter(key)
                    &&& final(self).state.last_backend_diagnostics is Some
                },
            },
    {
        let copy = frame.copy();
        let ghost sent_copy = copy;
        let ghost before = self.backend;
        let answer = self.backend.send(copy);
        let ghost answered = answer;
        proof {
            assert(S::sent(before, self.backend, sent_copy, answered));
        }
        let step = match answer {
            Ok(()) => {
                self.state.increment_counter(CounterKey::FramesWritten, 1);
                let diagnostics = self.backend.diagnostics();
                self.state.note_backend_diagnostics(diagnostics);
                FrameStep::Written
            },
            Err(BackendError::WouldBlock) => FrameStep::Blocked(frame),
            Err(error) => {
                let diagnostics = self.backend.diagnostics();
                self.state.note_backend_diagnostics(diagnostics);
                FrameStep::Failed(error)
            },
        };
        proof {
            assert(step_answers(step, frame, answered));
            assert(S::sent(before, self.backend, sent_copy, answered));
        }
        step
    }

    /// Write one input frame, given what its forward translation gave: a
    /// translation error becomes a write failure carrying its message,
    /// with nothing recorded; a translated frame is sent.
    pub fn process_frame(&mut self, translated: Result<BackendFrame, TranslationError>) -> (step:
        FrameStep)
        requires
            old(self).wf(),
            old(self).backend.can_continue(),
            old(self).state.counter(CounterKey::FramesWritten) < u64::MAX,
        ensures
            final(self).wf(),
            final(self).input_queue == old(self).input_queue,
            final(self).reverse_queue == old(self).reverse_queue,
            final(self).state.lifecycle == old(self).state.lifecycle,
            final(self).state.last_error == old(self).state.last_error,
            match translated {
                Err(error) => {
                    &&& step matches FrameStep::Failed(BackendError::WriteFailed { reason })
                    &&& step->Failed_0->WriteFailed_reason@ == error.spec_message()
                    &&& final(self).state == old(self).state
                },
                Ok(frame) => wrote(old(self).backend, final(self).backend, frame, step) && match step {
                    FrameStep::Written => final(self).state.counter(CounterKey::FramesWritten)
                        == old(self).state.counter(CounterKey::FramesWritten) + 1,
                    FrameStep::Blocked(again) => same_frame(again, frame) && forall|key: CounterKey|
                        final(self).state.counter(key) == old(self).state.counter(key),
                    FrameStep::Failed(error) => error != BackendError::WouldBlock && forall|
                        key: CounterKey,
                    | final(self).state.counter(key) == old(self).state.counter(key),
                },
            },
    {
        match translated {
            Err(error) => FrameStep::Failed(BackendError::WriteFailed { reason: error.message() }),
            Ok(frame) => self.send_translated(frame),
        }
    }

    /// Stop the session after a frame could not be written: the error
    /// becomes its last error, the write failure is counted, it is marked
    /// failed, its output queue stops taking commands and the backend is
    /// closed (a close failure is ignored).
    pub fn fail(&mut self, error: &BackendError)
        requires
            old(self).wf(),
            old(self).state.counter(CounterKey::WriteFailures) < u64::MAX,
        ensures
            final(self).wf(),
            final(self).state.last_error matches Some(text) && text@ == error.spec_message(),
            final(self).state.counter(CounterKey::WriteFailures) == old(self).state.counter(
                CounterKey::WriteFailures,
            ) + 1,
            forall|key: CounterKey|
                key != CounterKey::WriteFailures ==> final(self).state.counter(key) == old(
                    self,
                ).state.counter(key),
            final(self).state.lifecycle == SessionLifecycleState::Failed,
            final(self).reverse_queue.is_closed(),
            final(self).reverse_queue.items() == old(self).reverse_queue.items(),
            final(self).input_queue == old(self).input_queue,
    {
        fail_session(&mut self.state, &mut self.reverse_queue, error.message());
        let _ = self.backend.close();
    }

    /// Shut the session down once its input is done: keep the backend's
    /// final diagnostics, close the backend (a close failure is ignored),
    /// mark the session closed and stop its output queue taking commands.
    pub fn finish(&mut self)
        requires
            old(self).wf(),
        ensures
            final(self).wf(),
            final(self).state.lifecycle == SessionLifecycleState::Closed,
            final(self).state.last_backend_diagnostics is Some,
            final(self).state.session_id == old(self).state.session_id,
            final(self).state.profile_id == old(self).state.profile_id,
            final(self).state.last_error == old(self).state.last_error,
            forall|key: CounterKey| final(self).state.counter(key) == old(self).state.counter(key),
            final(self).reverse_queue.is_closed(),
            final(self).reverse_queue.items() == old(self).reverse_queue.items(),
            final(self).input_queue == old(self).input_queue,
    {
        let diagnostics = self.backend.diagnostics();
        self.state.note_backend_diagnostics(diagnostics);
        let _ = self.backend.close();
        self.state.set_state(SessionLifecycleState::Closed);
        self.reverse_queue.close();
    }

    /// Close the session and archive what it leaves: it is marked closing,
    /// its input queue stops taking frames, it finishes as `finish` does,
    /// and its final status and diagnostics are kept in `archive` under its
    /// id.
    pub fn close_and_archive(&mut self, archive: &mut SessionArchive)
        requires
            old(self).wf(),
        ensures
            final(self).wf(),
            final(self).state.lifecycle == SessionLifecycleState::Closed,
            final(self).input_queue.is_closed(),
            final(self).reverse_queue.is_closed(),
            final(self).state.session_id == old(self).state.session_id,
            final(self).state.last_error == old(self).state.last_error,
            forall|key: CounterKey| final(self).state.counter(key) == old(self).state.counter(key),
            final(archive)@.dom() == old(archive)@.dom().insert(old(self).state.session_id),
            forall|id: u64|
                id != old(self).state.session_id && #[trigger] old(archive)@.contains_key(id)
                    ==> final(archive)@[id] == old(archive)@[id],
            is_status_of(final(archive)@[old(self).state.session_id].status, final(self).state),
            is_diagnostics_of(final(archive)@[old(self).state.session_id].diagnostics, final(self).state),
    {
        self.state.set_state(SessionLifecycleState::Closing);
        self.input_queue.close();
        self.finish();
        archive.archive(&self.state);
    }

    /// Pull reverse events from the backend into `inbound` (cleared first).
    /// A backend that never delivers them is not asked; one that would
    /// block gives nothing; a failed drain becomes the session's last
    /// error. Drained events are counted in `reverse_events.received`
    /// (which stops at its maximum). Whenever the backend was drained
    /// other than blocking, its diagnostics are kept.
    pub fn drain_reverse(&mut self, inbound: &mut Vec<BackendReverseEvent>) -> (drain: ReverseDrain)
        requires
            old(self).wf(),
            old(self).backend.can_continue(),
        ensures
            final(self).wf(),
            final(self).state.lifecycle == old(self).state.lifecycle,
            final(self).state.session_id == old(self).state.session_id,
            final(self).input_queue == old(self).input_queue,
            final(self).reverse_queue == old(self).reverse_queue,
            forall|key: CounterKey|
                key != CounterKey::ReverseEventsReceived ==> final(self).state.counter(key) == old(
                    self,
                ).state.counter(key),
            match drain {
                ReverseDrain::NoReverseEvents => S::readied(
                    old(self).backend,
                    final(self).backend,
                    EventReadiness::NoReverseEvents,
                ) && final(inbound)@ == old(inbound)@,
                ReverseDrain::WouldBlock => exists|readiness: EventReadiness|
                    #![trigger pulled(old(self).backend, final(self).backend, readiness, final(inbound)@, Err::<(), BackendError>(BackendError::WouldBlock))]
                    readiness != EventReadiness::NoReverseEvents && pulled(
                        old(self).backend,
                        final(self).backend,
                        readiness,
                        final(inbound)@,
                        Err::<(), BackendError>(BackendError::WouldBlock),
                    ),
                ReverseDrain::Failed => exists|readiness: EventReadiness, error: BackendError|
                    #![trigger pulled(old(self).backend, final(self).backend, readiness, final(inbound)@, Err::<(), BackendError>(error))]
                    readiness != EventReadiness::NoReverseEvents && error != BackendError::WouldBlock
                        && pulled(
                        old(self).backend,
                        final(self).backend,
                        readiness,
                        final(inbound)@,
                        Err::<(), BackendError>(error),
                    ) && (final(self).state.last_error matches Some(text) && text@
                        == error.spec_message()),
                ReverseDrain::Drained { .. } => exists|
                    readiness: EventReadiness,
                    result: Result<(), BackendError>,
                |
                    #![trigger pulled(old(self).backend, final(self).backend, readiness, final(inbound)@, result)]
                    readiness != EventReadiness::NoReverseEvents && result is Ok && pulled(
                        old(self).backend,
                        final(self).backend,
                        readiness,
                        final(inbound)@,
                        result,
                    ),
            },
            match drain {
                ReverseDrain::NoReverseEvents | ReverseDrain::WouldBlock => {
                    &&& final(self).state.counter(CounterKey::ReverseEventsReceived) == old(
                        self,
                    ).state.counter(CounterKey::ReverseEventsReceived)
                    &&& final(self).state.last_error == old(self).state.last_error
                    &&& final(self).state.last_backend_diagnostics == old(
                        self,
                    ).state.last_backend_diagnostics
                },
                ReverseDrain::Failed => {
                    &&& final(self).state.counter(CounterKey::ReverseEventsReceived) == old(
                        self,
                    ).state.counter(CounterKey::ReverseEventsReceived)
                    &&& final(self).state.last_error is Some
                    &&& final(self).state.last_backend_diagnostics is Some
                },
                ReverseDrain::Drained { count } => {
                    &&& count == final(inbound)@.len()
                    &&& final(self).state.counter(CounterKey::ReverseEventsReceived) == (if old(
                        self,
                    ).state.counter(CounterKey::ReverseEventsReceived) + count <= u64::MAX {
                        old(self).state.counter(CounterKey::ReverseEventsReceived) + count
                    } else {
                        u64::MAX as int
                    })
                    &&& final(self).state.last_error == old(self).state.last_error
                    &&& final(self).state.last_backend_diagnostics is Some
                },
            },
    {
        let ghost polled = self.backend;
        let readiness = self.backend.readiness();
        if let EventReadiness::NoReverseEvents = readiness {
            return ReverseDrain::NoReverseEvents;
        }
        let ghost ready = self.backend;
        inbound.clear();
        let drained = self.backend.drain_reverse_events(inbound);
        proof {
            assert(inbound@.subrange(0, 0) =~= Seq::<BackendReverseEvent>::empty());
            assert(inbound@.subrange(0, inbound@.len() as int) =~= inbound@);
            assert(S::readied(polled, ready, readiness));
            assert(pulled(polled, self.backend, readiness, inbound@, drained));
        }
        match drained {
            Ok(()) => {},
            Err(BackendError::WouldBlock) => {
                return ReverseDrain::WouldBlock;
            },
            Err(error) => {
                self.state.set_last_error(error.message());
                let diagnostics = self.backend.diagnostics();
                self.state.note_backend_diagnostics(diagnostics);
                return ReverseDrain::Failed;
            },
        }
        let count = inbound.len();
        let received = self.state.counter_value(CounterKey::ReverseEventsReceived);
        let room = u64::MAX - received;
        let added: u64 = if (count as u64) <= room {
            count as u64
        } else {
            room
        };
        self.state.increment_counter(CounterKey::ReverseEventsReceived, added);
        let diagnostics = self.backend.diagnostics();
        self.state.note_backend_diagnostics(diagnostics);
        assert(drained is Ok);
        assert(pulled(old(self).backend, self.backend, readiness, inbound@, drained));
        ReverseDrain::Drained { count }
    }

    /// Decode drained reverse events into output commands, in order, with
    /// the session's reverse translator when it has one. An event that
    /// fails to decode contributes nothing and its error becomes the
    /// session's last error; without a reverse translator nothing is
    /// decoded.
    pub fn translate_reverse_batch(
        &mut self,
        translators: &TranslatorRegistry,
        inbound: &Vec<BackendReverseEvent>,
    ) -> (commands: Vec<ControllerOutputCommand>)
        requires
            old(self).wf(),
        ensures
            final(self).wf(),
            final(self).state.lifecycle == old(self).state.lifecycle,
            final(self).state.session_id == old(self).state.session_id,
            forall|key: CounterKey| final(self).state.counter(key) == old(self).state.counter(key),
            final(self).state.last_backend_diagnostics == old(self).state.last_backend_diagnostics,
            final(self).input_queue == old(self).input_queue,
            final(self).reverse_queue == old(self).reverse_queue,
            final(self).translation_context == old(self).translation_context,
            reverse_translator_profile(old(self).translator_family) is None ==> commands@.len() == 0
                && final(self).state.last_error == old(self).state.last_error,
            batch_commands(
                old(self).translator_family,
                old(self).translation_context,
                inbound@,
                commands@,
            ),
    {
        let mut commands: Vec<ControllerOutputCommand> = Vec::new();
        let mut index: usize = 0;
        proof {
            assert(inbound@.subrange(0, 0) =~= Seq::<BackendReverseEvent>::empty());
        }
        while index < inbound.len()
            invariant
                index <= inbound@.len(),
                self.wf(),
                self.state.lifecycle == old(self).state.lifecycle,
                self.state.session_id == old(self).state.session_id,
                forall|key: CounterKey| self.state.counter(key) == old(self).state.counter(key),
                self.state.last_backend_diagnostics == old(self).state.last_backend_diagnostics,
                self.input_queue == old(self).input_queue,
                self.reverse_queue == old(self).reverse_queue,
                self.translation_context == old(self).translation_context,
                self.translator_family == old(self).translator_family,
                reverse_translator_profile(old(self).translator_family) is None ==> commands@.len()
                    == 0 && self.state.last_error == old(self).state.last_error,
                batch_commands(
                    self.translator_family,
                    self.translation_context,
                    inbound@.subrange(0, index as int),
                    commands@,
                ),
            decreases inbound@.len() - index,
        {
            let ghost before = commands@;
            let event = &inbound[index];
            let decoded = translate_reverse_event(
                translators,
                self.translator_family,
                event,
                &self.translation_context,
                &mut commands,
            );
            match decoded {
                Some(Err(error)) => {
                    self.state.set_last_error(error.message());
                },
                _ => {},
            }
            proof {
                let events = inbound@.subrange(0, index + 1);
                assert(events.drop_last() =~= inbound@.subrange(0, index as int));
                assert(events.last() == *event);
                assert(commands@.subrange(0, before.len() as int) == before);
                assert(batch_commands(
                    self.translator_family,
                    self.translation_context,
                    events.drop_last(),
                    commands@.subrange(0, before.len() as int),
                ));
            }
            index = index + 1;
        }
        proof {
            assert(inbound@.subrange(0, inbound@.len() as int) =~= inbound@);
        }
        commands
    }

    /// Offer output commands to the session's output queue in order under
    /// its backpressure policy, counting drops and raising the queue's
    /// high-water mark. The commands the policy makes wait for room come
    /// back, in order, to offer again once the queue drains.
    pub fn queue_output_commands(&mut self, commands: Vec<ControllerOutputCommand>) -> (waiting:
        Vec<ControllerOutputCommand>)
        requires
            old(self).wf(),
            old(self).state.counter(CounterKey::ReverseEventsDropped) + commands@.len() <= u64::MAX,
        ensures
            final(self).wf(),
            final(self).state.lifecycle == old(self).state.lifecycle,
            final(self).state.last_error == old(self).state.last_error,
            final(self).input_queue == old(self).input_queue,
            final(self).reverse_queue.spec_capacity() == old(self).reverse_queue.spec_capacity(),
            final(self).reverse_queue.is_closed() == old(self).reverse_queue.is_closed(),
            old(self).state.counter(CounterKey::ReverseEventsDropped) <= final(self).state.counter(
                CounterKey::ReverseEventsDropped,
            ) <= old(self).state.counter(CounterKey::ReverseEventsDropped) + commands@.len(),
            forall|key: CounterKey|
                key != CounterKey::ReverseEventsDropped && key != CounterKey::ReverseQueueDepthHwm
                    ==> final(self).state.counter(key) == old(self).state.counter(key),
            final(self).reverse_queue.items() == queued_items(
                old(self).reverse_queue.items(),
                old(self).reverse_queue.spec_capacity(),
                old(self).reverse_queue.is_closed(),
                commands@,
                old(self).backpressure_policy,
            ),
            waiting@ == waiting_commands(
                old(self).reverse_queue.items(),
                old(self).reverse_queue.spec_capacity(),
                old(self).reverse_queue.is_closed(),
                commands@,
                old(self).backpressure_policy,
            ),
    {
        let mut waiting: Vec<ControllerOutputCommand> = Vec::new();
        let ghost all = commands@;
        let total = commands.len();
        let mut remaining = commands;
        let mut index: usize = 0;
        while index < total
            invariant
                total == all.len(),
                index <= total,
                remaining@ == all.subrange(index as int, total as int),
                self.wf(),
                self.state.lifecycle == old(self).state.lifecycle,
                self.state.last_error == old(self).state.last_error,
                self.input_queue == old(self).input_queue,
                self.backpressure_policy == old(self).backpressure_policy,
                self.reverse_queue.spec_capacity() == old(self).reverse_queue.spec_capacity(),
                self.reverse_queue.is_closed() == old(self).reverse_queue.is_closed(),
                old(self).state.counter(CounterKey::ReverseEventsDropped) + total <= u64::MAX,
                old(self).state.counter(CounterKey::ReverseEventsDropped) <= self.state.counter(
                    CounterKey::ReverseEventsDropped,
                ) <= old(self).state.counter(CounterKey::ReverseEventsDropped) + index,
                forall|key: CounterKey|
                    key != CounterKey::ReverseEventsDropped && key
                        != CounterKey::ReverseQueueDepthHwm ==> self.state.counter(key) == old(
                        self,
                    ).state.counter(key),
                self.reverse_queue.items() == queued_items(
                    old(self).reverse_queue.items(),
                    old(self).reverse_queue.spec_capacity(),
                    old(self).reverse_queue.is_closed(),
                    all.subrange(0, index as int),
                    old(self).backpressure_policy,
                ),
                waiting@ == waiting_commands(
                    old(self).reverse_queue.items(),
                    old(self).reverse_queue.spec_capacity(),
                    old(self).reverse_queue.is_closed(),
                    all.subrange(0, index as int),
                    old(self).backpressure_policy,
                ),
            decreases total - index,
        {
            let command = remaining.remove(0);
            let ghost items_before = self.reverse_queue.items();
            let ghost waiting_before = waiting@;
            let admission = offer_output_command(
                &mut self.state,
                &mut self.reverse_queue,
                command,
                &self.backpressure_policy,
            );
            if let ReverseAdmission::MustWait(command) = admission {
                waiting.push(command);
            }
            proof {
                assert(all.subrange(0, index as int + 1).drop_last() =~= all.subrange(0, index as int));
                assert(all.subrange(0, index as int + 1).last() == all[index as int]);
                assert(remaining@ =~= all.subrange(index + 1, total as int));
            }
            index = index + 1;
        }
        assert(all.subrange(0, total as int) =~= all);
        waiting
    }
}

} // verus!
