//! The bookkeeping steps of a running session that tie its queues to its
//! counters: admitting an input frame, offering an output command under
//! backpressure, and recording failures, drained reverse events and sink
//! deliveries. The session runtime performs the waiting, I/O and delivery
//! around them.

use vstd::prelude::*;

use crate::inputs::ProfileInputFrame;
use crate::backend_api::BackendDiagnostics;
use crate::runtime_model::{BackpressurePolicy, SessionLifecycleState};
use crate::session::SessionSendError;
use crate::session_options::{
    compiled_from, AcceptedUpdateKind, CompiledSessionOptions, ConfigBackpressurePolicy, SessionConfig,
};
use crate::session_queues::{
    accepts, lemma_reverse_backpressure, out_of_order, out_of_order_reason, refused_with,
    spec_enqueue, spec_offer,
    validate_delta_policy, validate_frame_policy, InputAdmission, InputQueue, ReverseAdmission, ReverseQueue,
};
use crate::session_state::{spec_is_closed, CounterKey, SessionState};

verus! {

/// The counters an admission outcome leaves: coalescing counts a frame,
/// and the depth raises the input high-water mark.
pub open spec fn counters_after_input(
    before: SessionState,
    after: SessionState,
    admission: InputAdmission,
) -> bool {
    &&& after.counter(CounterKey::FramesCoalesced) == before.counter(CounterKey::FramesCoalesced)
        + (if admission.coalesced {
        1int
    } else {
        0int
    })
    &&& after.counter(CounterKey::InputQueueDepthHwm) == (if (admission.depth as u64)
        > before.counter(CounterKey::InputQueueDepthHwm) {
        admission.depth as u64
    } else {
        before.counter(CounterKey::InputQueueDepthHwm)
    })
}

/// What submitting `frame` does to a session's state and input queue, and
/// what it answers: refused once the session is closing, refused by the
/// input policy, otherwise recorded and queued.
pub open spec fn submission_outcome(
    before: SessionState,
    after: SessionState,
    items_before: Seq<ProfileInputFrame>,
    capacity: nat,
    closed: bool,
    items_after: Seq<ProfileInputFrame>,
    accepted: Seq<AcceptedUpdateKind>,
    require_monotonic: bool,
    frame: ProfileInputFrame,
    result: Result<(), SessionSendError>,
) -> bool {
    let open = !spec_is_closed(before.lifecycle);
    let frames_accepted = accepts(accepted, AcceptedUpdateKind::Frame);
    let in_order = !out_of_order(require_monotonic, before.last_sequence, frame.sequence);
    &&& after.lifecycle == before.lifecycle
    &&& !open ==> {
        &&& result == Err::<(), SessionSendError>(SessionSendError::SessionClosed)
        &&& items_after == items_before
        &&& after.last_sequence == before.last_sequence
        &&& forall|key: CounterKey| after.counter(key) == before.counter(key)
    }
    &&& open && !frames_accepted ==> {
        &&& refused_with(result, "compiled session options reject full-frame updates"@)
        &&& items_after == items_before
        &&& after.last_sequence == before.last_sequence
    }
    &&& open && frames_accepted && !in_order ==> {
        &&& refused_with(result, out_of_order_reason(frame.sequence))
        &&& items_after == items_before
        &&& after.last_sequence == before.last_sequence
    }
    &&& open && frames_accepted && in_order ==> {
        let (items, outcome) = spec_enqueue(items_before, capacity, closed, frame);
        &&& after.last_payload == Some(frame.payload)
        &&& after.last_sequence == Some(frame.sequence)
        &&& after.counter(CounterKey::FramesReceived) == before.counter(CounterKey::FramesReceived)
            + 1
        &&& items_after == items
        &&& match outcome {
            Ok(admission) => result is Ok && counters_after_input(before, after, admission),
            Err(error) => result == Err::<(), SessionSendError>(error),
        }
    }
}

/// Submit a full input frame to a session: refused once the session is
/// closing, refused by the input policy (full frames must be accepted,
/// sequences in order when required), otherwise recorded as the delta
/// baseline and queued, coalescing into the newest frame when the queue is
/// full.
pub fn submit_frame(
    state: &mut SessionState,
    queue: &mut InputQueue<ProfileInputFrame>,
    accepted: &[AcceptedUpdateKind],
    require_monotonic: bool,
    frame: ProfileInputFrame,
) -> (result: Result<(), SessionSendError>)
    requires
        old(state).wf(),
        old(queue).wf(),
        old(state).counter(CounterKey::FramesReceived) < u64::MAX,
        old(state).counter(CounterKey::FramesCoalesced) < u64::MAX,
    ensures
        final(state).wf(),
        final(queue).wf(),
        final(queue).spec_capacity() == old(queue).spec_capacity(),
        final(queue).is_closed() == old(queue).is_closed(),
        submission_outcome(
            *old(state),
            *final(state),
            old(queue).items(),
            old(queue).spec_capacity(),
            old(queue).is_closed(),
            final(queue).items(),
            accepted@,
            require_monotonic,
            frame,
            result,
        ),
{
    if state.is_closed() {
        return Err(SessionSendError::SessionClosed);
    }
    let verdict = validate_frame_policy(
        accepted,
        require_monotonic,
        state.last_sequence,
        true,
        frame.sequence,
    );
    if let Err(error) = verdict {
        return Err(error);
    }
    state.note_frame_submission(&frame);
    match queue.enqueue(frame) {
        Ok(admission) => {
            if admission.coalesced {
                state.increment_counter(CounterKey::FramesCoalesced, 1);
            }
            state.observe_hwm(CounterKey::InputQueueDepthHwm, admission.depth);
            Ok(())
        },
        Err(error) => Err(error),
    }
}

/// Offer one output command to the session's reverse queue under its
/// backpressure policy, counting a dropped command and raising the
/// reverse high-water mark. A `MustWait` admission hands the command back
/// to offer again once the queue drains.
pub fn offer_output_command<T>(
    state: &mut SessionState,
    queue: &mut ReverseQueue<T>,
    command: T,
    policy: &BackpressurePolicy,
) -> (admission: ReverseAdmission<T>)
    requires
        old(state).wf(),
        old(queue).wf(),
        old(state).counter(CounterKey::ReverseEventsDropped) < u64::MAX,
    ensures
        final(state).wf(),
        final(queue).wf(),
        (final(queue).items(), admission) == spec_offer(
            old(queue).items(),
            old(queue).spec_capacity(),
            old(queue).is_closed(),
            command,
            *policy,
        ),
        final(state).counter(CounterKey::ReverseEventsDropped) == old(state).counter(
            CounterKey::ReverseEventsDropped,
        ) + (if admission is Dropped || admission is ReplacedOldest {
            1int
        } else {
            0int
        }),
        final(state).counter(CounterKey::ReverseQueueDepthHwm) == match admission {
            ReverseAdmission::Enqueued { depth } | ReverseAdmission::ReplacedOldest { depth } =>
                if (depth as u64) > old(state).counter(CounterKey::ReverseQueueDepthHwm) {
                depth as u64
            } else {
                old(state).counter(CounterKey::ReverseQueueDepthHwm)
            },
            _ => old(state).counter(CounterKey::ReverseQueueDepthHwm),
        },
        forall|key: CounterKey|
            key != CounterKey::ReverseEventsDropped && key != CounterKey::ReverseQueueDepthHwm
                ==> final(state).counter(key) == old(state).counter(key),
        final(state).lifecycle == old(state).lifecycle,
        final(state).last_error == old(state).last_error,
        final(state).session_id == old(state).session_id,
        final(state).last_backend_diagnostics == old(state).last_backend_diagnostics,
        final(queue).spec_capacity() == old(queue).spec_capacity(),
        final(queue).is_closed() == old(queue).is_closed(),
{
    let admission = queue.offer(command, policy);
    let dropped = admission.dropped_count();
    if dropped > 0 {
        state.increment_counter(CounterKey::ReverseEventsDropped, dropped);
    }
    if let Some(depth) = admission.observed_depth() {
        state.observe_hwm(CounterKey::ReverseQueueDepthHwm, depth);
    }
    admission
}

/// Record that translating or sending a frame failed: the error becomes
/// the last error, the write failure is counted, the session is marked
/// failed and its reverse queue stops taking commands.
pub fn fail_session<T>(state: &mut SessionState, reverse_queue: &mut ReverseQueue<T>, error: String)
    requires
        old(state).wf(),
        old(reverse_queue).wf(),
        old(state).counter(CounterKey::WriteFailures) < u64::MAX,
    ensures
        final(state).wf(),
        final(reverse_queue).wf(),
        final(state).last_error == Some(error),
        final(state).counter(CounterKey::WriteFailures) == old(state).counter(
            CounterKey::WriteFailures,
        ) + 1,
        forall|key: CounterKey|
            key != CounterKey::WriteFailures ==> final(state).counter(key) == old(state).counter(
                key,
            ),
        final(state).lifecycle == SessionLifecycleState::Failed,
        final(reverse_queue).is_closed(),
        final(reverse_queue).items() == old(reverse_queue).items(),
{
    state.set_last_error(error);
    state.increment_counter(CounterKey::WriteFailures, 1);
    state.set_state(SessionLifecycleState::Failed);
    reverse_queue.close();
}

/// Record a batch of reverse events drained from the backend, with the
/// diagnostics it reported alongside.
pub fn note_reverse_batch(state: &mut SessionState, count: usize, diagnostics: BackendDiagnostics)
    requires
        old(state).wf(),
        old(state).counter(CounterKey::ReverseEventsReceived) + count <= u64::MAX,
    ensures
        final(state).wf(),
        final(state).counter(CounterKey::ReverseEventsReceived) == old(state).counter(
            CounterKey::ReverseEventsReceived,
        ) + count,
        forall|key: CounterKey|
            key != CounterKey::ReverseEventsReceived ==> final(state).counter(key) == old(
                state,
            ).counter(key),
        final(state).last_backend_diagnostics == Some(diagnostics),
        final(state).lifecycle == old(state).lifecycle,
        final(state).last_error == old(state).last_error,
{
    state.increment_counter(CounterKey::ReverseEventsReceived, count as u64);
    state.note_backend_diagnostics(diagnostics);
}

/// The last error recorded when an output sink fails and is detached.
pub open spec fn detached_sink_error() -> Seq<char> {
    "output sink panicked; detaching subscription"@
}

/// Record one delivery of an output command to a sink: a successful one
/// counts an emitted reverse event, a failed one records that the sink was
/// detached.
pub fn record_delivery(state: &mut SessionState, delivered: bool)
    requires
        old(state).wf(),
        old(state).counter(CounterKey::ReverseEventsEmitted) < u64::MAX,
    ensures
        final(state).wf(),
        final(state).counter(CounterKey::ReverseEventsEmitted) == old(state).counter(
            CounterKey::ReverseEventsEmitted,
        ) + (if delivered {
            1int
        } else {
            0int
        }),
        forall|key: CounterKey|
            key != CounterKey::ReverseEventsEmitted ==> final(state).counter(key) == old(
                state,
            ).counter(key),
        delivered ==> final(state).last_error == old(state).last_error,
        !delivered ==> (final(state).last_error matches Some(text) && text@ == detached_sink_error()),
        final(state).lifecycle == old(state).lifecycle,
{
    if delivered {
        state.increment_counter(CounterKey::ReverseEventsEmitted, 1);
    } else {
        state.set_last_error(String::from_str("output sink panicked; detaching subscription"));
    }
}

/// Check a delta update before it is applied to the session's last full
/// frame: refused once the session is closing, refused by the input policy
/// (deltas must be accepted, sequences in order when required), and
/// refused while no full frame has been submitted to apply it to.
pub fn check_delta_submission(
    state: &SessionState,
    accepted: &[AcceptedUpdateKind],
    require_monotonic: bool,
    sequence: u64,
) -> (result: Result<(), SessionSendError>)
    ensures
        spec_is_closed(state.lifecycle) ==> result == Err::<(), SessionSendError>(
            SessionSendError::SessionClosed,
        ),
        !spec_is_closed(state.lifecycle) && !accepts(accepted@, AcceptedUpdateKind::Delta)
            ==> refused_with(result, "compiled session options reject delta updates"@),
        !spec_is_closed(state.lifecycle) && accepts(accepted@, AcceptedUpdateKind::Delta) && out_of_order(
            require_monotonic,
            state.last_sequence,
            sequence,
        ) ==> refused_with(result, out_of_order_reason(sequence)),
        !spec_is_closed(state.lifecycle) && accepts(accepted@, AcceptedUpdateKind::Delta) && !out_of_order(
            require_monotonic,
            state.last_sequence,
            sequence,
        ) && state.last_payload is None ==> refused_with(
            result,
            "cannot apply delta before a baseline full frame has been submitted"@,
        ),
        !spec_is_closed(state.lifecycle) && accepts(accepted@, AcceptedUpdateKind::Delta) && !out_of_order(
            require_monotonic,
            state.last_sequence,
            sequence,
        ) && state.last_payload is Some ==> result is Ok,
{
    if state.is_closed() {
        return Err(SessionSendError::SessionClosed);
    }
    match validate_delta_policy(accepted, require_monotonic, state.last_sequence, sequence) {
        Err(error) => {
            return Err(error);
        },
        Ok(()) => {},
    }
    match &state.last_payload {
        None => Err(
            SessionSendError::InvalidInput {
                reason: String::from_str("cannot apply delta before a baseline full frame has been submitted"),
            },
        ),
        Some(_) => Ok(()),
    }
}

/// The output queue's backpressure law for one offered command: the queue
/// never exceeds its capacity; a closed queue discards the command; a queue
/// of capacity zero drops it; a queue with room appends it; a full queue
/// drops it under drop-newest, drops the oldest and appends it under
/// drop-oldest, and hands it back to wait under block-producer. The
/// dropped-command count rises by one exactly when a command was dropped.
pub open spec fn backpressure_law<T>(
    items: Seq<T>,
    capacity: nat,
    closed: bool,
    command: T,
    policy: BackpressurePolicy,
    after: Seq<T>,
    admission: ReverseAdmission<T>,
    dropped_before: int,
    dropped_after: int,
) -> bool {
    &&& after.len() <= capacity
    &&& closed ==> after == items && admission is Closed && dropped_after == dropped_before
    &&& !closed && capacity == 0 ==> after == items && dropped_after == dropped_before + 1
    &&& !closed && 0 < capacity && items.len() < capacity ==> after == items.push(command)
        && dropped_after == dropped_before
    &&& !closed && 0 < capacity && items.len() == capacity ==> match policy {
        BackpressurePolicy::DropNewest { .. } => after == items && dropped_after == dropped_before + 1,
        BackpressurePolicy::DropOldest { .. } => after == items.drop_first().push(command)
            && dropped_after == dropped_before + 1,
        BackpressurePolicy::BlockProducer { .. } => after == items && admission
            == ReverseAdmission::MustWait(command) && dropped_after == dropped_before,
    }
}

/// Offering a command as [`offer_output_command`] does, to a queue within
/// its capacity, obeys the backpressure law, dropped-command count
/// included.
pub proof fn lemma_output_backpressure<T>(
    items: Seq<T>,
    capacity: nat,
    closed: bool,
    command: T,
    policy: BackpressurePolicy,
    after: Seq<T>,
    admission: ReverseAdmission<T>,
    dropped_before: int,
    dropped_after: int,
)
    requires
        items.len() <= capacity,
        (after, admission) == spec_offer(items, capacity, closed, command, policy),
        dropped_after == dropped_before + (if admission is Dropped || admission is ReplacedOldest {
            1int
        } else {
            0int
        }),
    ensures
        backpressure_law(items, capacity, closed, command, policy, after, admission, dropped_before, dropped_after),
{
    lemma_reverse_backpressure(items, capacity, closed, command, policy);
}

/// Compiling a configuration keeps its backpressure choice: the compiled
/// policy is the configured one (drop-newest, drop-oldest or
/// block-producer) with the configured drop-logging flag and queue-depth
/// limit. So under a configured block-producer policy a full, open output
/// queue never drops a command: it hands it back to wait and stays as it
/// was; under drop-newest and drop-oldest it drops one.
pub proof fn lemma_compiled_backpressure_keeps_configuration<T>(
    config: SessionConfig,
    options: CompiledSessionOptions,
    items: Seq<T>,
    command: T,
)
    requires
        compiled_from(config, options),
    ensures
        ({
            let section = config.output_handling;
            let log_dropped_outputs = section.log_dropped_outputs;
            let max_queue_depth = section.max_queue_depth;
            match section.backpressure_policy {
                ConfigBackpressurePolicy::DropNewest => options.backpressure_policy
                    == BackpressurePolicy::DropNewest { log_dropped_outputs, max_queue_depth },
                ConfigBackpressurePolicy::DropOldest => options.backpressure_policy
                    == BackpressurePolicy::DropOldest { log_dropped_outputs, max_queue_depth },
                ConfigBackpressurePolicy::BlockProducer => options.backpressure_policy
                    == BackpressurePolicy::BlockProducer { log_dropped_outputs, max_queue_depth },
            }
        }),
        items.len() > 0 ==> ({
            let (after, admission) = spec_offer(
                items,
                items.len(),
                false,
                command,
                options.backpressure_policy,
            );
            &&& config.output_handling.backpressure_policy == ConfigBackpressurePolicy::BlockProducer
                ==> after == items && admission == ReverseAdmission::MustWait(command)
            &&& config.output_handling.backpressure_policy != ConfigBackpressurePolicy::BlockProducer
                ==> (admission is Dropped || admission is ReplacedOldest)
        }),
{
    if items.len() > 0 {
        lemma_reverse_backpressure(items, items.len(), false, command, options.backpressure_policy);
    }
}

} // verus!
