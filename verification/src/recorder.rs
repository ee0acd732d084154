//! Recording a backend session into a trace, and replaying a trace as a
//! backend session.
//!
//! A replayed session reproduces the recorded order: `send` consumes the
//! next step, which must be the same forward frame; `drain_reverse_events`
//! consumes the leading run of reverse events (stopping at, and reporting,
//! a recorded drain failure).

use std::collections::BTreeMap;
use std::collections::VecDeque;
use vstd::prelude::*;

use crate::backend_api::{
    same_frame, spec_frame_kind, BackendDiagnostics, BackendError, BackendFrame, BackendReverseEvent,
    BackendSession, BackendState, EventReadiness,
};
use crate::fake_backend::{copy_reverse_event, same_reverse_event};
use crate::runtime_model::BackendFamily;
use crate::testkit::{
    spec_frame_of_payload, spec_kind_label, spec_payload_of_frame, BackendTrace,
    BackendTracePayload, BackendTraceStep, TraceDirection, TraceOperation,
};

verus! {

// ---------------------------------------------------------------------
// Recording
// ---------------------------------------------------------------------

/// A backend session whose operations are recorded as trace steps.
pub struct TraceRecorder<B: BackendSession> {
    pub inner: B,
    pub steps: Vec<BackendTraceStep>,
}

/// Start recording a session.
pub fn record<B: BackendSession>(inner: B) -> (recorder: TraceRecorder<B>)
    ensures
        recorder.inner == inner,
        recorder.steps@.len() == 0,
{
    TraceRecorder { inner, steps: Vec::new() }
}

/// The step a failed operation is recorded as.
pub open spec fn failure_step(operation: TraceOperation, error: BackendError, step: BackendTraceStep) -> bool {
    &&& step.direction == TraceDirection::Error
    &&& step.payload matches BackendTracePayload::Failure { operation: op, error: text } && op
        == operation && text@ == error.spec_message()
}

/// The steps a successful drain of `events` is recorded as.
pub open spec fn inbound_steps(steps: Seq<BackendTraceStep>, events: Seq<BackendReverseEvent>) -> bool {
    &&& steps.len() == events.len()
    &&& forall|i: int|
        0 <= i < events.len() ==> {
            &&& (#[trigger] steps[i]).direction == TraceDirection::Inbound
            &&& steps[i].payload matches BackendTracePayload::ReverseEvent { event } && same_reverse_event(
                event,
                events[i],
            )
        }
}

fn failure(operation: TraceOperation, error: &BackendError) -> (step: BackendTraceStep)
    ensures
        failure_step(operation, *error, step),
{
    BackendTraceStep {
        direction: TraceDirection::Error,
        payload: BackendTracePayload::Failure { operation, error: error.message() },
    }
}

impl<B: BackendSession> TraceRecorder<B> {
    /// The recorded trace, stamped with the inner session's backend
    /// identity.
    pub fn into_trace(self) -> (trace: BackendTrace)
        ensures
            trace.steps == self.steps,
            trace.backend_id is Some,
            trace.family is Some,
            trace.transport is None,
    {
        let diagnostics = self.inner.diagnostics();
        BackendTrace {
            backend_id: Some(diagnostics.backend_id),
            family: Some(diagnostics.family),
            transport: None,
            steps: self.steps,
        }
    }
}

impl<B: BackendSession> BackendSession for TraceRecorder<B> {
    open spec fn can_continue(&self) -> bool {
        self.inner.can_continue()
    }

    open spec fn spec_session_id(&self) -> u64 {
        self.inner.spec_session_id()
    }

    /// The inner session started as it answered; a failure is recorded.
    open spec fn opened(before: Self, after: Self, result: Result<(), BackendError>) -> bool {
        &&& B::opened(before.inner, after.inner, result)
        &&& match result {
            Ok(()) => after.steps@ == before.steps@,
            Err(error) => after.steps@.len() == before.steps@.len() + 1 && after.steps@.drop_last()
                == before.steps@ && failure_step(TraceOperation::Open, error, after.steps@.last()),
        }
    }

    /// The inner session sent as it answered; a sent frame is recorded
    /// outbound, a failure as a send failure.
    open spec fn sent(before: Self, after: Self, frame: BackendFrame, result: Result<(), BackendError>) -> bool {
        &&& exists|copy: BackendFrame|
            #![trigger B::sent(before.inner, after.inner, copy, result)]
            same_frame(copy, frame) && B::sent(before.inner, after.inner, copy, result)
        &&& match result {
            Ok(()) => after.steps@ == before.steps@.push(
                BackendTraceStep {
                    direction: TraceDirection::Outbound,
                    payload: spec_payload_of_frame(frame),
                },
            ),
            Err(error) => after.steps@.len() == before.steps@.len() + 1 && after.steps@.drop_last()
                == before.steps@ && failure_step(TraceOperation::Send, error, after.steps@.last()),
        }
    }

    /// The inner session drained as it answered, and what it handed out is
    /// handed on and recorded inbound; a failure hands on nothing and is
    /// recorded.
    open spec fn drained(
        before: Self,
        after: Self,
        handed: Seq<BackendReverseEvent>,
        result: Result<(), BackendError>,
    ) -> bool {
        &&& exists|inner_handed: Seq<BackendReverseEvent>|
            #![trigger B::drained(before.inner, after.inner, inner_handed, result)]
            B::drained(before.inner, after.inner, inner_handed, result) && (result is Ok ==> handed
                == inner_handed)
        &&& match result {
            Ok(()) => {
                &&& after.steps@.len() == before.steps@.len() + handed.len()
                &&& after.steps@.subrange(0, before.steps@.len() as int) == before.steps@
                &&& inbound_steps(
                    after.steps@.subrange(before.steps@.len() as int, after.steps@.len() as int),
                    handed,
                )
            },
            Err(error) => handed.len() == 0 && after.steps@.len() == before.steps@.len() + 1
                && after.steps@.drop_last() == before.steps@ && failure_step(
                TraceOperation::DrainReverseEvents,
                error,
                after.steps@.last(),
            ),
        }
    }

    /// The inner session answered; nothing is recorded.
    open spec fn readied(before: Self, after: Self, readiness: EventReadiness) -> bool {
        B::readied(before.inner, after.inner, readiness) && after.steps == before.steps
    }

    /// The inner session closed as it answered; a failure is recorded.
    open spec fn closed_with(before: Self, after: Self, result: Result<(), BackendError>) -> bool {
        &&& B::closed_with(before.inner, after.inner, result)
        &&& match result {
            Ok(()) => after.steps@ == before.steps@,
            Err(error) => after.steps@.len() == before.steps@.len() + 1 && after.steps@.drop_last()
                == before.steps@ && failure_step(TraceOperation::Close, error, after.steps@.last()),
        }
    }

    /// The inner session's ID.
    fn session_id(&self) -> (id: u64) {
        self.inner.session_id()
    }

    /// Open the inner session; a failure is recorded.
    fn open(&mut self) -> (result: Result<(), BackendError>)
        ensures
            match result {
                Ok(()) => final(self).steps@ == old(self).steps@,
                Err(error) => final(self).steps@.len() == old(self).steps@.len() + 1
                    && final(self).steps@.drop_last() == old(self).steps@ && failure_step(
                    TraceOperation::Open,
                    error,
                    final(self).steps@.last(),
                ),
            },
    {
        let result = self.inner.open();
        if let Err(error) = &result {
            self.steps.push(failure(TraceOperation::Open, error));
            assert(self.steps@.drop_last() =~= old(self).steps@);
        }
        result
    }

    /// Send a frame through the inner session; a sent frame is recorded
    /// outbound, a failure as a send failure.
    fn send(&mut self, frame: BackendFrame) -> (result: Result<(), BackendError>)
        ensures
            match result {
                Ok(()) => final(self).steps@ == old(self).steps@.push(
                    BackendTraceStep {
                        direction: TraceDirection::Outbound,
                        payload: spec_payload_of_frame(frame),
                    },
                ),
                Err(error) => final(self).steps@.len() == old(self).steps@.len() + 1
                    && final(self).steps@.drop_last() == old(self).steps@ && failure_step(
                    TraceOperation::Send,
                    error,
                    final(self).steps@.last(),
                ),
            },
    {
        let copy = frame.copy();
        let ghost sent_copy = copy;
        let result = self.inner.send(copy);
        proof {
            assert(B::sent(old(self).inner, self.inner, sent_copy, result));
        }
        match &result {
            Ok(()) => {
                self.steps.push(
                    BackendTraceStep {
                        direction: TraceDirection::Outbound,
                        payload: BackendTracePayload::from_frame(frame),
                    },
                );
            },
            Err(error) => {
                self.steps.push(failure(TraceOperation::Send, error));
                assert(self.steps@.drop_last() =~= old(self).steps@);
            },
        }
        assert(same_frame(sent_copy, frame));
        assert(B::sent(old(self).inner, self.inner, sent_copy, result));
        result
    }

    /// Drain the inner session; each drained event is recorded inbound and
    /// handed on, a failure is recorded as a drain failure.
    fn drain_reverse_events(&mut self, out: &mut Vec<BackendReverseEvent>) -> (result: Result<
        (),
        BackendError,
    >)
        ensures
            match result {
                Ok(()) => {
                    let added = (final(self).steps@.len() - old(self).steps@.len()) as nat;
                    &&& final(self).steps@.len() >= old(self).steps@.len()
                    &&& final(self).steps@.subrange(0, old(self).steps@.len() as int)
                        == old(self).steps@
                    &&& final(out)@.len() == old(out)@.len() + added
                    &&& final(out)@.subrange(0, old(out)@.len() as int) == old(out)@
                    &&& inbound_steps(
                        final(self).steps@.subrange(
                            old(self).steps@.len() as int,
                            final(self).steps@.len() as int,
                        ),
                        final(out)@.subrange(old(out)@.len() as int, final(out)@.len() as int),
                    )
                },
                Err(error) => final(out)@ == old(out)@ && final(self).steps@.len()
                    == old(self).steps@.len() + 1 && final(self).steps@.drop_last() == old(
                    self,
                ).steps@ && failure_step(
                    TraceOperation::DrainReverseEvents,
                    error,
                    final(self).steps@.last(),
                ),
            },
    {
        let mut captured: Vec<BackendReverseEvent> = Vec::new();
        let result = self.inner.drain_reverse_events(&mut captured);
        let ghost inner_handed = captured@;
        let ghost inner_after = self.inner;
        proof {
            assert(captured@.subrange(0, 0) =~= Seq::<BackendReverseEvent>::empty());
            assert(captured@.subrange(0, captured@.len() as int) =~= captured@);
        }
        match &result {
            Ok(()) => {
                let ghost steps0 = self.steps@;
                let mut index: usize = 0;
                while index < captured.len()
                    invariant
                        index <= captured@.len(),
                        captured@ == inner_handed,
                        steps0 == old(self).steps@,
                        self.inner == inner_after,
                        self.steps@.len() == steps0.len() + index,
                        self.steps@.subrange(0, steps0.len() as int) == steps0,
                        inbound_steps(
                            self.steps@.subrange(steps0.len() as int, self.steps@.len() as int),
                            captured@.subrange(0, index as int),
                        ),
                    decreases captured@.len() - index,
                {
                    let recorded = copy_reverse_event(&captured[index]);
                    let ghost before_steps = self.steps@;
                    self.steps.push(
                        BackendTraceStep {
                            direction: TraceDirection::Inbound,
                            payload: BackendTracePayload::ReverseEvent { event: recorded },
                        },
                    );
                    index = index + 1;
                    proof {
                        assert(self.steps@.subrange(0, steps0.len() as int) =~= steps0);
                        let new_steps = self.steps@.subrange(
                            steps0.len() as int,
                            self.steps@.len() as int,
                        );
                        let old_steps = before_steps.subrange(
                            steps0.len() as int,
                            before_steps.len() as int,
                        );
                        let events = captured@.subrange(0, index as int);
                        let old_events = captured@.subrange(0, index - 1);
                        assert(new_steps =~= old_steps.push(self.steps@.last()));
                        assert(events =~= old_events.push(captured@[index - 1]));
                        assert forall|i: int| 0 <= i < events.len() implies {
                            &&& (#[trigger] new_steps[i]).direction == TraceDirection::Inbound
                            &&& new_steps[i].payload matches BackendTracePayload::ReverseEvent {
                                event,
                            } && same_reverse_event(event, events[i])
                        } by {
                            if i < old_events.len() {
                                assert(new_steps[i] == old_steps[i]);
                                assert(events[i] == old_events[i]);
                            }
                        }
                    }
                }
                let ghost out0 = out@;
                assert(captured@.subrange(0, captured@.len() as int) =~= inner_handed);
                assert(inbound_steps(
                    self.steps@.subrange(steps0.len() as int, self.steps@.len() as int),
                    inner_handed,
                ));
                out.append(&mut captured);
                proof {
                    assert(out@.subrange(0, out0.len() as int) =~= out0);
                    assert(out@.subrange(out0.len() as int, out@.len() as int) =~= inner_handed);
                    assert(inner_handed.subrange(0, inner_handed.len() as int) =~= inner_handed);
                    assert(B::drained(old(self).inner, self.inner, inner_handed, result));
                }
                result
            },
            Err(error) => {
                self.steps.push(failure(TraceOperation::DrainReverseEvents, error));
                assert(self.steps@.drop_last() =~= old(self).steps@);
                assert(out@.subrange(0, out@.len() as int) =~= out@);
                assert(B::drained(old(self).inner, self.inner, inner_handed, result));
                result
            },
        }
    }

    fn readiness(&mut self) -> (readiness: EventReadiness) {
        self.inner.readiness()
    }

    fn diagnostics(&self) -> BackendDiagnostics {
        self.inner.diagnostics()
    }

    /// Close the inner session; a failure is recorded.
    fn close(&mut self) -> (result: Result<(), BackendError>)
        ensures
            match result {
                Ok(()) => final(self).steps@ == old(self).steps@,
                Err(error) => final(self).steps@.len() == old(self).steps@.len() + 1
                    && final(self).steps@.drop_last() == old(self).steps@ && failure_step(
                    TraceOperation::Close,
                    error,
                    final(self).steps@.last(),
                ),
            },
    {
        let result = self.inner.close();
        if let Err(error) = &result {
            self.steps.push(failure(TraceOperation::Close, error));
            assert(self.steps@.drop_last() =~= old(self).steps@);
        }
        result
    }
}

// ---------------------------------------------------------------------
// Replay
// ---------------------------------------------------------------------

/// A recorded trace, ready to be replayed as sessions.
#[derive(Debug, Clone)]
pub struct ReplayBackend {
    pub trace: BackendTrace,
}

/// Replay a trace.
pub fn replay(trace: BackendTrace) -> (backend: ReplayBackend)
    ensures
        backend.trace == trace,
{
    ReplayBackend { trace }
}

/// A session that replays a trace's steps in order.
#[derive(Debug)]
pub struct ReplayBackendSession {
    pub session_id: u64,
    pub backend_id: String,
    pub family: BackendFamily,
    pub remaining: VecDeque<BackendTraceStep>,
    pub frames_sent: u64,
    pub reverse_events_drained: u64,
    pub closed: bool,
}

impl ReplayBackend {
    /// A session replaying the whole trace, reporting the recorded backend
    /// identity (`replay-backend` on Linux UHID when none was recorded).
    pub fn session(self, session_id: u64) -> (session: ReplayBackendSession)
        ensures
            session.session_id == session_id,
            session.backend_id@ == match self.trace.backend_id {
                Some(id) => id@,
                None => "replay-backend"@,
            },
            session.family == match self.trace.family {
                Some(family) => family,
                None => BackendFamily::LinuxUhid,
            },
            session.remaining@ == self.trace.steps@,
            session.frames_sent == 0,
            session.reverse_events_drained == 0,
            !session.closed,
    {
        let backend_id = match self.trace.backend_id {
            Some(id) => id,
            None => String::from_str("replay-backend"),
        };
        let family = match self.trace.family {
            Some(family) => family,
            None => BackendFamily::LinuxUhid,
        };
        let mut remaining: VecDeque<BackendTraceStep> = VecDeque::new();
        let mut pending = self.trace.steps;
        let ghost all = pending@;
        while pending.len() > 0
            invariant
                pending@.len() <= all.len(),
                pending@ == all.subrange(0, pending@.len() as int),
                remaining@ == all.subrange(pending@.len() as int, all.len() as int),
            decreases pending@.len(),
        {
            let ghost before = pending@;
            let step = pending.pop().unwrap();
            assert(step == all[pending@.len() as int]);
            remaining.push_front(step);
            assert(pending@ =~= all.subrange(0, pending@.len() as int));
            assert(remaining@ =~= all.subrange(pending@.len() as int, all.len() as int));
        }
        assert(remaining@ =~= all);
        ReplayBackendSession {
            session_id,
            backend_id,
            family,
            remaining,
            frames_sent: 0,
            reverse_events_drained: 0,
            closed: false,
        }
    }
}

/// The number of reverse-event steps at the front of `steps`.
pub open spec fn leading_reverse_run(steps: Seq<BackendTraceStep>) -> nat
    decreases steps.len(),
{
    if steps.len() > 0 && steps[0].payload is ReverseEvent {
        1 + leading_reverse_run(steps.drop_first())
    } else {
        0
    }
}

/// A recorded drain failure.
pub open spec fn is_drain_failure(step: BackendTraceStep) -> bool {
    step.payload matches BackendTracePayload::Failure { operation, .. } && operation
        == TraceOperation::DrainReverseEvents
}

/// The reason a send is refused with when the next recorded step is not
/// the same frame.
pub open spec fn send_mismatch_reason(step: BackendTraceStep, frame: BackendFrame) -> Seq<char> {
    "replay expected next operation to be `"@ + spec_kind_label(step.payload) + "`, got send("@
        + spec_frame_kind(frame)
        + "); drain reverse events first if the trace interleaves them"@
}

/// The reason a send is refused with when the next recorded step is a
/// frame kind the recorder did not know.
pub open spec fn unsupported_step_reason(frame_kind: Seq<char>) -> Seq<char> {
    "recorded trace step is unsupported frame variant `"@ + frame_kind + "`"@
}

/// The reverse-event steps at the front of `steps` carry `events`.
pub open spec fn replayed_events(steps: Seq<BackendTraceStep>, events: Seq<BackendReverseEvent>) -> bool {
    &&& events.len() <= steps.len()
    &&& forall|i: int|
        0 <= i < events.len() ==> ((#[trigger] steps[i]).payload matches BackendTracePayload::ReverseEvent {
            event,
        } && same_reverse_event(events[i], event))
}

proof fn lemma_run_steps_are_reverse(steps: Seq<BackendTraceStep>, i: int)
    requires
        0 <= i < leading_reverse_run(steps),
    ensures
        i < steps.len(),
        steps[i].payload is ReverseEvent,
    decreases steps.len(),
{
    if i > 0 {
        lemma_run_steps_are_reverse(steps.drop_first(), i - 1);
    }
}

proof fn lemma_run_bounded(steps: Seq<BackendTraceStep>)
    ensures
        leading_reverse_run(steps) <= steps.len(),
    decreases steps.len(),
{
    if steps.len() > 0 && steps[0].payload is ReverseEvent {
        lemma_run_bounded(steps.drop_first());
    }
}

impl ReplayBackendSession {
    /// The next recorded step, without consuming it.
    pub fn peek_next_step(&self) -> (next: Option<&BackendTraceStep>)
        ensures
            self.remaining@.len() == 0 ==> next is None,
            self.remaining@.len() > 0 ==> (next matches Some(step) && *step == self.remaining@[0]),
    {
        if self.remaining.len() == 0 {
            None
        } else {
            Some(&self.remaining[0])
        }
    }
}

impl BackendSession for ReplayBackendSession {
    /// The counters can take every remaining step.
    open spec fn can_continue(&self) -> bool {
        &&& self.frames_sent < u64::MAX
        &&& self.reverse_events_drained + self.remaining@.len() <= u64::MAX
    }

    open spec fn spec_session_id(&self) -> u64 {
        self.session_id
    }

    /// Starting always succeeds and changes nothing.
    open spec fn opened(before: Self, after: Self, result: Result<(), BackendError>) -> bool {
        result is Ok && after == before
    }

    /// The next recorded step must be the same frame; a recorded send
    /// failure is given back and any other step is refused.
    open spec fn sent(before: Self, after: Self, frame: BackendFrame, result: Result<(), BackendError>) -> bool {
        &&& after.reverse_events_drained == before.reverse_events_drained
        &&& after.closed == before.closed
        &&& before.remaining@.len() == 0 ==> {
        &&& result == Err::<(), BackendError>(BackendError::WouldBlock)
        &&& after.remaining@ == before.remaining@
        &&& after.frames_sent == before.frames_sent
        }
        &&& before.remaining@.len() > 0 ==> {
        let step = before.remaining@[0];
        &&& after.remaining@ == before.remaining@.drop_first()
        &&& if spec_frame_of_payload(step.payload) matches Some(recorded) && same_frame(
            recorded,
            frame,
        ) {
            result is Ok && after.frames_sent == before.frames_sent + 1
        } else {
            &&& after.frames_sent == before.frames_sent
            &&& match step.payload {
                BackendTracePayload::Failure { operation: TraceOperation::Send, error } =>
                    result matches Err(BackendError::WriteFailed { reason }) && reason@
                    == error@,
                BackendTracePayload::Unsupported { frame_kind } => result matches Err(
                    BackendError::Unsupported { reason },
                ) && reason@ == unsupported_step_reason(frame_kind@),
                _ => result matches Err(BackendError::WriteFailed { reason }) && reason@
                    == send_mismatch_reason(step, frame),
            }
        }
        }
    }

    /// The leading run of recorded reverse events is handed out; a
    /// recorded drain failure right after it is consumed and given back;
    /// `WouldBlock` when the run is empty.
    open spec fn drained(
        before: Self,
        after: Self,
        handed: Seq<BackendReverseEvent>,
        result: Result<(), BackendError>,
    ) -> bool {
        let steps = before.remaining@;
        let run = leading_reverse_run(steps);
        let failed = run < steps.len() && is_drain_failure(steps[run as int]);
        &&& handed.len() == run
        &&& replayed_events(steps, handed)
        &&& after.reverse_events_drained == before.reverse_events_drained + run
        &&& after.frames_sent == before.frames_sent
        &&& if failed {
            &&& after.remaining@ == steps.subrange(run + 1int, steps.len() as int)
            &&& steps[run as int].payload matches BackendTracePayload::Failure { error, .. } && (
            result matches Err(BackendError::ReverseEventParseFailed { reason }) && reason@
                == error@)
        } else {
            &&& after.remaining@ == steps.subrange(run as int, steps.len() as int)
            &&& (result is Ok <==> run > 0)
            &&& result is Err ==> result == Err::<(), BackendError>(BackendError::WouldBlock)
        }
    }

    /// Always poll while a reverse event or drain failure is next.
    open spec fn readied(before: Self, after: Self, readiness: EventReadiness) -> bool {
        &&& after.remaining == before.remaining
        &&& readiness == (if before.remaining@.len() > 0 && (before.remaining@[0].payload is ReverseEvent
            || is_drain_failure(before.remaining@[0])) {
            EventReadiness::AlwaysPoll
        } else {
            EventReadiness::NoReverseEvents
        })
    }

    /// Closing always succeeds and marks the replay closed.
    open spec fn closed_with(before: Self, after: Self, result: Result<(), BackendError>) -> bool {
        result is Ok && after.closed && after.remaining == before.remaining
    }

    fn session_id(&self) -> (id: u64) {
        self.session_id
    }

    fn open(&mut self) -> (result: Result<(), BackendError>)
        ensures
            result is Ok,
            final(self).remaining == old(self).remaining,
    {
        Ok(())
    }

    /// Consume the next recorded step, which must be the same frame; a
    /// recorded send failure is given back, and any other step is refused.
    fn send(&mut self, frame: BackendFrame) -> (result: Result<(), BackendError>)
        ensures
            final(self).reverse_events_drained == old(self).reverse_events_drained,
            final(self).closed == old(self).closed,
            old(self).remaining@.len() == 0 ==> {
                &&& result == Err::<(), BackendError>(BackendError::WouldBlock)
                &&& final(self).remaining@ == old(self).remaining@
                &&& final(self).frames_sent == old(self).frames_sent
            },
            old(self).remaining@.len() > 0 ==> {
                let step = old(self).remaining@[0];
                &&& final(self).remaining@ == old(self).remaining@.drop_first()
                &&& if spec_frame_of_payload(step.payload) matches Some(recorded) && same_frame(
                    recorded,
                    frame,
                ) {
                    result is Ok && final(self).frames_sent == old(self).frames_sent + 1
                } else {
                    &&& final(self).frames_sent == old(self).frames_sent
                    &&& match step.payload {
                        BackendTracePayload::Failure { operation: TraceOperation::Send, error } =>
                            result matches Err(BackendError::WriteFailed { reason }) && reason@
                            == error@,
                        BackendTracePayload::Unsupported { frame_kind } => result matches Err(
                            BackendError::Unsupported { reason },
                        ) && reason@ == unsupported_step_reason(frame_kind@),
                        _ => result matches Err(BackendError::WriteFailed { reason }) && reason@
                            == send_mismatch_reason(step, frame),
                    }
                }
            },
    {
        let step = match self.remaining.pop_front() {
            Some(step) => step,
            None => {
                return Err(BackendError::WouldBlock);
            },
        };
        let same = match step.payload.as_frame() {
            Some(recorded) => recorded.same_as(&frame),
            None => false,
        };
        if same {
            self.frames_sent = self.frames_sent + 1;
            return Ok(());
        }
        match step.payload {
            BackendTracePayload::Failure { operation: TraceOperation::Send, error } => Err(
                BackendError::WriteFailed { reason: error },
            ),
            BackendTracePayload::Unsupported { frame_kind } => {
                let mut reason = String::from_str("recorded trace step is unsupported frame variant `");
                reason.append(frame_kind.as_str());
                reason.append("`");
                Err(BackendError::Unsupported { reason })
            },
            other => {
                let mut reason = String::from_str("replay expected next operation to be `");
                reason.append(other.kind_label());
                reason.append("`, got send(");
                reason.append(crate::backend_api::frame_kind(&frame));
                reason.append("); drain reverse events first if the trace interleaves them");
                Err(BackendError::WriteFailed { reason })
            },
        }
    }

    /// Hand over the leading run of recorded reverse events; a recorded
    /// drain failure right after the run is consumed and given back;
    /// `WouldBlock` when the run is empty.
    fn drain_reverse_events(&mut self, out: &mut Vec<BackendReverseEvent>) -> (result: Result<
        (),
        BackendError,
    >)
        ensures
            ({
                let steps = old(self).remaining@;
                let run = leading_reverse_run(steps);
                let failed = run < steps.len() && is_drain_failure(steps[run as int]);
                &&& final(out)@.len() == old(out)@.len() + run
                &&& final(out)@.subrange(0, old(out)@.len() as int) == old(out)@
                &&& replayed_events(
                    steps,
                    final(out)@.subrange(old(out)@.len() as int, final(out)@.len() as int),
                )
                &&& final(self).reverse_events_drained == old(self).reverse_events_drained + run
                &&& final(self).frames_sent == old(self).frames_sent
                &&& if failed {
                    &&& final(self).remaining@ == steps.subrange(run + 1int, steps.len() as int)
                    &&& steps[run as int].payload matches BackendTracePayload::Failure { error, .. }
                        && (result matches Err(BackendError::ReverseEventParseFailed { reason })
                        && reason@ == error@)
                } else {
                    &&& final(self).remaining@ == steps.subrange(run as int, steps.len() as int)
                    &&& (result is Ok <==> run > 0)
                    &&& result is Err ==> result == Err::<(), BackendError>(
                        BackendError::WouldBlock,
                    )
                }
            }),
    {
        let ghost steps = self.remaining@;
        let ghost start = out@;
        proof {
            lemma_run_bounded(steps);
        }
        let total: usize = self.remaining.len();
        let mut drained: usize = 0;
        loop
            invariant_except_break
                steps.len() == total,
                steps == old(self).remaining@,
                start == old(out)@,
                drained <= leading_reverse_run(steps),
                leading_reverse_run(steps) <= steps.len(),
                old(self).reverse_events_drained + steps.len() <= u64::MAX,
                self.remaining@ == steps.subrange(drained as int, steps.len() as int),
                out@.len() == start.len() + drained,
                out@.subrange(0, start.len() as int) == start,
                replayed_events(steps, out@.subrange(start.len() as int, out@.len() as int)),
                self.reverse_events_drained == old(self).reverse_events_drained + drained,
                self.frames_sent == old(self).frames_sent,
            ensures
                steps == old(self).remaining@,
                start == old(out)@,
                out@.len() == start.len() + leading_reverse_run(steps),
                out@.subrange(0, start.len() as int) == start,
                replayed_events(steps, out@.subrange(start.len() as int, out@.len() as int)),
                self.reverse_events_drained == old(self).reverse_events_drained
                    + leading_reverse_run(steps),
                self.frames_sent == old(self).frames_sent,
                drained == leading_reverse_run(steps),
                self.remaining@ == steps.subrange(drained as int, steps.len() as int),
            decreases steps.len() - drained,
        {
            if self.remaining.len() == 0 {
                proof {
                    assert(self.remaining@.len() == 0);
                    assert(drained == steps.len());
                }
                break;
            }
            let is_event = match &self.remaining[0].payload {
                BackendTracePayload::ReverseEvent { .. } => true,
                _ => false,
            };
            if !is_event {
                proof {
                    lemma_run_stops(steps, drained as int);
                }
                break;
            }
            let event = match &self.remaining[0].payload {
                BackendTracePayload::ReverseEvent { event } => copy_reverse_event(event),
                _ => {
                    return Err(BackendError::WouldBlock);
                },
            };
            proof {
                lemma_run_continues(steps, drained as int);
            }
            let ghost before_out = out@;
            out.push(event);
            self.remaining.pop_front();
            self.reverse_events_drained = self.reverse_events_drained + 1;
            drained = drained + 1;
            proof {
                assert(self.remaining@ =~= steps.subrange(drained as int, steps.len() as int));
                assert(out@.subrange(0, start.len() as int) =~= start);
                let new_events = out@.subrange(start.len() as int, out@.len() as int);
                let old_events = before_out.subrange(start.len() as int, before_out.len() as int);
                assert(new_events =~= old_events.push(out@.last()));
                assert forall|i: int| 0 <= i < new_events.len() implies ((#[trigger] steps[i]).payload matches BackendTracePayload::ReverseEvent {
                    event,
                } && same_reverse_event(new_events[i], event)) by {
                    if i < old_events.len() {
                        assert(new_events[i] == old_events[i]);
                    }
                }
            }
        }
        let failed = self.remaining.len() > 0 && match &self.remaining[0].payload {
            BackendTracePayload::Failure { operation: TraceOperation::DrainReverseEvents, .. } =>
                true,
            _ => false,
        };
        if failed {
            let step = self.remaining.pop_front().unwrap();
            assert(self.remaining@ =~= steps.subrange(drained + 1, steps.len() as int));
            match step.payload {
                BackendTracePayload::Failure { error, .. } => {
                    return Err(BackendError::ReverseEventParseFailed { reason: error });
                },
                _ => {
                    return Err(BackendError::WouldBlock);
                },
            }
        }
        if drained > 0 {
            Ok(())
        } else {
            Err(BackendError::WouldBlock)
        }
    }

    /// Readable (always poll) while a reverse event or drain failure is
    /// next.
    fn readiness(&mut self) -> (readiness: EventReadiness)
        ensures
            final(self).remaining == old(self).remaining,
            readiness == (if old(self).remaining@.len() > 0 && (old(
                self,
            ).remaining@[0].payload is ReverseEvent || is_drain_failure(old(self).remaining@[0])) {
                EventReadiness::AlwaysPoll
            } else {
                EventReadiness::NoReverseEvents
            }),
    {
        if self.remaining.len() == 0 {
            return EventReadiness::NoReverseEvents;
        }
        match &self.remaining[0].payload {
            BackendTracePayload::ReverseEvent { .. } => EventReadiness::AlwaysPoll,
            BackendTracePayload::Failure { operation: TraceOperation::DrainReverseEvents, .. } =>
                EventReadiness::AlwaysPoll,
            _ => EventReadiness::NoReverseEvents,
        }
    }

    /// The recorded identity and the replay's counters.
    fn diagnostics(&self) -> (diagnostics: BackendDiagnostics)
        ensures
            diagnostics.backend_id@ == self.backend_id@,
            diagnostics.family == self.family,
            diagnostics.state == (if self.closed {
                BackendState::Closed
            } else {
                BackendState::Open
            }),
            diagnostics.frames_sent == self.frames_sent,
            diagnostics.reverse_events_drained == self.reverse_events_drained,
            diagnostics.write_failures == 0,
            diagnostics.last_error is None,
    {
        BackendDiagnostics {
            backend_id: self.backend_id.clone(),
            family: self.family,
            state: if self.closed {
                BackendState::Closed
            } else {
                BackendState::Open
            },
            frames_sent: self.frames_sent,
            reverse_events_drained: self.reverse_events_drained,
            write_failures: 0,
            last_error: None,
            vendor_counters: BTreeMap::new(),
        }
    }

    fn close(&mut self) -> (result: Result<(), BackendError>)
        ensures
            result is Ok,
            final(self).closed,
            final(self).remaining == old(self).remaining,
    {
        self.closed = true;
        Ok(())
    }
}

proof fn lemma_run_continues(steps: Seq<BackendTraceStep>, drained: int)
    requires
        0 <= drained <= leading_reverse_run(steps),
        drained < steps.len(),
        steps[drained].payload is ReverseEvent,
        forall|i: int| 0 <= i < drained ==> (#[trigger] steps[i]).payload is ReverseEvent,
    ensures
        drained < leading_reverse_run(steps),
    decreases steps.len(),
{
    if drained > 0 {
        assert(steps.drop_first()[drained - 1] == steps[drained]);
        assert forall|i: int| 0 <= i < drained - 1 implies (#[trigger] steps.drop_first()[i]).payload is ReverseEvent by {
            assert(steps.drop_first()[i] == steps[i + 1]);
        }
        assert(steps[0].payload is ReverseEvent);
        lemma_run_continues(steps.drop_first(), drained - 1);
    }
}

proof fn lemma_run_stops(steps: Seq<BackendTraceStep>, drained: int)
    requires
        0 <= drained <= leading_reverse_run(steps),
        drained < steps.len(),
        !(steps[drained].payload is ReverseEvent),
    ensures
        drained == leading_reverse_run(steps),
    decreases steps.len(),
{
    if drained < leading_reverse_run(steps) {
        lemma_run_steps_are_reverse(steps, drained);
    }
}

/// What a recorder records replays: a recorded send is accepted again
/// by a send of the same frame, and the reverse events a recorded drain
/// handed on, when followed by anything but another reverse event, are
/// exactly the run a replayed drain hands back.
pub proof fn lemma_recording_replays(
    frame: BackendFrame,
    recorded: Seq<BackendTraceStep>,
    events: Seq<BackendReverseEvent>,
    rest: Seq<BackendTraceStep>,
)
    requires
        inbound_steps(recorded, events),
        rest.len() == 0 || !(rest[0].payload is ReverseEvent),
    ensures
        spec_frame_of_payload(spec_payload_of_frame(frame)) matches Some(replayed) && same_frame(
            replayed,
            frame,
        ),
        leading_reverse_run(recorded + rest) == events.len(),
        forall|replayed: Seq<BackendReverseEvent>|
            replayed_events(recorded + rest, replayed) && replayed.len() == events.len() ==> forall|
                i: int,
            |
                0 <= i < events.len() ==> same_reverse_event(#[trigger] replayed[i], events[i]),
    decreases recorded.len(),
{
    if recorded.len() > 0 {
        let tail = recorded.drop_first();
        let tail_events = events.drop_first();
        assert forall|i: int| 0 <= i < tail_events.len() implies {
            &&& (#[trigger] tail[i]).direction == TraceDirection::Inbound
            &&& tail[i].payload matches BackendTracePayload::ReverseEvent { event }
                && same_reverse_event(event, tail_events[i])
        } by {
            assert(tail[i] == recorded[i + 1]);
            assert(tail_events[i] == events[i + 1]);
        }
        lemma_recording_replays(frame, tail, tail_events, rest);
        assert((recorded + rest).drop_first() =~= tail + rest);
        assert((recorded + rest)[0] == recorded[0]);
    } else {
        assert(recorded + rest =~= rest);
    }
    assert forall|replayed: Seq<BackendReverseEvent>|
        replayed_events(recorded + rest, replayed) && replayed.len() == events.len() implies forall|
            i: int,
        |
            0 <= i < events.len() ==> same_reverse_event(#[trigger] replayed[i], events[i]) by {
        assert forall|i: int| 0 <= i < events.len() implies same_reverse_event(
            #[trigger] replayed[i],
            events[i],
        ) by {
            assert((recorded + rest)[i] == recorded[i]);
        }
    }
}

} // verus!
