//! The generic Linux uinput provider: frame validation, the classification
//! of the requests uinput reads back, the table of force-feedback requests
//! awaiting an answer, and the session state machine.
//!
//! The session never touches the kernel itself; it drives a [`UinputIo`],
//! which the live provider backs with `/dev/uinput`.

use std::collections::HashMap;
use vstd::prelude::*;

use crate::realization::{
    admit_open, opened_view, spec_admit_open, spec_provider_open, bump, reverse_event_views, unit_result_view, EventReadiness, EvdevEvent, NativeControllerRealization,
    NativeEvdevRealization, NativeProviderFactory, NativeProviderSession, ProviderCapabilities,
    ProviderDiagnostics, ProviderError, ProviderErrorView, ProviderFrame, ProviderOpenRequest,
    ProviderPreflightError, ProviderReverseEvent, ProviderReverseEventSink,
    ProviderReverseEventView, ProviderState, RawReverseEvent, RawReverseEventView,
    RealizationSessionId, RealizationTarget,
};
use crate::uhid_provider::{after_failure, fresh_counters, spec_session_close, SessionCounters};

verus! {

/// Event type of the synchronization events that close a frame.
pub const EV_SYN: u16 = 0;

/// The synchronization event that reports a complete frame.
pub const SYN_REPORT: u16 = 0;

/// Event type uinput uses for its own requests.
pub const EV_UINPUT: u16 = 0x0101;

/// uinput request: upload a force-feedback effect.
pub const UI_FF_UPLOAD: u16 = 1;

/// uinput request: erase a force-feedback effect.
pub const UI_FF_ERASE: u16 = 2;

/// Whether `events` form a frame: they end with `SYN_REPORT`.
pub open spec fn is_synchronized_frame(events: Seq<EvdevEvent>) -> bool {
    events.len() > 0 && events.last().event_type == EV_SYN && events.last().code == SYN_REPORT
}

/// Check that an evdev frame ends with a synchronization report.
pub fn validate_frame(events: &[EvdevEvent]) -> (result: Result<(), ProviderError>)
    ensures
        is_synchronized_frame(events@) ==> result is Ok,
        !is_synchronized_frame(events@) ==> (result matches Err(error) && error@
            == (ProviderErrorView::Write { reason: "evdev frame must end with SYN_REPORT"@ })),
{
    if events.len() == 0 || events[events.len() - 1].event_type != EV_SYN || events[events.len()
        - 1].code != SYN_REPORT {
        return Err(
            ProviderError::Write { reason: String::from_str("evdev frame must end with SYN_REPORT") },
        );
    }
    Ok(())
}

/// What one event read back from uinput asks for.
#[derive(Debug, Clone, Copy, PartialEq, Eq, Structural)]
pub enum UinputRequest {
    /// The host uploads a force-feedback effect; it waits for an answer.
    Upload { request_id: u32 },
    /// The host erases a force-feedback effect; it waits for an answer.
    Erase { request_id: u32 },
    /// An ordinary event the host wrote to the device (LEDs, sounds, ...).
    Plain(EvdevEvent),
}

/// uinput's own upload and erase requests carry their request ID in the
/// event value, which must not be negative; every other event passes on as
/// it is.
pub open spec fn spec_classify_uinput_event(event: EvdevEvent) -> Result<
    UinputRequest,
    ProviderErrorView,
> {
    if event.event_type == EV_UINPUT && (event.code == UI_FF_UPLOAD || event.code == UI_FF_ERASE) {
        if event.value < 0 {
            Err(ProviderErrorView::Read { reason: "negative force-feedback request id"@ })
        } else if event.code == UI_FF_UPLOAD {
            Ok(UinputRequest::Upload { request_id: event.value as u32 })
        } else {
            Ok(UinputRequest::Erase { request_id: event.value as u32 })
        }
    } else {
        Ok(UinputRequest::Plain(event))
    }
}

/// Classify one event read back from uinput.
pub fn classify_uinput_event(event: EvdevEvent) -> (request: Result<UinputRequest, ProviderError>)
    ensures
        match (request, spec_classify_uinput_event(event)) {
            (Ok(found), Ok(expected)) => found == expected,
            (Err(error), Err(expected)) => error@ == expected,
            _ => false,
        },
{
    if event.event_type == EV_UINPUT && (event.code == UI_FF_UPLOAD || event.code == UI_FF_ERASE) {
        if event.value < 0 {
            return Err(
                ProviderError::Read { reason: String::from_str("negative force-feedback request id") },
            );
        }
        let request_id: u32 = event.value as u32;
        if event.code == UI_FF_UPLOAD {
            return Ok(UinputRequest::Upload { request_id });
        }
        return Ok(UinputRequest::Erase { request_id });
    }
    Ok(UinputRequest::Plain(event))
}

/// The kind of a force-feedback request.
#[derive(Debug, Clone, Copy, PartialEq, Eq, Structural)]
pub enum ForceFeedbackKind {
    Upload,
    Erase,
}

/// The refusal of an answer to a request nobody is waiting on.
pub open spec fn unknown_request_error(kind: ForceFeedbackKind) -> ProviderErrorView {
    match kind {
        ForceFeedbackKind::Upload => ProviderErrorView::Unsupported {
            reason: "unknown force-feedback upload request"@,
        },
        ForceFeedbackKind::Erase => ProviderErrorView::Unsupported {
            reason: "unknown force-feedback erase request"@,
        },
    }
}

/// Force-feedback requests the host is waiting on, by request ID.
pub struct PendingRequests<T> {
    entries: HashMap<u32, T>,
}

impl<T> PendingRequests<T> {
    pub closed spec fn view(&self) -> Map<u32, T> {
        self.entries@
    }

    pub fn new() -> (pending: Self)
        ensures
            pending.view() == Map::<u32, T>::empty(),
    {
        PendingRequests { entries: HashMap::new() }
    }

    /// The request of `kind` waiting under `request_id`, or the refusal of
    /// an answer to an unknown request.
    pub fn lookup(&self, request_id: u32, kind: ForceFeedbackKind) -> (found: Result<&T, ProviderError>)
        ensures
            match found {
                Ok(item) => self.view().contains_key(request_id) && self.view()[request_id] == *item,
                Err(error) => !self.view().contains_key(request_id) && error@
                    == unknown_request_error(kind),
            },
    {
        broadcast use vstd::std_specs::hash::group_hash_axioms;

        match self.entries.get(&request_id) {
            Some(item) => Ok(item),
            None => Err(
                ProviderError::Unsupported {
                    reason: match kind {
                        ForceFeedbackKind::Upload => String::from_str(
                            "unknown force-feedback upload request",
                        ),
                        ForceFeedbackKind::Erase => String::from_str(
                            "unknown force-feedback erase request",
                        ),
                    },
                },
            ),
        }
    }

    /// Record that the host waits on `request_id`, replacing any earlier
    /// request with that ID.
    pub fn insert(&mut self, request_id: u32, item: T)
        ensures
            final(self).view() == old(self).view().insert(request_id, item),
    {
        broadcast use vstd::std_specs::hash::group_hash_axioms;

        self.entries.insert(request_id, item);
    }

    /// Forget the request waiting under `request_id`.
    pub fn remove(&mut self, request_id: u32)
        ensures
            final(self).view() == old(self).view().remove(request_id),
    {
        broadcast use vstd::std_specs::hash::group_hash_axioms;

        self.entries.remove(&request_id);
    }

    /// Forget every waiting request.
    pub fn clear(&mut self)
        ensures
            final(self).view() == Map::<u32, T>::empty(),
    {
        self.entries.clear();
    }
}

/// The device operations a uinput session asks for.
pub trait UinputIo {
    fn write_events(&mut self, events: &[EvdevEvent]) -> Result<(), ProviderError>;

    /// Read one event back from the device and classify it, beginning the
    /// answer to a force-feedback request.
    fn read_event(&mut self) -> UinputRead;

    fn finish_upload(&mut self, request_id: u32, status: i32) -> Result<(), ProviderError>;

    fn finish_erase(&mut self, request_id: u32, status: i32) -> Result<(), ProviderError>;

    fn discard_pending(&mut self);

    fn destroy(&mut self) -> Result<(), ProviderError>;
}

/// Opens the device behind a uinput session.
pub trait UinputIoFactory {
    type Io: UinputIo;

    fn preflight(&self, request: &ProviderOpenRequest) -> Result<(), ProviderPreflightError>;

    fn open(&self, specification: &NativeEvdevRealization) -> Result<Self::Io, ProviderError>;
}

/// What a frame asks of the device, or why it is refused.
pub enum UinputSendPlan {
    WriteEvents(Vec<EvdevEvent>),
    FinishUpload { request_id: u32, status: i32 },
    FinishErase { request_id: u32, status: i32 },
    Reject(ProviderError),
}

/// [`UinputSendPlan`] taken by views.
pub ghost enum UinputSendPlanView {
    WriteEvents(Seq<EvdevEvent>),
    FinishUpload { request_id: u32, status: i32 },
    FinishErase { request_id: u32, status: i32 },
    Reject(ProviderErrorView),
}

impl View for UinputSendPlan {
    type V = UinputSendPlanView;

    open spec fn view(&self) -> UinputSendPlanView {
        match self {
            UinputSendPlan::WriteEvents(events) => UinputSendPlanView::WriteEvents(events@),
            UinputSendPlan::FinishUpload { request_id, status } => UinputSendPlanView::FinishUpload {
                request_id: *request_id,
                status: *status,
            },
            UinputSendPlan::FinishErase { request_id, status } => UinputSendPlanView::FinishErase {
                request_id: *request_id,
                status: *status,
            },
            UinputSendPlan::Reject(error) => UinputSendPlanView::Reject(error@),
        }
    }
}

/// uinput carries evdev frames and the answers to force-feedback requests;
/// nothing else.
pub open spec fn spec_plan_uinput_send(frame: ProviderFrame) -> UinputSendPlanView {
    match frame {
        ProviderFrame::Evdev(events) => UinputSendPlanView::WriteEvents(events@),
        ProviderFrame::ForceFeedbackUploadReply { request_id, status } =>
            UinputSendPlanView::FinishUpload { request_id, status },
        ProviderFrame::ForceFeedbackEraseReply { request_id, status } =>
            UinputSendPlanView::FinishErase { request_id, status },
        _ => UinputSendPlanView::Reject(
            ProviderErrorView::Unsupported {
                reason: "uinput accepts evdev frames and force-feedback replies only"@,
            },
        ),
    }
}

/// Decide what `frame` asks of the device.
pub fn plan_uinput_send(frame: ProviderFrame) -> (plan: UinputSendPlan)
    ensures
        plan@ == spec_plan_uinput_send(frame),
{
    match frame {
        ProviderFrame::Evdev(events) => UinputSendPlan::WriteEvents(events),
        ProviderFrame::ForceFeedbackUploadReply { request_id, status } =>
            UinputSendPlan::FinishUpload { request_id, status },
        ProviderFrame::ForceFeedbackEraseReply { request_id, status } =>
            UinputSendPlan::FinishErase { request_id, status },
        _ => UinputSendPlan::Reject(
            ProviderError::Unsupported {
                reason: String::from_str(
                    "uinput accepts evdev frames and force-feedback replies only",
                ),
            },
        ),
    }
}

/// A send in a uinput session: a session that is not open refuses with
/// `Closed` and counts the refusal as a failure; otherwise the frame's
/// outcome is counted as a sent frame or as a failure with its message.
pub open spec fn spec_uinput_send(
    counters: SessionCounters,
    plan: UinputSendPlanView,
    device: Result<(), ProviderErrorView>,
) -> (SessionCounters, Result<(), ProviderErrorView>) {
    if counters.state != ProviderState::Open {
        (SessionCounters { failures: bump(counters.failures), ..counters }, Err(ProviderErrorView::Closed))
    } else {
        let outcome = match plan {
            UinputSendPlanView::Reject(error) => Err(error),
            _ => device,
        };
        match outcome {
            Ok(()) => (SessionCounters { sent: bump(counters.sent), ..counters }, Ok(())),
            Err(error) => (after_failure(counters, error), Err(error)),
        }
    }
}

/// What one read from a uinput device gave.
pub enum UinputRead {
    /// A whole event was read; this is what it asks or reports.
    Event(RawReverseEvent),
    /// A whole event was read, but beginning its answer failed.
    Unanswered(ProviderError),
    /// No event was read.
    Failed(ProviderError),
}

/// [`UinputRead`] taken by views.
pub ghost enum UinputReadView {
    Event(RawReverseEventView),
    Unanswered(ProviderErrorView),
    Failed(ProviderErrorView),
}

impl View for UinputRead {
    type V = UinputReadView;

    open spec fn view(&self) -> UinputReadView {
        match self {
            UinputRead::Event(event) => UinputReadView::Event(event@),
            UinputRead::Unanswered(error) => UinputReadView::Unanswered(error@),
            UinputRead::Failed(error) => UinputReadView::Failed(error@),
        }
    }
}

/// The counters after a drain that failed with `error`: a failure other
/// than "would block" is counted with its message.
pub open spec fn after_drain_failure(counters: SessionCounters, error: ProviderErrorView) -> SessionCounters {
    if error == ProviderErrorView::WouldBlock {
        counters
    } else {
        after_failure(counters, error)
    }
}

/// A drain in a uinput session given what the device read: every whole
/// event read is numbered, even one whose answer could not be begun; a
/// classified event is handed out under the session's id and its number.
pub open spec fn spec_uinput_drain(
    counters: SessionCounters,
    session: RealizationSessionId,
    read: UinputReadView,
) -> (SessionCounters, Result<(), ProviderErrorView>, Seq<ProviderReverseEventView>) {
    match read {
        UinputReadView::Event(event) => {
            let sequence = bump(counters.reverse);
            (
                SessionCounters { reverse: sequence, ..counters },
                Ok(()),
                seq![ProviderReverseEventView { session, sequence, event }],
            )
        },
        UinputReadView::Unanswered(error) => (
            after_drain_failure(SessionCounters { reverse: bump(counters.reverse), ..counters }, error),
            Err(error),
            Seq::empty(),
        ),
        UinputReadView::Failed(error) => (after_drain_failure(counters, error), Err(error), Seq::empty()),
    }
}

fn bump_counter(x: u64) -> (y: u64)
    ensures
        y == bump(x),
{
    if x < u64::MAX {
        x + 1
    } else {
        x
    }
}

/// An open uinput session.
pub struct UinputSession<Io: UinputIo> {
    io: Io,
    id: RealizationSessionId,
    state: ProviderState,
    sent: u64,
    reverse: u64,
    failures: u64,
    last_error: Option<String>,
}

impl<Io: UinputIo> UinputSession<Io> {
    pub closed spec fn counters(&self) -> SessionCounters {
        SessionCounters {
            state: self.state,
            sent: self.sent,
            reverse: self.reverse,
            failures: self.failures,
            lifecycle_events: 0,
            last_error: match self.last_error {
                Some(text) => Some(text@),
                None => None,
            },
        }
    }

    pub closed spec fn session_id(&self) -> RealizationSessionId {
        self.id
    }

    /// A freshly opened session over `io`.
    /// The session over what the device factory opened; an open error is
    /// handed back unchanged and no session exists.
    pub fn from_opened(opened: Result<Io, ProviderError>, id: RealizationSessionId) -> (result: Result<
        Self,
        ProviderError,
    >)
        ensures
            match opened {
                Err(error) => result == Err::<Self, ProviderError>(error),
                Ok(_) => result matches Ok(session) && session.counters() == fresh_counters()
                    && session.session_id() == id,
            },
    {
        match opened {
            Ok(io) => Ok(UinputSession::new(io, id)),
            Err(error) => Err(error),
        }
    }

    pub fn new(io: Io, id: RealizationSessionId) -> (session: Self)
        ensures
            session.counters() == fresh_counters(),
            session.session_id() == id,
    {
        UinputSession {
            io,
            id,
            state: ProviderState::Open,
            sent: 0,
            reverse: 0,
            failures: 0,
            last_error: None,
        }
    }

    fn record_failure(&mut self, error: &ProviderError)
        ensures
            final(self).counters() == after_failure(old(self).counters(), error@),
            final(self).session_id() == old(self).session_id(),
    {
        self.failures = bump_counter(self.failures);
        self.last_error = Some(error.message());
    }

    /// Send one frame to the device.
    pub fn send_frame(&mut self, frame: ProviderFrame) -> (result: Result<(), ProviderError>)
        ensures
            (final(self).counters(), unit_result_view(result)) == spec_uinput_send(
                old(self).counters(),
                spec_plan_uinput_send(frame),
                unit_result_view(result),
            ),
            final(self).session_id() == old(self).session_id(),
    {
        if self.state != ProviderState::Open {
            self.failures = bump_counter(self.failures);
            return Err(ProviderError::Closed);
        }
        let result = match plan_uinput_send(frame) {
            UinputSendPlan::WriteEvents(events) => self.io.write_events(events.as_slice()),
            UinputSendPlan::FinishUpload { request_id, status } => self.io.finish_upload(
                request_id,
                status,
            ),
            UinputSendPlan::FinishErase { request_id, status } => self.io.finish_erase(
                request_id,
                status,
            ),
            UinputSendPlan::Reject(error) => Err(error),
        };
        match result {
            Ok(()) => {
                self.sent = bump_counter(self.sent);
                Ok(())
            },
            Err(error) => {
                self.record_failure(&error);
                Err(error)
            },
        }
    }

    /// Read one event back from the device into `out`.
    pub fn drain_into<S: ProviderReverseEventSink>(&mut self, out: &mut S) -> (result: Result<
        (),
        ProviderError,
    >)
        ensures
            final(out).received().len() >= old(out).received().len(),
            final(out).received().subrange(0, old(out).received().len() as int)
                == old(out).received(),
            exists|read: UinputReadView|
                #![trigger spec_uinput_drain(old(self).counters(), old(self).session_id(), read)]
                (final(self).counters(), unit_result_view(result), reverse_event_views(
                    final(out).received(),
                ).subrange(old(out).received().len() as int, final(out).received().len() as int))
                    == spec_uinput_drain(old(self).counters(), old(self).session_id(), read),
            final(self).session_id() == old(self).session_id(),
    {
        let read = self.io.read_event();
        let ghost read_view = read@;
        let result = self.accept_read(read, out);
        assert((self.counters(), unit_result_view(result), reverse_event_views(out.received()).subrange(
            old(out).received().len() as int,
            out.received().len() as int,
        )) == spec_uinput_drain(old(self).counters(), old(self).session_id(), read_view));
        result
    }

    /// Take what the device read: number a whole event, hand a classified
    /// one to `out`, and count a failure other than "would block".
    pub fn accept_read<S: ProviderReverseEventSink>(&mut self, read: UinputRead, out: &mut S) -> (result:
        Result<(), ProviderError>)
        ensures
            final(out).received().len() >= old(out).received().len(),
            final(out).received().subrange(0, old(out).received().len() as int)
                == old(out).received(),
            (final(self).counters(), unit_result_view(result), reverse_event_views(
                final(out).received(),
            ).subrange(old(out).received().len() as int, final(out).received().len() as int))
                == spec_uinput_drain(old(self).counters(), old(self).session_id(), read@),
            final(self).session_id() == old(self).session_id(),
    {
        let ghost start = out.received();
        match read {
            UinputRead::Event(event) => {
                self.reverse = bump_counter(self.reverse);
                let pushed = ProviderReverseEvent { session: self.id, sequence: self.reverse, event };
                out.push(pushed);
                assert(reverse_event_views(out.received()).subrange(
                    start.len() as int,
                    out.received().len() as int,
                ) =~= seq![pushed@]);
                Ok(())
            },
            UinputRead::Unanswered(error) => {
                self.reverse = bump_counter(self.reverse);
                self.record_drain_failure(&error);
                assert(reverse_event_views(out.received()).subrange(
                    start.len() as int,
                    out.received().len() as int,
                ) =~= Seq::empty());
                Err(error)
            },
            UinputRead::Failed(error) => {
                self.record_drain_failure(&error);
                assert(reverse_event_views(out.received()).subrange(
                    start.len() as int,
                    out.received().len() as int,
                ) =~= Seq::empty());
                Err(error)
            },
        }
    }

    fn record_drain_failure(&mut self, error: &ProviderError)
        ensures
            final(self).counters() == after_drain_failure(old(self).counters(), error@),
            final(self).session_id() == old(self).session_id(),
    {
        let would_block = match error {
            ProviderError::WouldBlock => true,
            _ => false,
        };
        if !would_block {
            self.record_failure(error);
        }
    }

    /// Forget pending requests and destroy the device, once.
    pub fn close_session(&mut self) -> (result: Result<(), ProviderError>)
        ensures
            (final(self).counters(), unit_result_view(result)) == spec_session_close(
                old(self).counters(),
                unit_result_view(result),
            ),
            final(self).session_id() == old(self).session_id(),
    {
        if self.state == ProviderState::Closed {
            return Ok(());
        }
        self.state = ProviderState::Closed;
        self.io.discard_pending();
        let result = self.io.destroy();
        match &result {
            Ok(()) => {},
            Err(error) => {
                self.record_failure(error);
            },
        }
        result
    }

    /// The session's diagnostics.
    pub fn current_diagnostics(&self) -> (diagnostics: ProviderDiagnostics)
        ensures
            diagnostics.state == self.counters().state,
            diagnostics.frames_sent == self.counters().sent,
            diagnostics.reverse_events_drained == self.counters().reverse,
            diagnostics.write_failures == self.counters().failures,
            diagnostics.lifecycle_events == 0,
            match diagnostics.last_error {
                Some(text) => self.counters().last_error == Some(text@),
                None => self.counters().last_error is None,
            },
    {
        let last_error = match &self.last_error {
            Some(text) => Some(text.clone()),
            None => None,
        };
        ProviderDiagnostics {
            state: self.state,
            frames_sent: self.sent,
            reverse_events_drained: self.reverse,
            write_failures: self.failures,
            lifecycle_events: 0,
            last_error,
        }
    }
}

impl<Io: UinputIo> NativeProviderSession for UinputSession<Io> {
    open spec fn sent_frame(before: Self, after: Self, frame: ProviderFrame, result: Result<(), ProviderError>) -> bool {
        &&& (after.counters(), unit_result_view(result)) == spec_uinput_send(
            before.counters(),
            spec_plan_uinput_send(frame),
            unit_result_view(result),
        )
        &&& after.session_id() == before.session_id()
    }

    open spec fn drained(
        before: Self,
        after: Self,
        handed: Seq<ProviderReverseEventView>,
        result: Result<(), ProviderError>,
    ) -> bool {
        &&& exists|read: UinputReadView|
            #![trigger spec_uinput_drain(before.counters(), before.session_id(), read)]
            (after.counters(), unit_result_view(result), handed) == spec_uinput_drain(
                before.counters(),
                before.session_id(),
                read,
            )
        &&& after.session_id() == before.session_id()
    }

    open spec fn reports(&self, diagnostics: ProviderDiagnostics) -> bool {
        &&& diagnostics.state == self.counters().state
        &&& diagnostics.frames_sent == self.counters().sent
        &&& diagnostics.reverse_events_drained == self.counters().reverse
        &&& diagnostics.write_failures == self.counters().failures
        &&& diagnostics.lifecycle_events == 0
        &&& match diagnostics.last_error {
            Some(text) => self.counters().last_error == Some(text@),
            None => self.counters().last_error is None,
        }
    }

    open spec fn closed_with(before: Self, after: Self, result: Result<(), ProviderError>) -> bool {
        &&& (after.counters(), unit_result_view(result)) == spec_session_close(
            before.counters(),
            unit_result_view(result),
        )
        &&& after.session_id() == before.session_id()
    }

    fn send(&mut self, frame: ProviderFrame) -> (result: Result<(), ProviderError>) {
        self.send_frame(frame)
    }

    fn drain_reverse_events<S: ProviderReverseEventSink>(&mut self, out: &mut S) -> (result: Result<
        (),
        ProviderError,
    >) {
        let ghost before = out.received();
        let result = self.drain_into(out);
        assert(reverse_event_views(out.received()).subrange(before.len() as int, out.received().len() as int)
            =~= reverse_event_views(out.received().subrange(before.len() as int, out.received().len() as int)));
        result
    }

    fn readiness(&self) -> (readiness: EventReadiness) {
        EventReadiness::AlwaysPoll
    }

    fn diagnostics(&self) -> (diagnostics: ProviderDiagnostics) {
        self.current_diagnostics()
    }

    fn close(&mut self) -> (result: Result<(), ProviderError>) {
        self.close_session()
    }
}

/// The generic Linux uinput realization provider.
#[derive(Debug, Clone, Copy, Default)]
pub struct LinuxUinputProvider;

impl LinuxUinputProvider {
    pub fn capabilities(&self) -> (capabilities: ProviderCapabilities)
        ensures
            capabilities.target == RealizationTarget::Evdev,
            capabilities.provides_reverse_output,
    {
        ProviderCapabilities::for_target(RealizationTarget::Evdev, true)
    }

    /// Validate `request` against this provider, check the host and create
    /// the device. No session exists unless every step succeeded.
    pub fn open_with_factory<F: UinputIoFactory>(
        &self,
        request: ProviderOpenRequest,
        factory: &F,
    ) -> (result: Result<UinputSession<F::Io>, ProviderError>)
        ensures
            request.spec_validate_against(
                ProviderCapabilities { target: RealizationTarget::Evdev, provides_reverse_output: true },
            ) matches Err(error) ==> result matches Err(e) && e@ == (ProviderErrorView::Unsupported {
                reason: error.spec_message(),
            }),
            exists|preflight: Result<(), ProviderPreflightError>|
                #![trigger spec_admit_open(request, ProviderCapabilities { target: RealizationTarget::Evdev, provides_reverse_output: true }, preflight)]
                match spec_admit_open(
                    request,
                    ProviderCapabilities { target: RealizationTarget::Evdev, provides_reverse_output: true },
                    preflight,
                ) {
                    Err(refused) => result matches Err(e) && e@ == refused,
                    Ok(()) => request.realization is Evdev,
                },
            exists|preflight: Result<(), ProviderPreflightError>, opened: Result<(), ProviderErrorView>|
                #![trigger spec_provider_open(request, ProviderCapabilities { target: RealizationTarget::Evdev, provides_reverse_output: true }, preflight, opened)]
                opened_view(result) == spec_provider_open(request, ProviderCapabilities { target: RealizationTarget::Evdev, provides_reverse_output: true }, preflight, opened),
            result matches Ok(session) ==> request.realization is Evdev && session.counters()
                == fresh_counters() && session.session_id() == request.session,
    {
        let capabilities = self.capabilities();
        match request.validate_against(capabilities) {
            Ok(()) => {},
            Err(error) => {
                proof {
                    assert(spec_admit_open(request, capabilities, Ok::<(), ProviderPreflightError>(()))
                        is Err);
                }
                let refused = ProviderError::Unsupported { reason: error.message() };
                assert(opened_view(Err::<UinputSession<F::Io>, ProviderError>(refused)) == spec_provider_open(
                    request,
                    capabilities,
                    Ok::<(), ProviderPreflightError>(()),
                    Ok(()),
                ));
                return Err(refused);
            },
        }
        let preflight = factory.preflight(&request);
        let ghost answered = preflight;
        match admit_open(capabilities, &request, preflight) {
            Ok(()) => {},
            Err(error) => {
                proof {
                    assert(spec_admit_open(request, capabilities, answered) is Err);
                    assert(opened_view(Err::<UinputSession<F::Io>, ProviderError>(error)) == spec_provider_open(
                        request,
                        capabilities,
                        answered,
                        Ok(()),
                    ));
                }
                return Err(error);
            },
        }
        proof {
            assert(spec_admit_open(request, capabilities, answered) is Ok);
        }
        let session_id = request.session;
        let result = match request.realization {
            NativeControllerRealization::Evdev(specification) => {
                let opened = factory.open(&specification);
                UinputSession::from_opened(opened, session_id)
            },
            _ => Err(ProviderError::Unsupported { reason: String::from_str("uinput requires evdev realization") }),
        };
        assert(opened_view(result) == spec_provider_open(request, capabilities, answered, opened_view(result)));
        result
    }
}

/// [`LinuxUinputProvider`] backed by a device factory.
pub struct LinuxUinputProviderOn<F: UinputIoFactory> {
    pub factory: F,
}

impl<F: UinputIoFactory> NativeProviderFactory for LinuxUinputProviderOn<F> {
    type Session = UinputSession<F::Io>;

    fn capabilities(&self) -> (capabilities: ProviderCapabilities) {
        LinuxUinputProvider.capabilities()
    }

    fn preflight(&self, request: &ProviderOpenRequest) -> (result: Result<(), ProviderPreflightError>) {
        self.factory.preflight(request)
    }

    /// Validate, preflight and open through the device factory; no
    /// session exists unless every step succeeded.
    fn open(&self, request: ProviderOpenRequest) -> (result: Result<Self::Session, ProviderError>)
        ensures
            request.spec_validate_against(
                ProviderCapabilities { target: RealizationTarget::Evdev, provides_reverse_output: true },
            ) matches Err(error) ==> result matches Err(e) && e@ == (ProviderErrorView::Unsupported {
                reason: error.spec_message(),
            }),
            result matches Ok(session) ==> request.realization is Evdev && session.counters()
                == fresh_counters() && session.session_id() == request.session,
    {
        LinuxUinputProvider.open_with_factory(request, &self.factory)
    }
}

/// A closed uinput session refuses every frame with `Closed`, counting the
/// refusal, and closing it again changes nothing.
pub proof fn lemma_uinput_closed_session_refuses_frames(
    counters: SessionCounters,
    destroyed: Result<(), ProviderErrorView>,
    plan: UinputSendPlanView,
    device: Result<(), ProviderErrorView>,
    again: Result<(), ProviderErrorView>,
)
    ensures
        ({
            let closed = spec_session_close(counters, destroyed).0;
            &&& spec_uinput_send(closed, plan, device) == (SessionCounters {
                failures: bump(closed.failures),
                ..closed
            }, Err::<(), ProviderErrorView>(ProviderErrorView::Closed))
            &&& spec_session_close(closed, again) == (closed, Ok::<(), ProviderErrorView>(()))
        }),
{
}

} // verus!
