//! The UHID provider and its session state machine.
//!
//! A session decides what each frame and each kernel request asks of the
//! device and keeps the diagnostics counters; the device work itself is
//! done by a [`UhidIo`].

use vstd::prelude::*;

use crate::realization::{
    admit_open, opened_view, spec_admit_open, spec_provider_open, bump, reverse_event_views, unit_result_view, EventReadiness, NativeControllerRealization,
    NativeHidFeatureResponse, NativeHidRealization, NativeHidReportKey, NativeProviderFactory,
    NativeProviderSession, ProviderCapabilities, ProviderDiagnostics, ProviderError,
    ProviderErrorView, ProviderFrame, ProviderOpenRequest, ProviderPreflightError,
    ProviderReverseEvent, ProviderReverseEventSink, ProviderReverseEventView, ProviderState,
    RawReverseEvent, RawReverseEventView, RealizationSessionId, RealizationTarget,
};
use crate::uhid::{Event, UhidEventView, UHID_STATUS_UNSUPPORTED};

verus! {

/// The device operations a UHID session asks for.
pub trait UhidIo {
    fn input(&mut self, report_id: Option<u8>, bytes: &[u8]) -> Result<(), ProviderError>;

    fn get_reply(&mut self, id: u32, status: i16, bytes: &[u8]) -> Result<(), ProviderError>;

    fn set_reply(&mut self, id: u32, status: i16) -> Result<(), ProviderError>;

    fn read_event(&mut self) -> Result<Event, ProviderError>;

    fn destroy(&mut self) -> Result<(), ProviderError>;
}

/// Opens the device behind a UHID session.
pub trait UhidIoFactory {
    type Io: UhidIo;

    fn preflight(&self, request: &ProviderOpenRequest) -> Result<(), ProviderPreflightError>;

    fn open(&self, specification: &NativeHidRealization) -> Result<Self::Io, ProviderError>;
}

/// The diagnostics a provider session keeps, with the last error's message
/// taken by its view.
pub ghost struct SessionCounters {
    pub state: ProviderState,
    pub sent: u64,
    pub reverse: u64,
    pub failures: u64,
    pub lifecycle_events: u64,
    pub last_error: Option<Seq<char>>,
}

/// The counters of a session that has just opened.
pub open spec fn fresh_counters() -> SessionCounters {
    SessionCounters {
        state: ProviderState::Open,
        sent: 0,
        reverse: 0,
        failures: 0,
        lifecycle_events: 0,
        last_error: None,
    }
}

/// `counters` after a failure with `error`.
pub open spec fn after_failure(counters: SessionCounters, error: ProviderErrorView) -> SessionCounters {
    SessionCounters {
        failures: bump(counters.failures),
        last_error: Some(error.message()),
        ..counters
    }
}

/// What a frame asks of the device, or why it is refused.
pub enum UhidSendPlan {
    Input { report_id: Option<u8>, bytes: Vec<u8> },
    GetReply { request_id: u32, status: i16, bytes: Vec<u8> },
    SetReply { request_id: u32, status: i16 },
    Reject(ProviderError),
}

/// [`UhidSendPlan`] taken by views.
pub ghost enum UhidSendPlanView {
    Input { report_id: Option<u8>, bytes: Seq<u8> },
    GetReply { request_id: u32, status: i16, bytes: Seq<u8> },
    SetReply { request_id: u32, status: i16 },
    Reject(ProviderErrorView),
}

impl View for UhidSendPlan {
    type V = UhidSendPlanView;

    open spec fn view(&self) -> UhidSendPlanView {
        match self {
            UhidSendPlan::Input { report_id, bytes } => UhidSendPlanView::Input {
                report_id: *report_id,
                bytes: bytes@,
            },
            UhidSendPlan::GetReply { request_id, status, bytes } => UhidSendPlanView::GetReply {
                request_id: *request_id,
                status: *status,
                bytes: bytes@,
            },
            UhidSendPlan::SetReply { request_id, status } => UhidSendPlanView::SetReply {
                request_id: *request_id,
                status: *status,
            },
            UhidSendPlan::Reject(error) => UhidSendPlanView::Reject(error@),
        }
    }
}

/// UHID carries input reports, numbered exactly when the realization numbers
/// them, and replies to the host's feature requests; nothing else.
pub open spec fn spec_plan_uhid_send(frame: ProviderFrame, numbered_input_reports: bool) -> UhidSendPlanView {
    match frame {
        ProviderFrame::HidInput { report_id, bytes } => if numbered_input_reports == report_id is Some {
            UhidSendPlanView::Input { report_id, bytes: bytes@ }
        } else {
            UhidSendPlanView::Reject(
                ProviderErrorView::Unsupported {
                    reason: "HID input report ID does not match realization numbering"@,
                },
            )
        },
        ProviderFrame::HidGetReportReply { request_id, status, bytes } => UhidSendPlanView::GetReply {
            request_id,
            status,
            bytes: bytes@,
        },
        ProviderFrame::HidSetReportReply { request_id, status } => UhidSendPlanView::SetReply {
            request_id,
            status,
        },
        _ => UhidSendPlanView::Reject(
            ProviderErrorView::Unsupported {
                reason: "UHID accepts HID input and feature replies only"@,
            },
        ),
    }
}

/// Decide what `frame` asks of the device.
pub fn plan_uhid_send(frame: ProviderFrame, numbered_input_reports: bool) -> (plan: UhidSendPlan)
    ensures
        plan@ == spec_plan_uhid_send(frame, numbered_input_reports),
{
    match frame {
        ProviderFrame::HidInput { report_id, bytes } => {
            if numbered_input_reports == report_id.is_some() {
                UhidSendPlan::Input { report_id, bytes }
            } else {
                UhidSendPlan::Reject(
                    ProviderError::Unsupported {
                        reason: String::from_str(
                            "HID input report ID does not match realization numbering",
                        ),
                    },
                )
            }
        },
        ProviderFrame::HidGetReportReply { request_id, status, bytes } => UhidSendPlan::GetReply {
            request_id,
            status,
            bytes,
        },
        ProviderFrame::HidSetReportReply { request_id, status } => UhidSendPlan::SetReply {
            request_id,
            status,
        },
        _ => UhidSendPlan::Reject(
            ProviderError::Unsupported {
                reason: String::from_str("UHID accepts HID input and feature replies only"),
            },
        ),
    }
}

/// A send in a session with `counters`: a session that is not open refuses
/// with `Closed` and changes nothing; otherwise the frame's outcome (the
/// plan's refusal, or what the device answered) is counted as a sent frame
/// or as a failure.
pub open spec fn spec_uhid_send(
    counters: SessionCounters,
    plan: UhidSendPlanView,
    device: Result<(), ProviderErrorView>,
) -> (SessionCounters, Result<(), ProviderErrorView>) {
    if counters.state != ProviderState::Open {
        (counters, Err(ProviderErrorView::Closed))
    } else {
        let outcome = match plan {
            UhidSendPlanView::Reject(error) => Err(error),
            _ => device,
        };
        match outcome {
            Ok(()) => (SessionCounters { sent: bump(counters.sent), ..counters }, Ok(())),
            Err(error) => (after_failure(counters, error), Err(error)),
        }
    }
}

/// The first canned reply for `key`, if any.
pub open spec fn static_reply(features: Seq<NativeHidFeatureResponse>, key: NativeHidReportKey) -> Option<
    Seq<u8>,
>
    decreases features.len(),
{
    if features.len() == 0 {
        None
    } else if features[0].key == key {
        Some(features[0].bytes@)
    } else {
        static_reply(features.drop_first(), key)
    }
}

/// The view of a reverse event this session emits as its `sequence`-th.
pub open spec fn emitted(
    session: RealizationSessionId,
    sequence: u64,
    event: RawReverseEventView,
) -> Seq<ProviderReverseEventView> {
    seq![ProviderReverseEventView { session, sequence, event }]
}

/// One drain step of a session: what happens to the counters, what the
/// drain answers and which reverse events it emits, given the event read
/// from the device and the device's answer to the reply the session sends
/// for a feature request.
pub open spec fn spec_uhid_drain(
    counters: SessionCounters,
    session: RealizationSessionId,
    numbered_output_reports: bool,
    features: Seq<NativeHidFeatureResponse>,
    read: Result<UhidEventView, ProviderErrorView>,
    reply: Result<(), ProviderErrorView>,
) -> (SessionCounters, Result<(), ProviderErrorView>, Seq<ProviderReverseEventView>) {
    match read {
        Err(error) => (counters, Err(error), Seq::empty()),
        Ok(UhidEventView::Output { bytes }) => if numbered_output_reports && bytes.len() == 0 {
            let error = ProviderErrorView::Read {
                reason: "numbered UHID output report omitted its report ID"@,
            };
            (
                SessionCounters {
                    failures: bump(counters.failures),
                    last_error: Some("numbered UHID output report omitted its report ID"@),
                    ..counters
                },
                Err(error),
                Seq::empty(),
            )
        } else {
            let sequence = bump(counters.reverse);
            let event = if numbered_output_reports {
                RawReverseEventView::HidOutput { report_id: Some(bytes[0]), bytes: bytes.drop_first() }
            } else {
                RawReverseEventView::HidOutput { report_id: None, bytes }
            };
            (SessionCounters { reverse: sequence, ..counters }, Ok(()), emitted(session, sequence, event))
        },
        Ok(UhidEventView::Get { id, report_id, report_type }) => {
            let known = static_reply(
                features,
                NativeHidReportKey { report_id, report_type },
            ) is Some;
            match reply {
                Ok(()) => (SessionCounters { reverse: bump(counters.reverse), ..counters }, Ok(()), Seq::empty()),
                Err(error) => if known {
                    (counters, Err(error), Seq::empty())
                } else {
                    (after_failure(counters, error), Err(error), Seq::empty())
                },
            }
        },
        Ok(UhidEventView::SetReport { id, report_id, report_type, bytes }) => match reply {
            Err(error) => (after_failure(counters, error), Err(error), Seq::empty()),
            Ok(()) => {
                let sequence = bump(counters.reverse);
                (
                    SessionCounters { reverse: sequence, ..counters },
                    Ok(()),
                    emitted(
                        session,
                        sequence,
                        RawReverseEventView::HidSetReportRequest {
                            request_id: id,
                            report_id,
                            report_type,
                            bytes,
                        },
                    ),
                )
            },
        },
        Ok(UhidEventView::Lifecycle) => (
            SessionCounters { lifecycle_events: bump(counters.lifecycle_events), ..counters },
            Ok(()),
            Seq::empty(),
        ),
    }
}

/// The reply a session sends for a get-report request: the first canned
/// reply for the report with status 0, or an empty unsupported reply.
pub open spec fn spec_get_report_reply(
    features: Seq<NativeHidFeatureResponse>,
    report_id: u8,
    report_type: u8,
) -> (i16, Seq<u8>) {
    match static_reply(features, NativeHidReportKey { report_id, report_type }) {
        Some(bytes) => (0, bytes),
        None => (UHID_STATUS_UNSUPPORTED, Seq::empty()),
    }
}

/// The reply a session owes the device for what it read.
pub enum UhidReply {
    Nothing,
    Get { request_id: u32, status: i16, bytes: Vec<u8> },
    SetAck { request_id: u32, status: i16 },
}

/// [`UhidReply`] with its bytes taken by their view.
pub ghost enum UhidReplyView {
    Nothing,
    Get { request_id: u32, status: i16, bytes: Seq<u8> },
    SetAck { request_id: u32, status: i16 },
}

impl View for UhidReply {
    type V = UhidReplyView;

    open spec fn view(&self) -> UhidReplyView {
        match self {
            UhidReply::Nothing => UhidReplyView::Nothing,
            UhidReply::Get { request_id, status, bytes } => UhidReplyView::Get {
                request_id: *request_id,
                status: *status,
                bytes: bytes@,
            },
            UhidReply::SetAck { request_id, status } => UhidReplyView::SetAck {
                request_id: *request_id,
                status: *status,
            },
        }
    }
}

/// The reply owed for a read: a get-report request is answered with the
/// first canned reply for its report and status 0, or empty with the
/// unsupported status; a set-report request is acknowledged with status 0;
/// nothing else is answered.
pub open spec fn spec_drain_reply(
    read: Result<UhidEventView, ProviderErrorView>,
    features: Seq<NativeHidFeatureResponse>,
) -> UhidReplyView {
    match read {
        Ok(UhidEventView::Get { id, report_id, report_type }) => {
            let (status, bytes) = spec_get_report_reply(features, report_id, report_type);
            UhidReplyView::Get { request_id: id, status, bytes }
        },
        Ok(UhidEventView::SetReport { id, .. }) => UhidReplyView::SetAck { request_id: id, status: 0 },
        _ => UhidReplyView::Nothing,
    }
}

/// A device read taken by the view of its event or error.
pub open spec fn uhid_read_view(read: Result<Event, ProviderError>) -> Result<UhidEventView, ProviderErrorView> {
    match read {
        Ok(event) => Ok(event@),
        Err(error) => Err(error@),
    }
}

/// Decide the reply owed for what the device read.
pub fn plan_uhid_drain(read: &Result<Event, ProviderError>, features: &Vec<NativeHidFeatureResponse>) -> (reply:
    UhidReply)
    ensures
        reply@ == spec_drain_reply(
            match read {
                Ok(event) => Ok(event@),
                Err(error) => Err(error@),
            },
            features@,
        ),
{
    match read {
        Ok(Event::Get { id, report_id, report_type }) => {
            let key = NativeHidReportKey { report_id: *report_id, report_type: *report_type };
            match find_static_reply(features, key) {
                Some(bytes) => UhidReply::Get { request_id: *id, status: 0, bytes: bytes.clone() },
                None => UhidReply::Get {
                    request_id: *id,
                    status: UHID_STATUS_UNSUPPORTED,
                    bytes: Vec::new(),
                },
            }
        },
        Ok(Event::SetReport { id, .. }) => UhidReply::SetAck { request_id: *id, status: 0 },
        _ => UhidReply::Nothing,
    }
}

/// Closing: an already closed session stays as it is; otherwise the session
/// becomes closed whatever the device answers to its destruction, and a
/// refusal is counted as a failure.
pub open spec fn spec_session_close(counters: SessionCounters, device: Result<(), ProviderErrorView>) -> (
    SessionCounters,
    Result<(), ProviderErrorView>,
) {
    if counters.state == ProviderState::Closed {
        (counters, Ok(()))
    } else {
        let closed = SessionCounters { state: ProviderState::Closed, ..counters };
        match device {
            Ok(()) => (closed, Ok(())),
            Err(error) => (after_failure(closed, error), Err(error)),
        }
    }
}

fn bump_exec(x: u64) -> (y: u64)
    ensures
        y == bump(x),
{
    if x < u64::MAX {
        x + 1
    } else {
        x
    }
}

/// The first canned reply for `key`, if any.
fn find_static_reply(features: &Vec<NativeHidFeatureResponse>, key: NativeHidReportKey) -> (found:
    Option<&Vec<u8>>)
    ensures
        match found {
            Some(bytes) => static_reply(features@, key) == Some(bytes@),
            None => static_reply(features@, key) is None,
        },
{
    let mut index: usize = 0;
    assert(features@.subrange(0, features.len() as int) =~= features@);
    while index < features.len()
        invariant
            index <= features.len(),
            static_reply(features@, key) == static_reply(features@.subrange(index as int, features.len() as int), key),
        decreases features.len() - index,
    {
        let ghost rest = features@.subrange(index as int, features.len() as int);
        assert(rest.drop_first() =~= features@.subrange(index + 1, features.len() as int));
        if features[index].key == key {
            return Some(&features[index].bytes);
        }
        index = index + 1;
    }
    None
}

/// An open UHID session.
pub struct UhidSession<Io: UhidIo> {
    io: Io,
    id: RealizationSessionId,
    state: ProviderState,
    sent: u64,
    reverse: u64,
    failures: u64,
    lifecycle_events: u64,
    last_error: Option<String>,
    numbered_input_reports: bool,
    numbered_output_reports: bool,
    static_features: Vec<NativeHidFeatureResponse>,
}

impl<Io: UhidIo> UhidSession<Io> {
    pub closed spec fn counters(&self) -> SessionCounters {
        SessionCounters {
            state: self.state,
            sent: self.sent,
            reverse: self.reverse,
            failures: self.failures,
            lifecycle_events: self.lifecycle_events,
            last_error: match self.last_error {
                Some(text) => Some(text@),
                None => None,
            },
        }
    }

    pub closed spec fn session_id(&self) -> RealizationSessionId {
        self.id
    }

    pub closed spec fn numbered_input_reports(&self) -> bool {
        self.numbered_input_reports
    }

    pub closed spec fn numbered_output_reports(&self) -> bool {
        self.numbered_output_reports
    }

    pub closed spec fn static_features(&self) -> Seq<NativeHidFeatureResponse> {
        self.static_features@
    }

    /// Whether `other` is this session with the same identity and settings.
    pub open spec fn same_settings(&self, other: &Self) -> bool {
        &&& other.session_id() == self.session_id()
        &&& other.numbered_input_reports() == self.numbered_input_reports()
        &&& other.numbered_output_reports() == self.numbered_output_reports()
        &&& other.static_features() == self.static_features()
    }

    /// A freshly opened session over `io` for `specification`.
    /// The session over what the device factory opened; an open error is
    /// handed back unchanged and no session exists.
    pub fn from_opened(
        opened: Result<Io, ProviderError>,
        id: RealizationSessionId,
        specification: NativeHidRealization,
    ) -> (result: Result<Self, ProviderError>)
        ensures
            match opened {
                Err(error) => result == Err::<Self, ProviderError>(error),
                Ok(_) => result matches Ok(session) && session.counters() == fresh_counters()
                    && session.session_id() == id && session.numbered_input_reports()
                    == specification.numbered_input_reports && session.numbered_output_reports()
                    == specification.numbered_output_reports && session.static_features()
                    == specification.feature_report_responses@,
            },
    {
        match opened {
            Ok(io) => Ok(UhidSession::new(io, id, specification)),
            Err(error) => Err(error),
        }
    }

    pub fn new(io: Io, id: RealizationSessionId, specification: NativeHidRealization) -> (session:
        Self)
        ensures
            session.counters() == fresh_counters(),
            session.session_id() == id,
            session.numbered_input_reports() == specification.numbered_input_reports,
            session.numbered_output_reports() == specification.numbered_output_reports,
            session.static_features() == specification.feature_report_responses@,
    {
        UhidSession {
            io,
            id,
            state: ProviderState::Open,
            sent: 0,
            reverse: 0,
            failures: 0,
            lifecycle_events: 0,
            last_error: None,
            numbered_input_reports: specification.numbered_input_reports,
            numbered_output_reports: specification.numbered_output_reports,
            static_features: specification.feature_report_responses,
        }
    }

    fn record_failure(&mut self, error: &ProviderError)
        ensures
            final(self).counters() == after_failure(old(self).counters(), error@),
            old(self).same_settings(final(self)),
    {
        self.failures = bump_exec(self.failures);
        self.last_error = Some(error.message());
    }

    /// Send one frame to the device.
    pub fn send_frame(&mut self, frame: ProviderFrame) -> (result: Result<(), ProviderError>)
        ensures
            (final(self).counters(), unit_result_view(result)) == spec_uhid_send(
                old(self).counters(),
                spec_plan_uhid_send(frame, old(self).numbered_input_reports()),
                unit_result_view(result),
            ),
            old(self).same_settings(final(self)),
    {
        if self.state != ProviderState::Open {
            return Err(ProviderError::Closed);
        }
        let result = match plan_uhid_send(frame, self.numbered_input_reports) {
            UhidSendPlan::Input { report_id, bytes } => self.io.input(report_id, bytes.as_slice()),
            UhidSendPlan::GetReply { request_id, status, bytes } => self.io.get_reply(
                request_id,
                status,
                bytes.as_slice(),
            ),
            UhidSendPlan::SetReply { request_id, status } => self.io.set_reply(request_id, status),
            UhidSendPlan::Reject(error) => Err(error),
        };
        match result {
            Ok(()) => {
                self.sent = bump_exec(self.sent);
                Ok(())
            },
            Err(error) => {
                self.record_failure(&error);
                Err(error)
            },
        }
    }

    /// Read one event from the device and handle it: send the reply the
    /// read calls for (see [`plan_uhid_drain`]), then take the read and the
    /// device's answer to the reply as [`UhidSession::accept_event`] does.
    pub fn drain_into<S: ProviderReverseEventSink>(&mut self, out: &mut S) -> (result: Result<
        (),
        ProviderError,
    >)
        ensures
            final(out).received().len() >= old(out).received().len(),
            exists|read: Result<Event, ProviderError>, answered: Result<(), ProviderError>|
                #![trigger uhid_read_view(read), unit_result_view(answered)]
                (spec_drain_reply(uhid_read_view(read), old(self).static_features())
                    is Nothing ==> answered is Ok) && spec_uhid_drain(
                    old(self).counters(),
                    old(self).session_id(),
                    old(self).numbered_output_reports(),
                    old(self).static_features(),
                    uhid_read_view(read),
                    unit_result_view(answered),
                ) == (final(self).counters(), unit_result_view(result), reverse_event_views(
                    final(out).received(),
                ).subrange(old(out).received().len() as int, final(out).received().len() as int)),
            final(out).received().subrange(0, old(out).received().len() as int) == old(
                out,
            ).received(),
            old(self).same_settings(final(self)),
    {
        let read = self.io.read_event();
        let reply = plan_uhid_drain(&read, &self.static_features);
        let answered = self.send_reply(reply);
        self.accept_event(read, answered, out)
    }

    /// Send `reply` to the device; nothing is sent, and the answer is `Ok`,
    /// when no reply is owed.
    pub fn send_reply(&mut self, reply: UhidReply) -> (answered: Result<(), ProviderError>)
        ensures
            reply is Nothing ==> answered is Ok,
            final(self).counters() == old(self).counters(),
            old(self).same_settings(final(self)),
    {
        match reply {
            UhidReply::Nothing => Ok(()),
            UhidReply::Get { request_id, status, bytes } => self.io.get_reply(request_id, status, bytes.as_slice()),
            UhidReply::SetAck { request_id, status } => self.io.set_reply(request_id, status),
        }
    }

    /// Take one event read from the device, with the device's answer to the
    /// reply sent for it: output reports and acknowledged set-report
    /// requests are numbered and passed on to `out`, answered get-report
    /// requests are numbered, notifications are counted, and failures are
    /// recorded as [`spec_uhid_drain`] says.
    pub fn accept_event<S: ProviderReverseEventSink>(
        &mut self,
        read: Result<Event, ProviderError>,
        answered: Result<(), ProviderError>,
        out: &mut S,
    ) -> (result: Result<(), ProviderError>)
        ensures
            final(out).received().len() >= old(out).received().len(),
            spec_uhid_drain(
                old(self).counters(),
                old(self).session_id(),
                old(self).numbered_output_reports(),
                old(self).static_features(),
                uhid_read_view(read),
                unit_result_view(answered),
            ) == (final(self).counters(), unit_result_view(result), reverse_event_views(
                final(out).received(),
            ).subrange(old(out).received().len() as int, final(out).received().len() as int)),
            final(out).received().subrange(0, old(out).received().len() as int) == old(
                out,
            ).received(),
            old(self).same_settings(final(self)),
    {
        let read_result = read;
        let event = match read_result {
            Ok(event) => event,
            Err(error) => {
                let ghost read = Err::<UhidEventView, ProviderErrorView>(error@);
                let ghost reply_view = unit_result_view(answered);
                assert(reverse_event_views(out.received()).subrange(
                    out.received().len() as int,
                    out.received().len() as int,
                ) =~= Seq::empty());
                assert(spec_uhid_drain(
                    old(self).counters(),
                    old(self).session_id(),
                    old(self).numbered_output_reports(),
                    old(self).static_features(),
                    read,
                    reply_view,
                ).1 == Err::<(), ProviderErrorView>(error@));
                assert(out.received().subrange(0, old(out).received().len() as int) =~= out.received());
                return Err(error);
            },
        };
        let ghost read = Ok::<UhidEventView, ProviderErrorView>(event@);
        let ghost start = out.received();
        let raw = match event {
            Event::Output { bytes } => {
                if self.numbered_output_reports {
                    if bytes.len() == 0 {
                        self.failures = bump_exec(self.failures);
                        self.last_error = Some(
                            String::from_str("numbered UHID output report omitted its report ID"),
                        );
                        assert(out.received().subrange(0, start.len() as int) =~= out.received());
                        assert(reverse_event_views(out.received()).subrange(
                            start.len() as int,
                            start.len() as int,
                        ) =~= Seq::empty());
                        let error = ProviderError::Read {
                            reason: String::from_str(
                                "numbered UHID output report omitted its report ID",
                            ),
                        };
                        assert(spec_uhid_drain(
                            old(self).counters(),
                            old(self).session_id(),
                            old(self).numbered_output_reports(),
                            old(self).static_features(),
                            read,
                            Ok(()),
                        ) == (self.counters(), Err::<(), ProviderErrorView>(error@), Seq::<ProviderReverseEventView>::empty()));
                        return Err(error);
                    }
                    let (report_id, rest) = crate::uhid_kernel::split_report_payload(true, bytes);
                    RawReverseEvent::HidOutput { report_id, bytes: rest }
                } else {
                    RawReverseEvent::HidOutput { report_id: None, bytes }
                }
            },
            Event::Get { id, report_id, report_type } => {
                let known = find_static_reply(&self.static_features, NativeHidReportKey { report_id, report_type }).is_some();
                match answered {
                    Ok(()) => {},
                    Err(error) => {
                        if !known {
                            self.record_failure(&error);
                        }
                        assert(out.received().subrange(0, start.len() as int) =~= out.received());
                        assert(reverse_event_views(out.received()).subrange(
                            start.len() as int,
                            start.len() as int,
                        ) =~= Seq::empty());
                        let ghost reply_view = Err::<(), ProviderErrorView>(error@);
                        assert(spec_uhid_drain(
                            old(self).counters(),
                            old(self).session_id(),
                            old(self).numbered_output_reports(),
                            old(self).static_features(),
                            read,
                            reply_view,
                        ) == (self.counters(), Err::<(), ProviderErrorView>(error@), Seq::<ProviderReverseEventView>::empty()));
                        return Err(error);
                    },
                }
                self.reverse = bump_exec(self.reverse);
                assert(out.received().subrange(0, start.len() as int) =~= out.received());
                assert(reverse_event_views(out.received()).subrange(
                    start.len() as int,
                    start.len() as int,
                ) =~= Seq::empty());
                assert(spec_uhid_drain(
                    old(self).counters(),
                    old(self).session_id(),
                    old(self).numbered_output_reports(),
                    old(self).static_features(),
                    read,
                    Ok(()),
                ) == (self.counters(), Ok::<(), ProviderErrorView>(()), Seq::<ProviderReverseEventView>::empty()));
                return Ok(());
            },
            Event::SetReport { id, report_id, report_type, bytes } => {
                match answered {
                    Ok(()) => {},
                    Err(error) => {
                        self.record_failure(&error);
                        assert(out.received().subrange(0, start.len() as int) =~= out.received());
                        assert(reverse_event_views(out.received()).subrange(
                            start.len() as int,
                            start.len() as int,
                        ) =~= Seq::empty());
                        let ghost reply_view = Err::<(), ProviderErrorView>(error@);
                        assert(spec_uhid_drain(
                            old(self).counters(),
                            old(self).session_id(),
                            old(self).numbered_output_reports(),
                            old(self).static_features(),
                            read,
                            reply_view,
                        ) == (self.counters(), Err::<(), ProviderErrorView>(error@), Seq::<ProviderReverseEventView>::empty()));
                        return Err(error);
                    },
                }
                RawReverseEvent::HidSetReportRequest { request_id: id, report_id, report_type, bytes }
            },
            Event::Lifecycle => {
                self.lifecycle_events = bump_exec(self.lifecycle_events);
                assert(out.received().subrange(0, start.len() as int) =~= out.received());
                assert(reverse_event_views(out.received()).subrange(
                    start.len() as int,
                    start.len() as int,
                ) =~= Seq::empty());
                assert(spec_uhid_drain(
                    old(self).counters(),
                    old(self).session_id(),
                    old(self).numbered_output_reports(),
                    old(self).static_features(),
                    read,
                    Ok(()),
                ) == (self.counters(), Ok::<(), ProviderErrorView>(()), Seq::<ProviderReverseEventView>::empty()));
                return Ok(());
            },
        };
        self.reverse = bump_exec(self.reverse);
        let pushed = ProviderReverseEvent { session: self.id, sequence: self.reverse, event: raw };
        let ghost pushed_view = pushed@;
        out.push(pushed);
        assert(out.received().subrange(0, start.len() as int) =~= start);
        assert(reverse_event_views(out.received()).subrange(
            start.len() as int,
            out.received().len() as int,
        ) =~= seq![pushed_view]);
        assert(spec_uhid_drain(
            old(self).counters(),
            old(self).session_id(),
            old(self).numbered_output_reports(),
            old(self).static_features(),
            read,
            Ok(()),
        ) == (self.counters(), Ok::<(), ProviderErrorView>(()), seq![pushed_view]));
        Ok(())
    }

    /// Destroy the device, once.
    pub fn close_session(&mut self) -> (result: Result<(), ProviderError>)
        ensures
            (final(self).counters(), unit_result_view(result)) == spec_session_close(
                old(self).counters(),
                unit_result_view(result),
            ),
            old(self).same_settings(final(self)),
    {
        if self.state == ProviderState::Closed {
            return Ok(());
        }
        self.state = ProviderState::Closed;
        let result = self.io.destroy();
        match &result {
            Ok(()) => {},
            Err(error) => {
                self.record_failure(error);
            },
        }
        result
    }

    /// The session's diagnostics.
    pub fn current_diagnostics(&self) -> (diagnostics: ProviderDiagnostics)
        ensures
            diagnostics.state == self.counters().state,
            diagnostics.frames_sent == self.counters().sent,
            diagnostics.reverse_events_drained == self.counters().reverse,
            diagnostics.write_failures == self.counters().failures,
            diagnostics.lifecycle_events == self.counters().lifecycle_events,
            match diagnostics.last_error {
                Some(text) => self.counters().last_error == Some(text@),
                None => self.counters().last_error is None,
            },
    {
        let last_error = match &self.last_error {
            Some(text) => Some(text.clone()),
            None => None,
        };
        ProviderDiagnostics {
            state: self.state,
            frames_sent: self.sent,
            reverse_events_drained: self.reverse,
            write_failures: self.failures,
            lifecycle_events: self.lifecycle_events,
            last_error,
        }
    }
}

impl<Io: UhidIo> NativeProviderSession for UhidSession<Io> {
    open spec fn sent_frame(before: Self, after: Self, frame: ProviderFrame, result: Result<(), ProviderError>) -> bool {
        &&& (after.counters(), unit_result_view(result)) == spec_uhid_send(
            before.counters(),
            spec_plan_uhid_send(frame, before.numbered_input_reports()),
            unit_result_view(result),
        )
        &&& before.same_settings(&after)
    }

    open spec fn drained(
        before: Self,
        after: Self,
        handed: Seq<ProviderReverseEventView>,
        result: Result<(), ProviderError>,
    ) -> bool {
        &&& exists|read: Result<Event, ProviderError>, answered: Result<(), ProviderError>|
            #![trigger uhid_read_view(read), unit_result_view(answered)]
            (spec_drain_reply(uhid_read_view(read), before.static_features()) is Nothing ==> answered is Ok)
                && spec_uhid_drain(
                before.counters(),
                before.session_id(),
                before.numbered_output_reports(),
                before.static_features(),
                uhid_read_view(read),
                unit_result_view(answered),
            ) == (after.counters(), unit_result_view(result), handed)
        &&& before.same_settings(&after)
    }

    open spec fn reports(&self, diagnostics: ProviderDiagnostics) -> bool {
        &&& diagnostics.state == self.counters().state
        &&& diagnostics.frames_sent == self.counters().sent
        &&& diagnostics.reverse_events_drained == self.counters().reverse
        &&& diagnostics.write_failures == self.counters().failures
        &&& diagnostics.lifecycle_events == self.counters().lifecycle_events
        &&& match diagnostics.last_error {
            Some(text) => self.counters().last_error == Some(text@),
            None => self.counters().last_error is None,
        }
    }

    open spec fn closed_with(before: Self, after: Self, result: Result<(), ProviderError>) -> bool {
        &&& (after.counters(), unit_result_view(result)) == spec_session_close(
            before.counters(),
            unit_result_view(result),
        )
        &&& before.same_settings(&after)
    }

    fn send(&mut self, frame: ProviderFrame) -> (result: Result<(), ProviderError>) {
        self.send_frame(frame)
    }

    fn drain_reverse_events<S: ProviderReverseEventSink>(&mut self, out: &mut S) -> (result: Result<
        (),
        ProviderError,
    >) {
        let ghost before = out.received();
        let result = self.drain_into(out);
        assert(reverse_event_views(out.received()).subrange(before.len() as int, out.received().len() as int)
            =~= reverse_event_views(out.received().subrange(before.len() as int, out.received().len() as int)));
        result
    }

    fn readiness(&self) -> (readiness: EventReadiness) {
        EventReadiness::AlwaysPoll
    }

    fn diagnostics(&self) -> (diagnostics: ProviderDiagnostics) {
        self.current_diagnostics()
    }

    fn close(&mut self) -> (result: Result<(), ProviderError>) {
        self.close_session()
    }
}

/// The controller-neutral Linux UHID provider.
#[derive(Debug, Clone, Copy, Default)]
pub struct LinuxUhidProvider;

impl LinuxUhidProvider {
    pub fn capabilities(&self) -> (capabilities: ProviderCapabilities)
        ensures
            capabilities.target == RealizationTarget::Hid,
            capabilities.provides_reverse_output,
    {
        ProviderCapabilities::for_target(RealizationTarget::Hid, true)
    }

    /// Validate `request` against this provider, check the host and open the
    /// device. No session exists unless every step succeeded.
    pub fn open_with_factory<F: UhidIoFactory>(
        &self,
        request: ProviderOpenRequest,
        factory: &F,
    ) -> (result: Result<UhidSession<F::Io>, ProviderError>)
        ensures
            request.spec_validate_against(
                ProviderCapabilities { target: RealizationTarget::Hid, provides_reverse_output: true },
            ) matches Err(error) ==> result matches Err(e) && e@ == (ProviderErrorView::Unsupported {
                reason: error.spec_message(),
            }),
            exists|preflight: Result<(), ProviderPreflightError>|
                #![trigger spec_admit_open(request, ProviderCapabilities { target: RealizationTarget::Hid, provides_reverse_output: true }, preflight)]
                match spec_admit_open(
                    request,
                    ProviderCapabilities { target: RealizationTarget::Hid, provides_reverse_output: true },
                    preflight,
                ) {
                    Err(refused) => result matches Err(e) && e@ == refused,
                    Ok(()) => request.realization is Hid,
                },
            exists|preflight: Result<(), ProviderPreflightError>, opened: Result<(), ProviderErrorView>|
                #![trigger spec_provider_open(request, ProviderCapabilities { target: RealizationTarget::Hid, provides_reverse_output: true }, preflight, opened)]
                opened_view(result) == spec_provider_open(request, ProviderCapabilities { target: RealizationTarget::Hid, provides_reverse_output: true }, preflight, opened),
            result matches Ok(session) ==> request.realization matches NativeControllerRealization::Hid(
                specification,
            ) && session.counters() == fresh_counters() && session.session_id() == request.session
                && session.numbered_input_reports() == specification.numbered_input_reports
                && session.numbered_output_reports() == specification.numbered_output_reports
                && session.static_features() == specification.feature_report_responses@,
    {
        let capabilities = self.capabilities();
        match request.validate_against(capabilities) {
            Ok(()) => {},
            Err(error) => {
                proof {
                    assert(spec_admit_open(request, capabilities, Ok::<(), ProviderPreflightError>(()))
                        is Err);
                }
                let refused = ProviderError::Unsupported { reason: error.message() };
                assert(opened_view(Err::<UhidSession<F::Io>, ProviderError>(refused)) == spec_provider_open(
                    request,
                    capabilities,
                    Ok::<(), ProviderPreflightError>(()),
                    Ok(()),
                ));
                return Err(refused);
            },
        }
        let preflight = factory.preflight(&request);
        let ghost answered = preflight;
        match admit_open(capabilities, &request, preflight) {
            Ok(()) => {},
            Err(error) => {
                proof {
                    assert(spec_admit_open(request, capabilities, answered) is Err);
                    assert(opened_view(Err::<UhidSession<F::Io>, ProviderError>(error)) == spec_provider_open(
                        request,
                        capabilities,
                        answered,
                        Ok(()),
                    ));
                }
                return Err(error);
            },
        }
        proof {
            assert(spec_admit_open(request, capabilities, answered) is Ok);
        }
        let session_id = request.session;
        let result = match request.realization {
            NativeControllerRealization::Hid(specification) => {
                let opened = factory.open(&specification);
                UhidSession::from_opened(opened, session_id, specification)
            },
            _ => Err(ProviderError::Unsupported { reason: String::from_str("UHID requires HID realization") }),
        };
        assert(opened_view(result) == spec_provider_open(request, capabilities, answered, opened_view(result)));
        result
    }
}

/// [`LinuxUhidProvider`] backed by a device factory.
pub struct LinuxUhidProviderOn<F: UhidIoFactory> {
    pub factory: F,
}

impl<F: UhidIoFactory> NativeProviderFactory for LinuxUhidProviderOn<F> {
    type Session = UhidSession<F::Io>;

    fn capabilities(&self) -> (capabilities: ProviderCapabilities) {
        LinuxUhidProvider.capabilities()
    }

    fn preflight(&self, request: &ProviderOpenRequest) -> (result: Result<(), ProviderPreflightError>) {
        self.factory.preflight(request)
    }

    /// Validate, preflight and open through the device factory; no
    /// session exists unless every step succeeded.
    fn open(&self, request: ProviderOpenRequest) -> (result: Result<Self::Session, ProviderError>)
        ensures
            request.spec_validate_against(
                ProviderCapabilities { target: RealizationTarget::Hid, provides_reverse_output: true },
            ) matches Err(error) ==> result matches Err(e) && e@ == (ProviderErrorView::Unsupported {
                reason: error.spec_message(),
            }),
            result matches Ok(session) ==> request.realization matches NativeControllerRealization::Hid(
                specification,
            ) && session.counters() == fresh_counters() && session.session_id() == request.session
                && session.numbered_input_reports() == specification.numbered_input_reports
                && session.numbered_output_reports() == specification.numbered_output_reports
                && session.static_features() == specification.feature_report_responses@,
    {
        LinuxUhidProvider.open_with_factory(request, &self.factory)
    }
}


/// Closing is idempotent: a closed session closes again successfully without
/// asking the device anything or changing its counters.
pub proof fn lemma_uhid_close_is_idempotent(
    counters: SessionCounters,
    first: Result<(), ProviderErrorView>,
    second: Result<(), ProviderErrorView>,
)
    ensures
        spec_session_close(counters, first).0.state == ProviderState::Closed,
        spec_session_close(spec_session_close(counters, first).0, second) == (
            spec_session_close(counters, first).0,
            Ok::<(), ProviderErrorView>(()),
        ),
{
}

/// A closed session refuses every frame with `Closed` and changes nothing.
pub proof fn lemma_uhid_closed_session_refuses_frames(
    counters: SessionCounters,
    destroyed: Result<(), ProviderErrorView>,
    plan: UhidSendPlanView,
    device: Result<(), ProviderErrorView>,
)
    ensures
        ({
            let closed = spec_session_close(counters, destroyed).0;
            spec_uhid_send(closed, plan, device) == (closed, Err::<(), ProviderErrorView>(
                ProviderErrorView::Closed,
            ))
        }),
{
}

/// A drain emits at most one reverse event, numbered with the session's new
/// count of drained events.
pub proof fn lemma_uhid_drain_numbers_events(
    counters: SessionCounters,
    session: RealizationSessionId,
    numbered_output_reports: bool,
    features: Seq<NativeHidFeatureResponse>,
    read: Result<UhidEventView, ProviderErrorView>,
    reply: Result<(), ProviderErrorView>,
)
    ensures
        ({
            let (after, result, events) = spec_uhid_drain(
                counters,
                session,
                numbered_output_reports,
                features,
                read,
                reply,
            );
            &&& events.len() <= 1
            &&& events.len() == 1 ==> events[0].session == session && events[0].sequence
                == after.reverse && after.reverse == bump(counters.reverse)
            &&& result is Err ==> events.len() == 0 && after.reverse == counters.reverse
        }),
{
}

} // verus!
