//! The plain values exchanged with a backend session: the frames it is
//! sent, the reverse events it reports, and its diagnostics.

use std::collections::BTreeMap;
use vstd::prelude::*;

use crate::realization::EvdevEvent;
use crate::reverse_translation::{ReversePayload, ReverseTarget};
use crate::reverse_translation::OutputFunction;
use crate::runtime_model::{
    BackendFamily, BackendLevel, BackendOpenContext, EmulationGoal, FidelityTier, HostPlatform,
};

verus! {

/// What a backend session is sent.
#[derive(Debug, Clone, PartialEq, Eq)]
pub enum BackendFrame {
    HidInputReport { report_id: Option<u8>, bytes: Vec<u8> },
    HidFeatureReport { report_id: u8, bytes: Vec<u8> },
    TransportPacket { endpoint_id: u8, bytes: Vec<u8> },
    EvdevEvents { events: Vec<EvdevEvent> },
}

/// Two frames carry the same kind and the same contents.
pub open spec fn same_frame(a: BackendFrame, b: BackendFrame) -> bool {
    match (a, b) {
        (
            BackendFrame::HidInputReport { report_id: ra, bytes: ba },
            BackendFrame::HidInputReport { report_id: rb, bytes: bb },
        ) => ra == rb && ba@ == bb@,
        (
            BackendFrame::HidFeatureReport { report_id: ra, bytes: ba },
            BackendFrame::HidFeatureReport { report_id: rb, bytes: bb },
        ) => ra == rb && ba@ == bb@,
        (
            BackendFrame::TransportPacket { endpoint_id: ea, bytes: ba },
            BackendFrame::TransportPacket { endpoint_id: eb, bytes: bb },
        ) => ea == eb && ba@ == bb@,
        (BackendFrame::EvdevEvents { events: ea }, BackendFrame::EvdevEvents { events: eb }) => ea@
            == eb@,
        _ => false,
    }
}

/// The label a frame's kind is shown with.
pub open spec fn spec_frame_kind(frame: BackendFrame) -> Seq<char> {
    match frame {
        BackendFrame::HidInputReport { .. } => "hid-input-report"@,
        BackendFrame::HidFeatureReport { .. } => "hid-feature-report"@,
        BackendFrame::TransportPacket { .. } => "transport-packet"@,
        BackendFrame::EvdevEvents { .. } => "evdev-events"@,
    }
}

/// The label a frame's kind is shown with.
pub fn frame_kind(frame: &BackendFrame) -> (kind: &'static str)
    ensures
        kind@ == spec_frame_kind(*frame),
{
    match frame {
        BackendFrame::HidInputReport { .. } => "hid-input-report",
        BackendFrame::HidFeatureReport { .. } => "hid-feature-report",
        BackendFrame::TransportPacket { .. } => "transport-packet",
        BackendFrame::EvdevEvents { .. } => "evdev-events",
    }
}

/// The lifecycle state of a backend session.
#[derive(Debug, Clone, Copy, PartialEq, Eq, Structural)]
pub enum BackendState {
    NotOpen,
    Open,
    Closed,
    Failed,
}

/// A backend session's counters and last error.
#[derive(Debug, Clone, PartialEq, Eq)]
pub struct BackendDiagnostics {
    pub backend_id: String,
    pub family: BackendFamily,
    pub state: BackendState,
    pub frames_sent: u64,
    pub reverse_events_drained: u64,
    pub write_failures: u64,
    pub last_error: Option<String>,
    pub vendor_counters: BTreeMap<String, u64>,
}

/// How much of a request a backend can realize.
#[derive(Debug, Clone, Copy, PartialEq, Eq, Structural)]
pub enum SupportLevel {
    Full,
    Partial,
    Unsupported,
}

/// What a planner asks a backend to realize.
#[derive(Debug, Clone, PartialEq, Eq)]
pub struct BackendRealizationRequest {
    pub profile_id: String,
    pub requested_goal: EmulationGoal,
    pub requested_fidelity_tier: FidelityTier,
    pub host_platform: HostPlatform,
    pub required_output_functions: Vec<OutputFunction>,
}

/// An output function a backend cannot realize, and why.
#[derive(Debug, Clone, PartialEq, Eq)]
pub struct UnsupportedOutputFunction {
    pub function: OutputFunction,
    pub reason: String,
}

/// A backend's answer to a realization request.
#[derive(Debug, Clone, PartialEq, Eq)]
pub struct BackendSupportReport {
    pub forward_support: SupportLevel,
    pub reverse_support: SupportLevel,
    pub supported_output_functions: Vec<OutputFunction>,
    pub unsupported_output_functions: Vec<UnsupportedOutputFunction>,
    pub notes: Vec<String>,
}

/// What a backend advertises to the planner.
#[derive(Debug, Clone, PartialEq, Eq)]
pub struct BackendInventoryEntry {
    pub backend_id: String,
    pub family: BackendFamily,
    pub level: BackendLevel,
    pub host_platform: HostPlatform,
    pub supported_fidelity_tiers: Vec<FidelityTier>,
    pub notes: Vec<String>,
}

/// Why a backend session refused or failed an operation.
#[derive(Debug, Clone, PartialEq, Eq)]
#[non_exhaustive]
pub enum BackendError {
    WouldBlock,
    SessionClosed,
    OpenFailed { reason: String },
    WriteFailed { reason: String },
    ReverseEventParseFailed { reason: String },
    CloseFailed { reason: String },
    Unsupported { reason: String },
}

impl BackendError {
    pub open spec fn spec_message(&self) -> Seq<char> {
        match self {
            BackendError::WouldBlock => "backend would block"@,
            BackendError::SessionClosed => "backend session is closed"@,
            BackendError::OpenFailed { reason } => "backend open failed: "@ + reason@,
            BackendError::WriteFailed { reason } => "backend write failed: "@ + reason@,
            BackendError::ReverseEventParseFailed { reason } =>
                "backend reverse event could not be parsed: "@ + reason@,
            BackendError::CloseFailed { reason } => "backend close failed: "@ + reason@,
            BackendError::Unsupported { reason } => "backend operation unsupported: "@ + reason@,
        }
    }

    /// The error's human-readable message.
    pub fn message(&self) -> (text: String)
        ensures
            text@ == self.spec_message(),
    {
        let (head, reason) = match self {
            BackendError::WouldBlock => {
                return String::from_str("backend would block");
            },
            BackendError::SessionClosed => {
                return String::from_str("backend session is closed");
            },
            BackendError::OpenFailed { reason } => ("backend open failed: ", reason),
            BackendError::WriteFailed { reason } => ("backend write failed: ", reason),
            BackendError::ReverseEventParseFailed { reason } => (
                "backend reverse event could not be parsed: ",
                reason,
            ),
            BackendError::CloseFailed { reason } => ("backend close failed: ", reason),
            BackendError::Unsupported { reason } => ("backend operation unsupported: ", reason),
        };
        let mut text = String::from_str(head);
        text.append(reason.as_str());
        text
    }
}

/// The handle a backend's reverse events become readable on.
#[derive(Debug, Clone, Copy, PartialEq, Eq, Structural)]
pub struct ReadinessHandle(pub i32);

/// Whether a backend session has reverse events to drain.
#[derive(Debug, Clone, Copy, PartialEq, Eq, Structural)]
pub enum EventReadiness {
    Readable(ReadinessHandle),
    AlwaysPoll,
    NoReverseEvents,
}

/// The kind of report a reverse event came from.
#[derive(Debug, Clone, Copy, PartialEq, Eq, Structural)]
#[non_exhaustive]
pub enum BackendReverseEventKind {
    HidOutputReport,
    HidFeatureReport,
}

/// What a backend session reports back from the host.
#[derive(Debug, Clone, PartialEq, Eq)]
pub struct BackendReverseEvent {
    pub session_id: u64,
    pub profile_id: Option<String>,
    pub timestamp: u64,
    pub sequence: u64,
    pub kind: BackendReverseEventKind,
    pub target: Option<ReverseTarget>,
    pub payload: ReversePayload,
}

/// A copy of a byte buffer.
pub fn copy_bytes(bytes: &Vec<u8>) -> (copy: Vec<u8>)
    ensures
        copy@ == bytes@,
{
    let mut copy: Vec<u8> = Vec::new();
    crate::bytes::push_all(&mut copy, bytes.as_slice());
    copy
}

/// A copy of a list of evdev events.
pub fn copy_events(events: &Vec<EvdevEvent>) -> (copy: Vec<EvdevEvent>)
    ensures
        copy@ == events@,
{
    let mut copy: Vec<EvdevEvent> = Vec::new();
    let mut index: usize = 0;
    while index < events.len()
        invariant
            index <= events@.len(),
            copy@ == events@.subrange(0, index as int),
        decreases events@.len() - index,
    {
        copy.push(events[index]);
        index = index + 1;
        assert(copy@ =~= events@.subrange(0, index as int));
    }
    assert(events@.subrange(0, events@.len() as int) =~= events@);
    copy
}

impl BackendFrame {
    /// A copy of the frame, with the same kind and contents.
    pub fn copy(&self) -> (copy: BackendFrame)
        ensures
            same_frame(copy, *self),
    {
        match self {
            BackendFrame::HidInputReport { report_id, bytes } => BackendFrame::HidInputReport {
                report_id: *report_id,
                bytes: copy_bytes(bytes),
            },
            BackendFrame::HidFeatureReport { report_id, bytes } => BackendFrame::HidFeatureReport {
                report_id: *report_id,
                bytes: copy_bytes(bytes),
            },
            BackendFrame::TransportPacket { endpoint_id, bytes } => BackendFrame::TransportPacket {
                endpoint_id: *endpoint_id,
                bytes: copy_bytes(bytes),
            },
            BackendFrame::EvdevEvents { events } => BackendFrame::EvdevEvents {
                events: copy_events(events),
            },
        }
    }

    /// Whether two frames carry the same kind and contents.
    pub fn same_as(&self, other: &BackendFrame) -> (same: bool)
        ensures
            same == same_frame(*self, *other),
    {
        match (self, other) {
            (
                BackendFrame::HidInputReport { report_id: ra, bytes: ba },
                BackendFrame::HidInputReport { report_id: rb, bytes: bb },
            ) => *ra == *rb && bytes_equal(ba, bb),
            (
                BackendFrame::HidFeatureReport { report_id: ra, bytes: ba },
                BackendFrame::HidFeatureReport { report_id: rb, bytes: bb },
            ) => *ra == *rb && bytes_equal(ba, bb),
            (
                BackendFrame::TransportPacket { endpoint_id: ea, bytes: ba },
                BackendFrame::TransportPacket { endpoint_id: eb, bytes: bb },
            ) => *ea == *eb && bytes_equal(ba, bb),
            (
                BackendFrame::EvdevEvents { events: ea },
                BackendFrame::EvdevEvents { events: eb },
            ) => events_equal(ea, eb),
            _ => false,
        }
    }
}

fn bytes_equal(a: &Vec<u8>, b: &Vec<u8>) -> (equal: bool)
    ensures
        equal == (a@ == b@),
{
    if a.len() != b.len() {
        return false;
    }
    let mut index: usize = 0;
    while index < a.len()
        invariant
            a@.len() == b@.len(),
            index <= a@.len(),
            forall|i: int| 0 <= i < index ==> a@[i] == b@[i],
        decreases a@.len() - index,
    {
        if a[index] != b[index] {
            return false;
        }
        index = index + 1;
    }
    assert(a@ =~= b@);
    true
}

fn events_equal(a: &Vec<EvdevEvent>, b: &Vec<EvdevEvent>) -> (equal: bool)
    ensures
        equal == (a@ == b@),
{
    if a.len() != b.len() {
        return false;
    }
    let mut index: usize = 0;
    while index < a.len()
        invariant
            a@.len() == b@.len(),
            index <= a@.len(),
            forall|i: int| 0 <= i < index ==> a@[i] == b@[i],
        decreases a@.len() - index,
    {
        let x = a[index];
        let y = b[index];
        if !(x.event_type == y.event_type && x.code == y.code && x.value == y.value) {
            return false;
        }
        index = index + 1;
    }
    assert(a@ =~= b@);
    true
}

/// A live backend session: it opens, takes frames, hands back reverse
/// events, reports readiness and diagnostics, and closes.
pub trait BackendSession: Sized {
    /// The session's counters have room for one more operation.
    spec fn can_continue(&self) -> bool;

    /// The session ID the session reports.
    spec fn spec_session_id(&self) -> u64;

    /// Starting the session took it from `before` to `after`, answering
    /// `result`.
    spec fn opened(before: Self, after: Self, result: Result<(), BackendError>) -> bool;

    /// Sending `frame` took the session from `before` to `after`, answering
    /// `result`.
    spec fn sent(before: Self, after: Self, frame: BackendFrame, result: Result<(), BackendError>) -> bool;

    /// Draining took the session from `before` to `after`, handing out
    /// `handed` and answering `result`.
    spec fn drained(
        before: Self,
        after: Self,
        handed: Seq<BackendReverseEvent>,
        result: Result<(), BackendError>,
    ) -> bool;

    /// Asking for readiness took the session from `before` to `after`,
    /// answering `readiness`.
    spec fn readied(before: Self, after: Self, readiness: EventReadiness) -> bool;

    /// Closing took the session from `before` to `after`, answering
    /// `result`.
    spec fn closed_with(before: Self, after: Self, result: Result<(), BackendError>) -> bool;

    fn session_id(&self) -> (id: u64)
        ensures
            id == self.spec_session_id(),
    ;

    fn open(&mut self) -> (result: Result<(), BackendError>)
        requires
            old(self).can_continue(),
        ensures
            Self::opened(*old(self), *final(self), result),
    ;

    fn send(&mut self, frame: BackendFrame) -> (result: Result<(), BackendError>)
        requires
            old(self).can_continue(),
        ensures
            Self::sent(*old(self), *final(self), frame, result),
    ;

    /// Drained events are appended to `out`.
    fn drain_reverse_events(&mut self, out: &mut Vec<BackendReverseEvent>) -> (result: Result<
        (),
        BackendError,
    >)
        requires
            old(self).can_continue(),
        ensures
            final(out)@.len() >= old(out)@.len(),
            final(out)@.subrange(0, old(out)@.len() as int) == old(out)@,
            Self::drained(
                *old(self),
                *final(self),
                final(out)@.subrange(old(out)@.len() as int, final(out)@.len() as int),
                result,
            ),
    ;

    /// Asking how reverse events become ready leaves room for the
    /// session's operations as it was.
    fn readiness(&mut self) -> (readiness: EventReadiness)
        ensures
            final(self).can_continue() == old(self).can_continue(),
            Self::readied(*old(self), *final(self), readiness),
    ;

    fn diagnostics(&self) -> BackendDiagnostics;

    fn close(&mut self) -> (result: Result<(), BackendError>)
        ensures
            Self::closed_with(*old(self), *final(self), result),
    ;
}

/// A provider of backend sessions: what it advertises, what it can
/// realize, and how it opens a session. Implementations decide whether an
/// open succeeds; a session they hand out has room for its first
/// operations.
pub trait BackendFactory {
    type Session: BackendSession;

    /// The ID the factory registers under.
    spec fn spec_backend_id(&self) -> Seq<char>;

    fn backend_id(&self) -> (id: String)
        ensures
            id@ == self.spec_backend_id(),
    ;

    fn family(&self) -> BackendFamily;

    fn inventory_entry(&self) -> BackendInventoryEntry;

    fn can_realize(&self, request: &BackendRealizationRequest) -> BackendSupportReport;

    /// Opening a session for `context` answered `result`.
    spec fn session_opened(&self, context: BackendOpenContext, result: Result<Self::Session, BackendError>) -> bool;

    fn open_session(&self, context: &BackendOpenContext) -> (result: Result<
        Self::Session,
        BackendError,
    >)
        ensures
            result matches Ok(session) ==> session.can_continue(),
            self.session_opened(*context, result),
    ;
}

} // verus!
