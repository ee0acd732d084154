//! A scriptable fake backend for session tests: a factory built with
//! failure injections, and the sessions it opens, which capture what
//! they are sent and replay the reverse events they were given.

use std::collections::BTreeMap;
use std::collections::VecDeque;
use vstd::prelude::*;

use crate::backend_api::{
    copy_bytes, copy_events, same_frame, BackendDiagnostics, BackendError, BackendFactory,
    BackendFrame, BackendInventoryEntry, BackendRealizationRequest, BackendReverseEvent, BackendSession,
    BackendState,
    BackendSupportReport, EventReadiness, ReadinessHandle, SupportLevel,
    UnsupportedOutputFunction,
};
use crate::reverse_translation::{OutputFunction, ReversePayload};
use crate::runtime_model::{BackendFamily, BackendLevel, BackendOpenContext, FidelityTier, HostPlatform};

verus! {

// ---------------------------------------------------------------------
// Copies of plain values
// ---------------------------------------------------------------------

/// Two errors are the same variant with the same reason.
pub open spec fn same_error(a: BackendError, b: BackendError) -> bool {
    match (a, b) {
        (BackendError::WouldBlock, BackendError::WouldBlock) => true,
        (BackendError::SessionClosed, BackendError::SessionClosed) => true,
        (BackendError::OpenFailed { reason: x }, BackendError::OpenFailed { reason: y }) => x@ == y@,
        (BackendError::WriteFailed { reason: x }, BackendError::WriteFailed { reason: y }) => x@
            == y@,
        (
            BackendError::ReverseEventParseFailed { reason: x },
            BackendError::ReverseEventParseFailed { reason: y },
        ) => x@ == y@,
        (BackendError::CloseFailed { reason: x }, BackendError::CloseFailed { reason: y }) => x@
            == y@,
        (BackendError::Unsupported { reason: x }, BackendError::Unsupported { reason: y }) => x@
            == y@,
        _ => false,
    }
}

/// A copy of an error.
pub fn copy_error(error: &BackendError) -> (copy: BackendError)
    ensures
        same_error(copy, *error),
        copy.spec_message() == error.spec_message(),
{
    match error {
        BackendError::WouldBlock => BackendError::WouldBlock,
        BackendError::SessionClosed => BackendError::SessionClosed,
        BackendError::OpenFailed { reason } => BackendError::OpenFailed { reason: reason.clone() },
        BackendError::WriteFailed { reason } => BackendError::WriteFailed { reason: reason.clone() },
        BackendError::ReverseEventParseFailed { reason } => BackendError::ReverseEventParseFailed {
            reason: reason.clone(),
        },
        BackendError::CloseFailed { reason } => BackendError::CloseFailed { reason: reason.clone() },
        BackendError::Unsupported { reason } => BackendError::Unsupported { reason: reason.clone() },
    }
}

/// Two reverse events carry the same fields and payload.
pub open spec fn same_reverse_event(a: BackendReverseEvent, b: BackendReverseEvent) -> bool {
    &&& a.session_id == b.session_id
    &&& match (a.profile_id, b.profile_id) {
        (Some(x), Some(y)) => x@ == y@,
        (None, None) => true,
        _ => false,
    }
    &&& a.timestamp == b.timestamp
    &&& a.sequence == b.sequence
    &&& a.kind == b.kind
    &&& a.target == b.target
    &&& match (a.payload, b.payload) {
        (
            ReversePayload::Hid { report_id: ra, bytes: ba },
            ReversePayload::Hid { report_id: rb, bytes: bb },
        ) => ra == rb && ba@ == bb@,
        (ReversePayload::Evdev { events: ea }, ReversePayload::Evdev { events: eb }) => ea@
            == eb@,
        (ReversePayload::Other, ReversePayload::Other) => true,
        _ => false,
    }
}

/// A copy of a reverse event.
pub fn copy_reverse_event(event: &BackendReverseEvent) -> (copy: BackendReverseEvent)
    ensures
        same_reverse_event(copy, *event),
{
    let profile_id = match &event.profile_id {
        Some(id) => Some(id.clone()),
        None => None,
    };
    let payload = match &event.payload {
        ReversePayload::Hid { report_id, bytes } => ReversePayload::Hid {
            report_id: *report_id,
            bytes: copy_bytes(bytes),
        },
        ReversePayload::Evdev { events } => ReversePayload::Evdev { events: copy_events(events) },
        ReversePayload::Other => ReversePayload::Other,
    };
    BackendReverseEvent {
        session_id: event.session_id,
        profile_id,
        timestamp: event.timestamp,
        sequence: event.sequence,
        kind: event.kind,
        target: event.target,
        payload,
    }
}

fn copy_texts(texts: &Vec<String>) -> (copy: Vec<String>)
    ensures
        copy@.len() == texts@.len(),
        forall|i: int| 0 <= i < texts@.len() ==> (#[trigger] copy@[i])@ == texts@[i]@,
{
    let mut copy: Vec<String> = Vec::new();
    let mut index: usize = 0;
    while index < texts.len()
        invariant
            index <= texts@.len(),
            copy@.len() == index,
            forall|i: int| 0 <= i < index ==> (#[trigger] copy@[i])@ == texts@[i]@,
        decreases texts@.len() - index,
    {
        copy.push(texts[index].clone());
        index = index + 1;
    }
    copy
}

fn copy_tiers(tiers: &Vec<FidelityTier>) -> (copy: Vec<FidelityTier>)
    ensures
        copy@ == tiers@,
{
    let mut copy: Vec<FidelityTier> = Vec::new();
    let mut index: usize = 0;
    while index < tiers.len()
        invariant
            index <= tiers@.len(),
            copy@ == tiers@.subrange(0, index as int),
        decreases tiers@.len() - index,
    {
        copy.push(tiers[index]);
        index = index + 1;
        assert(copy@ =~= tiers@.subrange(0, index as int));
    }
    assert(tiers@.subrange(0, tiers@.len() as int) =~= tiers@);
    copy
}

fn copy_functions(functions: &Vec<OutputFunction>) -> (copy: Vec<OutputFunction>)
    ensures
        copy@ == functions@,
{
    let mut copy: Vec<OutputFunction> = Vec::new();
    let mut index: usize = 0;
    while index < functions.len()
        invariant
            index <= functions@.len(),
            copy@ == functions@.subrange(0, index as int),
        decreases functions@.len() - index,
    {
        copy.push(functions[index]);
        index = index + 1;
        assert(copy@ =~= functions@.subrange(0, index as int));
    }
    assert(functions@.subrange(0, functions@.len() as int) =~= functions@);
    copy
}

// ---------------------------------------------------------------------
// The factory and its builder
// ---------------------------------------------------------------------

/// A failure the fake backend can be scripted to show.
#[derive(Debug, Clone, PartialEq, Eq)]
pub enum FakeFailure {
    /// Each successful send takes long enough for a runtime's queues to
    /// outrun the backend.
    SlowSend,
    OpenRefused(BackendError),
    SendWouldBlock,
    SendPermanentlyFails(BackendError),
    DrainParseError,
    CloseFails,
    EventReadinessFlapping,
    /// A provider that panics while opening, surfaced as an open failure.
    ProviderPanic,
}

/// How a fake backend factory is configured.
#[derive(Debug, Clone)]
pub struct FakeBackendFactoryBuilder {
    pub backend_id: String,
    pub family: BackendFamily,
    pub level: BackendLevel,
    pub host_platform: HostPlatform,
    pub supported_fidelity_tiers: Vec<FidelityTier>,
    pub supported_output_functions: Vec<OutputFunction>,
    pub unsupported_output_functions: Vec<UnsupportedOutputFunction>,
    pub notes: Vec<String>,
    pub forward_support: SupportLevel,
    pub reverse_support: SupportLevel,
    pub reverse_events: Vec<BackendReverseEvent>,
    pub open_error: Option<BackendError>,
    pub send_would_block_once: bool,
    pub slow_send: bool,
    pub send_error: Option<BackendError>,
    pub drain_parse_error_once: bool,
    pub close_error: bool,
    pub flapping_readiness: bool,
}

/// A fake backend configured with the defaults: `fake-backend`, a Linux
/// UHID backend at the HID level offering the identity-aware tier, full
/// support, no outputs, no reverse events and no failures.
pub fn backend_factory() -> (builder: FakeBackendFactoryBuilder)
    ensures
        builder.backend_id@ == "fake-backend"@,
        builder.family == BackendFamily::LinuxUhid,
        builder.level == BackendLevel::Hid,
        builder.host_platform == HostPlatform::Linux,
        builder.supported_fidelity_tiers@ == seq![FidelityTier::IdentityAware],
        builder.supported_output_functions@.len() == 0,
        builder.unsupported_output_functions@.len() == 0,
        builder.notes@.len() == 0,
        builder.forward_support == SupportLevel::Full,
        builder.reverse_support == SupportLevel::Full,
        builder.reverse_events@.len() == 0,
        builder.open_error is None,
        !builder.send_would_block_once,
        !builder.slow_send,
        builder.send_error is None,
        !builder.drain_parse_error_once,
        !builder.close_error,
        !builder.flapping_readiness,
{
    let mut supported_fidelity_tiers: Vec<FidelityTier> = Vec::new();
    supported_fidelity_tiers.push(FidelityTier::IdentityAware);
    FakeBackendFactoryBuilder {
        backend_id: String::from_str("fake-backend"),
        family: BackendFamily::LinuxUhid,
        level: BackendLevel::Hid,
        host_platform: HostPlatform::Linux,
        supported_fidelity_tiers,
        supported_output_functions: Vec::new(),
        unsupported_output_functions: Vec::new(),
        notes: Vec::new(),
        forward_support: SupportLevel::Full,
        reverse_support: SupportLevel::Full,
        reverse_events: Vec::new(),
        open_error: None,
        send_would_block_once: false,
        slow_send: false,
        send_error: None,
        drain_parse_error_once: false,
        close_error: false,
        flapping_readiness: false,
    }
}

/// A fake backend built with one scripted failure.
pub fn failing_backend(kind: FakeFailure) -> (factory: FakeBackendFactory)
    ensures
        factory.config.open_error is Some <==> (kind is OpenRefused || kind is ProviderPanic),
        factory.config.send_would_block_once <==> kind is SendWouldBlock,
        factory.config.send_error is Some <==> kind is SendPermanentlyFails,
        factory.config.drain_parse_error_once <==> kind is DrainParseError,
        factory.config.close_error <==> kind is CloseFails,
        factory.config.flapping_readiness <==> kind is EventReadinessFlapping,
        factory.config.slow_send <==> kind is SlowSend,
{
    backend_factory().with_failure(kind).build()
}

/// The message a simulated provider panic surfaces with.
pub open spec fn provider_panic_reason() -> Seq<char> {
    "simulated provider panic"@
}

impl FakeBackendFactoryBuilder {
    pub fn backend_id(self, backend_id: String) -> (builder: Self)
        ensures
            builder == (FakeBackendFactoryBuilder { backend_id, ..self }),
    {
        let mut builder = self;
        builder.backend_id = backend_id;
        builder
    }

    pub fn family(self, family: BackendFamily) -> (builder: Self)
        ensures
            builder == (FakeBackendFactoryBuilder { family, ..self }),
    {
        let mut builder = self;
        builder.family = family;
        builder
    }

    pub fn level(self, level: BackendLevel) -> (builder: Self)
        ensures
            builder == (FakeBackendFactoryBuilder { level, ..self }),
    {
        let mut builder = self;
        builder.level = level;
        builder
    }

    pub fn platform(self, host_platform: HostPlatform) -> (builder: Self)
        ensures
            builder == (FakeBackendFactoryBuilder { host_platform, ..self }),
    {
        let mut builder = self;
        builder.host_platform = host_platform;
        builder
    }

    pub fn supported_fidelity_tiers(self, tiers: Vec<FidelityTier>) -> (builder: Self)
        ensures
            builder == (FakeBackendFactoryBuilder { supported_fidelity_tiers: tiers, ..self }),
    {
        let mut builder = self;
        builder.supported_fidelity_tiers = tiers;
        builder
    }

    pub fn support_report(self, forward: SupportLevel, reverse: SupportLevel) -> (builder: Self)
        ensures
            builder == (FakeBackendFactoryBuilder {
                forward_support: forward,
                reverse_support: reverse,
                ..self
            }),
    {
        let mut builder = self;
        builder.forward_support = forward;
        builder.reverse_support = reverse;
        builder
    }

    /// Declare an output function the backend realizes, once.
    pub fn declares_reverse_output(self, function: OutputFunction) -> (builder: Self)
        ensures
            builder.supported_output_functions@ == (if self.supported_output_functions@.contains(
                function,
            ) {
                self.supported_output_functions@
            } else {
                self.supported_output_functions@.push(function)
            }),
            builder == (FakeBackendFactoryBuilder {
                supported_output_functions: builder.supported_output_functions,
                ..self
            }),
    {
        let mut builder = self;
        let mut index: usize = 0;
        let mut present = false;
        while index < builder.supported_output_functions.len()
            invariant
                builder.supported_output_functions == self.supported_output_functions,
                index <= builder.supported_output_functions@.len(),
                present <==> exists|i: int|
                    0 <= i < index && builder.supported_output_functions@[i] == function,
            decreases builder.supported_output_functions@.len() - index,
        {
            if builder.supported_output_functions[index] == function {
                present = true;
            }
            index = index + 1;
        }
        if !present {
            builder.supported_output_functions.push(function);
        }
        builder
    }

    /// Declare an output function the backend cannot realize, and why.
    pub fn unsupported_output(self, function: OutputFunction, reason: String) -> (builder: Self)
        ensures
            builder.unsupported_output_functions@ == self.unsupported_output_functions@.push(
                UnsupportedOutputFunction { function, reason },
            ),
            builder == (FakeBackendFactoryBuilder {
                unsupported_output_functions: builder.unsupported_output_functions,
                ..self
            }),
    {
        let mut builder = self;
        builder.unsupported_output_functions.push(UnsupportedOutputFunction { function, reason });
        builder
    }

    pub fn note(self, note: String) -> (builder: Self)
        ensures
            builder.notes@ == self.notes@.push(note),
            builder == (FakeBackendFactoryBuilder { notes: builder.notes, ..self }),
    {
        let mut builder = self;
        builder.notes.push(note);
        builder
    }

    /// The reverse events every opened session starts with, in order.
    pub fn reverse_events_from_iter(self, reverse_events: Vec<BackendReverseEvent>) -> (builder:
        Self)
        ensures
            builder == (FakeBackendFactoryBuilder { reverse_events, ..self }),
    {
        let mut builder = self;
        builder.reverse_events = reverse_events;
        builder
    }

    /// Script one failure; the other settings stay as they were.
    pub fn with_failure(self, failure: FakeFailure) -> (builder: Self)
        ensures
            builder == (FakeBackendFactoryBuilder {
                open_error: builder.open_error,
                send_would_block_once: builder.send_would_block_once,
                slow_send: builder.slow_send,
                send_error: builder.send_error,
                drain_parse_error_once: builder.drain_parse_error_once,
                close_error: builder.close_error,
                flapping_readiness: builder.flapping_readiness,
                ..self
            }),
            match failure {
                FakeFailure::OpenRefused(error) => builder.open_error == Some(error),
                FakeFailure::ProviderPanic => (builder.open_error matches Some(
                    BackendError::OpenFailed { reason },
                ) && reason@ == provider_panic_reason()),
                _ => builder.open_error == self.open_error,
            },
            builder.send_would_block_once == (self.send_would_block_once
                || failure is SendWouldBlock),
            builder.slow_send == (self.slow_send || failure is SlowSend),
            builder.send_error == match failure {
                FakeFailure::SendPermanentlyFails(error) => Some(error),
                _ => self.send_error,
            },
            builder.drain_parse_error_once == (self.drain_parse_error_once
                || failure is DrainParseError),
            builder.close_error == (self.close_error || failure is CloseFails),
            builder.flapping_readiness == (self.flapping_readiness
                || failure is EventReadinessFlapping),
    {
        let mut builder = self;
        match failure {
            FakeFailure::SlowSend => builder.slow_send = true,
            FakeFailure::OpenRefused(error) => builder.open_error = Some(error),
            FakeFailure::SendWouldBlock => builder.send_would_block_once = true,
            FakeFailure::SendPermanentlyFails(error) => builder.send_error = Some(error),
            FakeFailure::DrainParseError => builder.drain_parse_error_once = true,
            FakeFailure::CloseFails => builder.close_error = true,
            FakeFailure::EventReadinessFlapping => builder.flapping_readiness = true,
            FakeFailure::ProviderPanic => {
                builder.open_error = Some(
                    BackendError::OpenFailed {
                        reason: String::from_str("simulated provider panic"),
                    },
                );
            },
        }
        builder
    }

    pub fn build(self) -> (factory: FakeBackendFactory)
        ensures
            factory.config == self,
    {
        FakeBackendFactory::from_builder(self)
    }
}

/// A fake backend factory.
#[derive(Debug, Clone)]
pub struct FakeBackendFactory {
    pub config: FakeBackendFactoryBuilder,
}

/// Whether `functions` holds `function`.
pub open spec fn holds_function(functions: Seq<OutputFunction>, function: OutputFunction) -> bool {
    functions.contains(function)
}

/// The requested output functions the factory does not declare, in
/// request order.
pub open spec fn undeclared_functions(requested: Seq<OutputFunction>, declared: Seq<OutputFunction>) -> Seq<
    OutputFunction,
>
    decreases requested.len(),
{
    if requested.len() == 0 {
        Seq::empty()
    } else {
        let rest = undeclared_functions(requested.drop_last(), declared);
        if declared.contains(requested.last()) {
            rest
        } else {
            rest.push(requested.last())
        }
    }
}

/// The kebab-case name of a fidelity tier.
pub open spec fn tier_name(tier: FidelityTier) -> Seq<char> {
    match tier {
        FidelityTier::Compatibility => "compatibility"@,
        FidelityTier::IdentityAware => "identity-aware"@,
        FidelityTier::HardwareFaithful => "hardware-faithful"@,
    }
}

/// The kebab-case name of a host platform.
pub open spec fn host_name(host: HostPlatform) -> Seq<char> {
    match host {
        HostPlatform::Linux => "linux"@,
        HostPlatform::Windows => "windows"@,
        HostPlatform::Macos => "macos"@,
    }
}

fn tier_text(tier: FidelityTier) -> (text: &'static str)
    ensures
        text@ == tier_name(tier),
{
    match tier {
        FidelityTier::Compatibility => "compatibility",
        FidelityTier::IdentityAware => "identity-aware",
        FidelityTier::HardwareFaithful => "hardware-faithful",
    }
}

fn host_text(host: HostPlatform) -> (text: &'static str)
    ensures
        text@ == host_name(host),
{
    match host {
        HostPlatform::Linux => "linux",
        HostPlatform::Windows => "windows",
        HostPlatform::Macos => "macos",
    }
}

/// The notes the fake adds to its configured ones: an unlisted tier, then
/// a foreign host.
pub open spec fn fake_support_notes(config: FakeBackendFactoryBuilder, request: BackendRealizationRequest) -> Seq<
    Seq<char>,
> {
    let configured = config.notes@.map_values(|note: String| note@);
    let tier = if !config.supported_fidelity_tiers@.contains(request.requested_fidelity_tier) {
        seq![
            "requested fidelity `"@ + tier_name(request.requested_fidelity_tier)
                + "` is not present in fake inventory"@,
        ]
    } else {
        Seq::empty()
    };
    let host = if request.host_platform != config.host_platform {
        seq![
            "requested host `"@ + host_name(request.host_platform) + "` does not match fake host `"@
                + host_name(config.host_platform) + "`"@,
        ]
    } else {
        Seq::empty()
    };
    configured + tier + host
}

/// A session just opened from `config` for `context`: nothing sent or
/// drained yet, the configured reverse events queued and the configured
/// faults armed.
pub open spec fn fresh_fake_session(
    config: FakeBackendFactoryBuilder,
    context: BackendOpenContext,
    session: FakeBackendSession,
) -> bool {
    &&& session.session_id == context.session_id
    &&& session.bound_session is None
    &&& session.backend_id@ == config.backend_id@
    &&& session.family == config.family
    &&& session.reverse_events@.len() == config.reverse_events@.len()
    &&& forall|i: int|
        0 <= i < config.reverse_events@.len() ==> same_reverse_event(
            #[trigger] session.reverse_events@[i],
            config.reverse_events@[i],
        )
    &&& session.written_frames@.len() == 0
    &&& session.send_would_block_once == config.send_would_block_once
    &&& session.slow_send == config.slow_send
    &&& match (session.send_error, config.send_error) {
        (Some(a), Some(b)) => same_error(a, b),
        (None, None) => true,
        _ => false,
    }
    &&& session.drain_parse_error_once == config.drain_parse_error_once
    &&& session.close_error == config.close_error
    &&& session.flapping_readiness == config.flapping_readiness
    &&& !session.readiness_toggle
    &&& session.frames_sent == 0
    &&& session.reverse_events_drained == 0
    &&& session.write_failures == 0
    &&& session.last_error is None
    &&& session.state == BackendState::NotOpen
    &&& !session.closed
}

impl FakeBackendFactory {
    pub fn from_builder(builder: FakeBackendFactoryBuilder) -> (factory: Self)
        ensures
            factory.config == builder,
    {
        FakeBackendFactory { config: builder }
    }

    /// Open a fake session, or give back the scripted open failure. The
    /// session starts not open, with the configured reverse events queued.
    pub fn open_fake_session(&self, context: &BackendOpenContext) -> (result: Result<
        FakeBackendSession,
        BackendError,
    >)
        ensures
            match self.config.open_error {
                Some(error) => result matches Err(e) && same_error(e, error),
                None => result matches Ok(session) && fresh_fake_session(self.config, *context, session),
            },
    {
        if let Some(error) = &self.config.open_error {
            return Err(copy_error(error));
        }
        let mut reverse_events: VecDeque<BackendReverseEvent> = VecDeque::new();
        let mut index: usize = 0;
        while index < self.config.reverse_events.len()
            invariant
                index <= self.config.reverse_events@.len(),
                reverse_events@.len() == index,
                forall|i: int|
                    0 <= i < index ==> same_reverse_event(
                        #[trigger] reverse_events@[i],
                        self.config.reverse_events@[i],
                    ),
            decreases self.config.reverse_events@.len() - index,
        {
            reverse_events.push_back(copy_reverse_event(&self.config.reverse_events[index]));
            index = index + 1;
        }
        let send_error = match &self.config.send_error {
            Some(error) => Some(copy_error(error)),
            None => None,
        };
        Ok(
            FakeBackendSession {
                session_id: context.session_id,
                bound_session: None,
                backend_id: self.config.backend_id.clone(),
                family: self.config.family,
                reverse_events,
                written_frames: Vec::new(),
                send_would_block_once: self.config.send_would_block_once,
                slow_send: self.config.slow_send,
                send_error,
                drain_parse_error_once: self.config.drain_parse_error_once,
                close_error: self.config.close_error,
                flapping_readiness: self.config.flapping_readiness,
                readiness_toggle: false,
                frames_sent: 0,
                reverse_events_drained: 0,
                write_failures: 0,
                last_error: None,
                state: BackendState::NotOpen,
                closed: false,
            },
        )
    }
}

impl BackendFactory for FakeBackendFactory {
    type Session = FakeBackendSession;

    open spec fn spec_backend_id(&self) -> Seq<char> {
        self.config.backend_id@
    }

    /// The scripted open failure, or a fresh session for `context`.
    open spec fn session_opened(
        &self,
        context: BackendOpenContext,
        result: Result<FakeBackendSession, BackendError>,
    ) -> bool {
        match self.config.open_error {
            Some(error) => result matches Err(e) && same_error(e, error),
            None => result matches Ok(session) && fresh_fake_session(self.config, context, session),
        }
    }

    fn backend_id(&self) -> (id: String)
        ensures
            id@ == self.config.backend_id@,
    {
        self.config.backend_id.clone()
    }

    fn family(&self) -> (family: BackendFamily)
        ensures
            family == self.config.family,
    {
        self.config.family
    }

    /// What the factory advertises: its configuration.
    fn inventory_entry(&self) -> (entry: BackendInventoryEntry)
        ensures
            entry.backend_id@ == self.config.backend_id@,
            entry.family == self.config.family,
            entry.level == self.config.level,
            entry.host_platform == self.config.host_platform,
            entry.supported_fidelity_tiers@ == self.config.supported_fidelity_tiers@,
            entry.notes@.map_values(|note: String| note@) == self.config.notes@.map_values(
                |note: String| note@,
            ),
    {
        let notes = copy_texts(&self.config.notes);
        assert(notes@.map_values(|note: String| note@) =~= self.config.notes@.map_values(
            |note: String| note@,
        ));
        BackendInventoryEntry {
            backend_id: self.config.backend_id.clone(),
            family: self.config.family,
            level: self.config.level,
            host_platform: self.config.host_platform,
            supported_fidelity_tiers: copy_tiers(&self.config.supported_fidelity_tiers),
            notes,
        }
    }

    /// Answer a realization request: forward support as configured when
    /// the tier is listed and the host matches, none otherwise; reverse
    /// support partial when a requested output is undeclared, otherwise
    /// like forward support; the undeclared outputs are appended to the
    /// configured unsupported ones.
    fn can_realize(&self, request: &BackendRealizationRequest) -> (report: BackendSupportReport)
        ensures
            ({
                let config = self.config;
                let matched = config.supported_fidelity_tiers@.contains(
                    request.requested_fidelity_tier,
                ) && request.host_platform == config.host_platform;
                let undeclared = undeclared_functions(
                    request.required_output_functions@,
                    config.supported_output_functions@,
                );
                &&& report.forward_support == (if matched {
                    config.forward_support
                } else {
                    SupportLevel::Unsupported
                })
                &&& report.reverse_support == (if undeclared.len() > 0 {
                    SupportLevel::Partial
                } else if matched {
                    config.reverse_support
                } else {
                    SupportLevel::Unsupported
                })
                &&& report.supported_output_functions@ == config.supported_output_functions@
                &&& report.unsupported_output_functions@.len() == config.unsupported_output_functions@.len()
                    + undeclared.len()
                &&& forall|i: int|
                    0 <= i < config.unsupported_output_functions@.len() ==> {
                        &&& (#[trigger] report.unsupported_output_functions@[i]).function
                            == config.unsupported_output_functions@[i].function
                        &&& report.unsupported_output_functions@[i].reason@
                            == config.unsupported_output_functions@[i].reason@
                    }
                &&& forall|j: int|
                    0 <= j < undeclared.len() ==> {
                        let entry = #[trigger] report.unsupported_output_functions@[config.unsupported_output_functions@.len()
                            + j];
                        &&& entry.function == undeclared[j]
                        &&& entry.reason@ == "not declared by fake backend"@
                    }
                &&& report.notes@.map_values(|note: String| note@) == fake_support_notes(
                    config,
                    *request,
                )
            }),
    {
        let config = &self.config;
        let mut fidelity_supported = false;
        let mut index: usize = 0;
        while index < config.supported_fidelity_tiers.len()
            invariant
                index <= config.supported_fidelity_tiers@.len(),
                fidelity_supported <==> exists|i: int|
                    0 <= i < index && config.supported_fidelity_tiers@[i]
                        == request.requested_fidelity_tier,
            decreases config.supported_fidelity_tiers@.len() - index,
        {
            if config.supported_fidelity_tiers[index] == request.requested_fidelity_tier {
                fidelity_supported = true;
            }
            index = index + 1;
        }
        assert(fidelity_supported == config.supported_fidelity_tiers@.contains(
            request.requested_fidelity_tier,
        ));
        let host_supported = request.host_platform == config.host_platform;
        let mut unsupported: Vec<UnsupportedOutputFunction> = Vec::new();
        let mut k: usize = 0;
        while k < config.unsupported_output_functions.len()
            invariant
                k <= config.unsupported_output_functions@.len(),
                unsupported@.len() == k,
                forall|i: int|
                    0 <= i < k ==> {
                        &&& (#[trigger] unsupported@[i]).function
                            == config.unsupported_output_functions@[i].function
                        &&& unsupported@[i].reason@ == config.unsupported_output_functions@[i].reason@
                    },
            decreases config.unsupported_output_functions@.len() - k,
        {
            let entry = &config.unsupported_output_functions[k];
            unsupported.push(
                UnsupportedOutputFunction { function: entry.function, reason: entry.reason.clone() },
            );
            k = k + 1;
        }
        let base: usize = unsupported.len();
        let ghost requested = request.required_output_functions@;
        let ghost declared = config.supported_output_functions@;
        let mut r: usize = 0;
        while r < request.required_output_functions.len()
            invariant
                r <= requested.len(),
                requested == request.required_output_functions@,
                declared == config.supported_output_functions@,
                base == config.unsupported_output_functions@.len(),
                unsupported@.len() == base + undeclared_functions(
                    requested.subrange(0, r as int),
                    declared,
                ).len(),
                forall|i: int|
                    0 <= i < base ==> {
                        &&& (#[trigger] unsupported@[i]).function
                            == config.unsupported_output_functions@[i].function
                        &&& unsupported@[i].reason@ == config.unsupported_output_functions@[i].reason@
                    },
                forall|j: int|
                    0 <= j < undeclared_functions(requested.subrange(0, r as int), declared).len()
                        ==> {
                        let entry = #[trigger] unsupported@[base + j];
                        &&& entry.function == undeclared_functions(
                            requested.subrange(0, r as int),
                            declared,
                        )[j]
                        &&& entry.reason@ == "not declared by fake backend"@
                    },
            decreases requested.len() - r,
        {
            let function = request.required_output_functions[r];
            let mut declared_here = false;
            let mut d: usize = 0;
            while d < config.supported_output_functions.len()
                invariant
                    d <= declared.len(),
                    declared == config.supported_output_functions@,
                    declared_here <==> exists|i: int| 0 <= i < d && declared[i] == function,
                decreases declared.len() - d,
            {
                if config.supported_output_functions[d] == function {
                    declared_here = true;
                }
                d = d + 1;
            }
            assert(requested.subrange(0, r + 1).drop_last() =~= requested.subrange(0, r as int));
            assert(requested.subrange(0, r + 1).last() == function);
            if !declared_here {
                unsupported.push(
                    UnsupportedOutputFunction {
                        function,
                        reason: String::from_str("not declared by fake backend"),
                    },
                );
            }
            r = r + 1;
        }
        assert(requested.subrange(0, requested.len() as int) =~= requested);
        let undeclared_any = unsupported.len() > base;
        let mut notes = copy_texts(&config.notes);
        let ghost configured = notes@.map_values(|note: String| note@);
        assert(configured =~= config.notes@.map_values(|note: String| note@));
        if !fidelity_supported {
            let mut note = String::from_str("requested fidelity `");
            note.append(tier_text(request.requested_fidelity_tier));
            note.append("` is not present in fake inventory");
            notes.push(note);
        }
        let ghost after_tier = notes@.map_values(|note: String| note@);
        if !host_supported {
            let mut note = String::from_str("requested host `");
            note.append(host_text(request.host_platform));
            note.append("` does not match fake host `");
            note.append(host_text(config.host_platform));
            note.append("`");
            notes.push(note);
        }
        assert(notes@.map_values(|note: String| note@) =~= fake_support_notes(*config, *request));
        let forward_support = if fidelity_supported && host_supported {
            config.forward_support
        } else {
            SupportLevel::Unsupported
        };
        let reverse_support = if undeclared_any {
            SupportLevel::Partial
        } else if fidelity_supported && host_supported {
            config.reverse_support
        } else {
            SupportLevel::Unsupported
        };
        BackendSupportReport {
            forward_support,
            reverse_support,
            supported_output_functions: copy_functions(&config.supported_output_functions),
            unsupported_output_functions: unsupported,
            notes,
        }
    }

    /// Open a fake session, or give back the scripted open failure.
    fn open_session(&self, context: &BackendOpenContext) -> (result: Result<
        FakeBackendSession,
        BackendError,
    >)
        ensures
            match self.config.open_error {
                Some(error) => result matches Err(e) && same_error(e, error),
                None => result matches Ok(session) && fresh_fake_session(self.config, *context, session),
            },
    {
        let result = self.open_fake_session(context);
        proof {
            if result is Ok {
                assert(result->Ok_0.reverse_events@.len() == self.config.reverse_events.len());
            }
        }
        result
    }
}

// ---------------------------------------------------------------------
// The session
// ---------------------------------------------------------------------

/// A fake backend session and everything it records.
#[derive(Debug)]
pub struct FakeBackendSession {
    pub session_id: u64,
    pub bound_session: Option<u64>,
    pub backend_id: String,
    pub family: BackendFamily,
    pub reverse_events: VecDeque<BackendReverseEvent>,
    pub written_frames: Vec<BackendFrame>,
    pub send_would_block_once: bool,
    pub slow_send: bool,
    pub send_error: Option<BackendError>,
    pub drain_parse_error_once: bool,
    pub close_error: bool,
    pub flapping_readiness: bool,
    pub readiness_toggle: bool,
    pub frames_sent: u64,
    pub reverse_events_drained: u64,
    pub write_failures: u64,
    pub last_error: Option<String>,
    pub state: BackendState,
    pub closed: bool,
}

/// The reason an injected drain failure carries.
pub open spec fn injected_parse_reason() -> Seq<char> {
    "fake backend injected malformed reverse event"@
}

/// The reason an injected close failure carries.
pub open spec fn injected_close_reason() -> Seq<char> {
    "fake backend close failure"@
}

impl BackendSession for FakeBackendSession {
    /// No counter is at its maximum.
    open spec fn can_continue(&self) -> bool {
        &&& self.frames_sent < u64::MAX
        &&& self.write_failures < u64::MAX
        &&& self.reverse_events_drained + self.reverse_events@.len() <= u64::MAX
    }

    open spec fn spec_session_id(&self) -> u64 {
        self.session_id
    }

    /// Starting binds the session to its ID and marks it open; nothing
    /// else changes.
    open spec fn opened(before: Self, after: Self, result: Result<(), BackendError>) -> bool {
        &&& result is Ok
        &&& after == (FakeBackendSession {
            bound_session: Some(before.session_id),
            state: BackendState::Open,
            ..before
        })
    }

    /// A closed fake refuses; a scripted block or failure is answered;
    /// otherwise the frame is captured.
    open spec fn sent(before: Self, after: Self, frame: BackendFrame, result: Result<(), BackendError>) -> bool {
        &&& after.closed == before.closed
        &&& after.reverse_events == before.reverse_events
        &&& after.drain_parse_error_once == before.drain_parse_error_once
        &&& after.send_error == before.send_error
        &&& after.slow_send == before.slow_send
        &&& after.flapping_readiness == before.flapping_readiness
        &&& after.close_error == before.close_error
        &&& after.reverse_events_drained == before.reverse_events_drained
        &&& if before.closed {
        &&& result == Err::<(), BackendError>(BackendError::SessionClosed)
        &&& after.written_frames == before.written_frames
        &&& after.frames_sent == before.frames_sent
        &&& after.write_failures == before.write_failures
        &&& after.send_would_block_once == before.send_would_block_once
        &&& after.last_error == before.last_error
        &&& after.state == before.state
        } else if before.send_would_block_once {
        &&& result == Err::<(), BackendError>(BackendError::WouldBlock)
        &&& !after.send_would_block_once
        &&& after.write_failures == before.write_failures + 1
        &&& after.last_error matches Some(text) && text@
            == BackendError::WouldBlock.spec_message()
        &&& after.written_frames == before.written_frames
        &&& after.frames_sent == before.frames_sent
        &&& after.state == before.state
        } else if before.send_error is Some {
        &&& result matches Err(e) && same_error(e, before.send_error->0)
        &&& after.write_failures == before.write_failures + 1
        &&& after.last_error matches Some(text) && text@
            == before.send_error->0.spec_message()
        &&& after.state == BackendState::Failed
        &&& after.written_frames == before.written_frames
        &&& after.frames_sent == before.frames_sent
        &&& after.send_would_block_once == before.send_would_block_once
        } else {
        &&& result is Ok
        &&& after.frames_sent == before.frames_sent + 1
        &&& after.written_frames@ == before.written_frames@.push(frame)
        &&& after.write_failures == before.write_failures
        &&& after.send_would_block_once == before.send_would_block_once
        &&& after.last_error == before.last_error
        &&& after.state == before.state
        }
    }

    /// A closed fake refuses; a scripted parse failure fails once; otherwise
    /// every queued event is handed out, `WouldBlock` when none was queued.
    open spec fn drained(
        before: Self,
        after: Self,
        handed: Seq<BackendReverseEvent>,
        result: Result<(), BackendError>,
    ) -> bool {
        &&& after.closed == before.closed
        &&& after.written_frames == before.written_frames
        &&& after.frames_sent == before.frames_sent
        &&& after.write_failures == before.write_failures
        &&& after.send_would_block_once == before.send_would_block_once
        &&& after.send_error == before.send_error
        &&& after.state == before.state
        &&& if before.closed {
            &&& result == Err::<(), BackendError>(BackendError::SessionClosed)
            &&& handed.len() == 0
            &&& after.reverse_events == before.reverse_events
            &&& after.drain_parse_error_once == before.drain_parse_error_once
            &&& after.last_error == before.last_error
            &&& after.reverse_events_drained == before.reverse_events_drained
        } else if before.drain_parse_error_once {
            &&& result matches Err(BackendError::ReverseEventParseFailed { reason }) && reason@
                == injected_parse_reason()
            &&& !after.drain_parse_error_once
            &&& after.last_error matches Some(text) && text@ == BackendError::ReverseEventParseFailed {
                reason: result->Err_0->ReverseEventParseFailed_reason,
            }.spec_message()
            &&& handed.len() == 0
            &&& after.reverse_events == before.reverse_events
            &&& after.reverse_events_drained == before.reverse_events_drained
        } else {
            &&& handed == before.reverse_events@
            &&& after.reverse_events@.len() == 0
            &&& after.reverse_events_drained == before.reverse_events_drained
                + before.reverse_events@.len()
            &&& (result is Ok <==> before.reverse_events@.len() > 0)
            &&& result is Err ==> result == Err::<(), BackendError>(BackendError::WouldBlock)
            &&& after.drain_parse_error_once == before.drain_parse_error_once
            &&& after.last_error == before.last_error
        }
    }

    /// A flapping fake alternates readable and nothing; otherwise it is
    /// readable while events are queued.
    open spec fn readied(before: Self, after: Self, readiness: EventReadiness) -> bool {
        &&& after.readiness_toggle == (if before.flapping_readiness {
            !before.readiness_toggle
        } else {
            before.readiness_toggle
        })
        &&& readiness == (if before.flapping_readiness {
            if after.readiness_toggle {
                EventReadiness::Readable(ReadinessHandle(0))
            } else {
                EventReadiness::NoReverseEvents
            }
        } else if before.reverse_events@.len() == 0 {
            EventReadiness::NoReverseEvents
        } else {
            EventReadiness::Readable(ReadinessHandle(0))
        })
        &&& after.reverse_events == before.reverse_events
        &&& after.written_frames == before.written_frames
        &&& after.closed == before.closed
        &&& after.state == before.state
        &&& after.flapping_readiness == before.flapping_readiness
    }

    /// Closing marks the fake closed; a scripted close failure is recorded
    /// and answered.
    open spec fn closed_with(before: Self, after: Self, result: Result<(), BackendError>) -> bool {
        &&& after.closed
        &&& after.state == BackendState::Closed
        &&& before.close_error ==> (result matches Err(BackendError::CloseFailed { reason })
            && reason@ == injected_close_reason() && (after.last_error matches Some(text)
            && text@ == BackendError::CloseFailed { reason }.spec_message()))
        &&& !before.close_error ==> result is Ok && after.last_error == before.last_error
        &&& after.written_frames == before.written_frames
        &&& after.reverse_events == before.reverse_events
        &&& after.frames_sent == before.frames_sent
    }

    /// The session this fake was opened for.
    fn session_id(&self) -> (id: u64)
        ensures
            id == self.session_id,
    {
        self.session_id
    }

    /// Start the session.
    fn open(&mut self) -> (result: Result<(), BackendError>)
        ensures
            result is Ok,
            final(self).bound_session == Some(old(self).session_id),
            final(self).state == BackendState::Open,
            final(self).session_id == old(self).session_id,
            final(self).reverse_events == old(self).reverse_events,
            final(self).written_frames == old(self).written_frames,
            final(self).send_would_block_once == old(self).send_would_block_once,
            final(self).send_error == old(self).send_error,
            final(self).drain_parse_error_once == old(self).drain_parse_error_once,
            final(self).close_error == old(self).close_error,
            final(self).flapping_readiness == old(self).flapping_readiness,
            final(self).readiness_toggle == old(self).readiness_toggle,
            final(self).frames_sent == old(self).frames_sent,
            final(self).reverse_events_drained == old(self).reverse_events_drained,
            final(self).write_failures == old(self).write_failures,
            final(self).last_error == old(self).last_error,
            final(self).closed == old(self).closed,
    {
        self.bound_session = Some(self.session_id);
        self.state = BackendState::Open;
        Ok(())
    }

    /// Send a frame: refused once closed; blocks once when scripted to;
    /// fails every time when scripted to (and marks the session failed);
    /// otherwise captured.
    fn send(&mut self, frame: BackendFrame) -> (result: Result<(), BackendError>)
        ensures
            final(self).closed == old(self).closed,
            final(self).reverse_events == old(self).reverse_events,
            final(self).drain_parse_error_once == old(self).drain_parse_error_once,
            final(self).send_error == old(self).send_error,
            final(self).slow_send == old(self).slow_send,
            final(self).flapping_readiness == old(self).flapping_readiness,
            final(self).close_error == old(self).close_error,
            final(self).reverse_events_drained == old(self).reverse_events_drained,
            if old(self).closed {
                &&& result == Err::<(), BackendError>(BackendError::SessionClosed)
                &&& final(self).written_frames == old(self).written_frames
                &&& final(self).frames_sent == old(self).frames_sent
                &&& final(self).write_failures == old(self).write_failures
                &&& final(self).send_would_block_once == old(self).send_would_block_once
                &&& final(self).last_error == old(self).last_error
                &&& final(self).state == old(self).state
            } else if old(self).send_would_block_once {
                &&& result == Err::<(), BackendError>(BackendError::WouldBlock)
                &&& !final(self).send_would_block_once
                &&& final(self).write_failures == old(self).write_failures + 1
                &&& final(self).last_error matches Some(text) && text@
                    == BackendError::WouldBlock.spec_message()
                &&& final(self).written_frames == old(self).written_frames
                &&& final(self).frames_sent == old(self).frames_sent
                &&& final(self).state == old(self).state
            } else if old(self).send_error is Some {
                &&& result matches Err(e) && same_error(e, old(self).send_error->0)
                &&& final(self).write_failures == old(self).write_failures + 1
                &&& final(self).last_error matches Some(text) && text@
                    == old(self).send_error->0.spec_message()
                &&& final(self).state == BackendState::Failed
                &&& final(self).written_frames == old(self).written_frames
                &&& final(self).frames_sent == old(self).frames_sent
                &&& final(self).send_would_block_once == old(self).send_would_block_once
            } else {
                &&& result is Ok
                &&& final(self).frames_sent == old(self).frames_sent + 1
                &&& final(self).written_frames@ == old(self).written_frames@.push(frame)
                &&& final(self).write_failures == old(self).write_failures
                &&& final(self).send_would_block_once == old(self).send_would_block_once
                &&& final(self).last_error == old(self).last_error
                &&& final(self).state == old(self).state
            },
    {
        if self.closed {
            return Err(BackendError::SessionClosed);
        }
        if self.send_would_block_once {
            self.send_would_block_once = false;
            self.write_failures = self.write_failures + 1;
            self.last_error = Some(BackendError::WouldBlock.message());
            return Err(BackendError::WouldBlock);
        }
        if let Some(error) = &self.send_error {
            let failure = copy_error(error);
            let text = error.message();
            self.write_failures = self.write_failures + 1;
            self.last_error = Some(text);
            self.state = BackendState::Failed;
            return Err(failure);
        }
        self.frames_sent = self.frames_sent + 1;
        self.written_frames.push(frame);
        Ok(())
    }

    /// Hand every queued reverse event to `out`, oldest first; `WouldBlock`
    /// when there were none. A scripted parse failure is reported once,
    /// before anything is drained.
    fn drain_reverse_events(&mut self, out: &mut Vec<BackendReverseEvent>) -> (result: Result<
        (),
        BackendError,
    >)
        ensures
            final(self).closed == old(self).closed,
            final(self).written_frames == old(self).written_frames,
            final(self).frames_sent == old(self).frames_sent,
            final(self).write_failures == old(self).write_failures,
            final(self).send_would_block_once == old(self).send_would_block_once,
            final(self).send_error == old(self).send_error,
            final(self).state == old(self).state,
            if old(self).closed {
                &&& result == Err::<(), BackendError>(BackendError::SessionClosed)
                &&& final(out)@ == old(out)@
                &&& final(self).reverse_events == old(self).reverse_events
                &&& final(self).drain_parse_error_once == old(self).drain_parse_error_once
                &&& final(self).last_error == old(self).last_error
                &&& final(self).reverse_events_drained == old(self).reverse_events_drained
            } else if old(self).drain_parse_error_once {
                &&& result matches Err(BackendError::ReverseEventParseFailed { reason }) && reason@
                    == injected_parse_reason()
                &&& !final(self).drain_parse_error_once
                &&& final(self).last_error matches Some(text) && text@ == BackendError::ReverseEventParseFailed {
                    reason: result->Err_0->ReverseEventParseFailed_reason,
                }.spec_message()
                &&& final(out)@ == old(out)@
                &&& final(self).reverse_events == old(self).reverse_events
                &&& final(self).reverse_events_drained == old(self).reverse_events_drained
            } else {
                &&& final(out)@ == old(out)@ + old(self).reverse_events@
                &&& final(self).reverse_events@.len() == 0
                &&& final(self).reverse_events_drained == old(self).reverse_events_drained
                    + old(self).reverse_events@.len()
                &&& (result is Ok <==> old(self).reverse_events@.len() > 0)
                &&& result is Err ==> result == Err::<(), BackendError>(BackendError::WouldBlock)
                &&& final(self).drain_parse_error_once == old(self).drain_parse_error_once
                &&& final(self).last_error == old(self).last_error
            },
    {
        if self.closed {
            return Err(BackendError::SessionClosed);
        }
        if self.drain_parse_error_once {
            self.drain_parse_error_once = false;
            let error = BackendError::ReverseEventParseFailed {
                reason: String::from_str("fake backend injected malformed reverse event"),
            };
            self.last_error = Some(error.message());
            return Err(error);
        }
        let ghost queued = self.reverse_events@;
        let ghost start = out@;
        let ghost drained_before = self.reverse_events_drained;
        let mut drained_any = false;
        while self.reverse_events.len() > 0
            invariant
                queued == old(self).reverse_events@,
                start == old(out)@,
                drained_before == old(self).reverse_events_drained,
                drained_before + queued.len() <= u64::MAX,
                self.reverse_events@.len() <= queued.len(),
                self.reverse_events@ == queued.subrange(
                    queued.len() - self.reverse_events@.len(),
                    queued.len() as int,
                ),
                out@ == start + queued.subrange(0, queued.len() - self.reverse_events@.len()),
                self.reverse_events_drained == drained_before + (queued.len()
                    - self.reverse_events@.len()),
                drained_any <==> self.reverse_events@.len() < queued.len(),
                self.closed == old(self).closed,
                self.written_frames == old(self).written_frames,
                self.frames_sent == old(self).frames_sent,
                self.write_failures == old(self).write_failures,
                self.send_would_block_once == old(self).send_would_block_once,
                self.send_error == old(self).send_error,
                self.state == old(self).state,
                self.drain_parse_error_once == old(self).drain_parse_error_once,
                self.last_error == old(self).last_error,
            decreases self.reverse_events@.len(),
        {
            let ghost before = self.reverse_events@;
            let event = self.reverse_events.pop_front().unwrap();
            drained_any = true;
            self.reverse_events_drained = self.reverse_events_drained + 1;
            out.push(event);
            assert(out@ =~= start + queued.subrange(0, queued.len() - self.reverse_events@.len()));
            assert(self.reverse_events@ =~= queued.subrange(
                queued.len() - self.reverse_events@.len(),
                queued.len() as int,
            ));
        }
        assert(queued.subrange(0, queued.len() as int) =~= queued);
        assert(out@.subrange(start.len() as int, out@.len() as int) =~= queued);
        assert(out@.subrange(0, start.len() as int) =~= start);
        if drained_any {
            Ok(())
        } else {
            Err(BackendError::WouldBlock)
        }
    }

    /// Whether reverse events are waiting. A flapping fake alternates,
    /// starting with readable; otherwise readable exactly when events are
    /// queued.
    fn readiness(&mut self) -> (readiness: EventReadiness)
        ensures
            final(self).readiness_toggle == (if old(self).flapping_readiness {
                !old(self).readiness_toggle
            } else {
                old(self).readiness_toggle
            }),
            readiness == (if old(self).flapping_readiness {
                if final(self).readiness_toggle {
                    EventReadiness::Readable(ReadinessHandle(0))
                } else {
                    EventReadiness::NoReverseEvents
                }
            } else if old(self).reverse_events@.len() == 0 {
                EventReadiness::NoReverseEvents
            } else {
                EventReadiness::Readable(ReadinessHandle(0))
            }),
            final(self).reverse_events == old(self).reverse_events,
            final(self).written_frames == old(self).written_frames,
            final(self).closed == old(self).closed,
            final(self).state == old(self).state,
            final(self).flapping_readiness == old(self).flapping_readiness,
    {
        if self.flapping_readiness {
            self.readiness_toggle = !self.readiness_toggle;
            return if self.readiness_toggle {
                EventReadiness::Readable(ReadinessHandle(0))
            } else {
                EventReadiness::NoReverseEvents
            };
        }
        if self.reverse_events.len() == 0 {
            EventReadiness::NoReverseEvents
        } else {
            EventReadiness::Readable(ReadinessHandle(0))
        }
    }

    /// The session's counters, state and last error.
    fn diagnostics(&self) -> (diagnostics: BackendDiagnostics)
        ensures
            diagnostics.backend_id@ == self.backend_id@,
            diagnostics.family == self.family,
            diagnostics.state == self.state,
            diagnostics.frames_sent == self.frames_sent,
            diagnostics.reverse_events_drained == self.reverse_events_drained,
            diagnostics.write_failures == self.write_failures,
            match (diagnostics.last_error, self.last_error) {
                (Some(a), Some(b)) => a@ == b@,
                (None, None) => true,
                _ => false,
            },
            diagnostics.vendor_counters@ == Map::<String, u64>::empty(),
    {
        let last_error = match &self.last_error {
            Some(text) => Some(text.clone()),
            None => None,
        };
        BackendDiagnostics {
            backend_id: self.backend_id.clone(),
            family: self.family,
            state: self.state,
            frames_sent: self.frames_sent,
            reverse_events_drained: self.reverse_events_drained,
            write_failures: self.write_failures,
            last_error,
            vendor_counters: BTreeMap::new(),
        }
    }

    /// Close the session; a scripted close failure is reported after the
    /// session is marked closed.
    fn close(&mut self) -> (result: Result<(), BackendError>)
        ensures
            final(self).closed,
            final(self).state == BackendState::Closed,
            old(self).close_error ==> (result matches Err(BackendError::CloseFailed { reason })
                && reason@ == injected_close_reason() && (final(self).last_error matches Some(text)
                && text@ == BackendError::CloseFailed { reason }.spec_message())),
            !old(self).close_error ==> result is Ok && final(self).last_error == old(
                self,
            ).last_error,
            final(self).written_frames == old(self).written_frames,
            final(self).reverse_events == old(self).reverse_events,
            final(self).frames_sent == old(self).frames_sent,
    {
        self.closed = true;
        self.state = BackendState::Closed;
        if self.close_error {
            let error = BackendError::CloseFailed {
                reason: String::from_str("fake backend close failure"),
            };
            self.last_error = Some(error.message());
            return Err(error);
        }
        Ok(())
    }

}

impl FakeBackendSession {
    /// Queue a reverse event for the next drain, when this session was
    /// opened for `session_id`; says whether it was queued.
    pub fn inject_reverse_event(&mut self, session_id: u64, event: BackendReverseEvent) -> (queued:
        bool)
        ensures
            queued == (old(self).bound_session == Some(session_id)),
            queued ==> final(self).reverse_events@ == old(self).reverse_events@.push(event),
            !queued ==> final(self).reverse_events@ == old(self).reverse_events@,
            final(self).bound_session == old(self).bound_session,
            final(self).session_id == old(self).session_id,
            final(self).written_frames == old(self).written_frames,
            final(self).state == old(self).state,
            final(self).closed == old(self).closed,
            final(self).frames_sent == old(self).frames_sent,
            final(self).reverse_events_drained == old(self).reverse_events_drained,
            final(self).write_failures == old(self).write_failures,
            final(self).last_error == old(self).last_error,
    {
        let matches = match self.bound_session {
            Some(bound) => bound == session_id,
            None => false,
        };
        if matches {
            self.reverse_events.push_back(event);
        }
        matches
    }

    /// Copies of the frames the session captured, in send order.
    pub fn captured_frames(&self) -> (frames: Vec<BackendFrame>)
        ensures
            frames@.len() == self.written_frames@.len(),
            forall|i: int|
                0 <= i < frames@.len() ==> same_frame(#[trigger] frames@[i], self.written_frames@[i]),
    {
        let mut frames: Vec<BackendFrame> = Vec::new();
        let mut index: usize = 0;
        while index < self.written_frames.len()
            invariant
                index <= self.written_frames@.len(),
                frames@.len() == index,
                forall|i: int|
                    0 <= i < index ==> same_frame(#[trigger] frames@[i], self.written_frames@[i]),
            decreases self.written_frames@.len() - index,
        {
            frames.push(self.written_frames[index].copy());
            index = index + 1;
        }
        frames
    }
}

} // verus!
