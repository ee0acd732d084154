//! The constrained local UHID broker: its policy, the checks it applies to
//! a client's create and send requests, the answer to each request of a
//! connection, and the length-prefixed framing of its messages.

use vstd::prelude::*;

use crate::bytes::{lemma_ordered_roundtrip, ordered_bytes, ordered_value, pow256, push_uint, read_uint, ByteOrder};
use crate::realization::{
    reverse_event_views, NativeProviderSession, ProviderDiagnostics, ProviderError, ProviderFrame,
    ProviderReverseEvent, ProviderState,
    RawReverseEvent,
};
use crate::runtime_model::{BackendLevel, FidelityTier, HostPlatform};
use crate::text::{decimal, push_decimal, str_eq};

verus! {

/// The only protocol version the broker speaks.
pub const PROTOCOL_VERSION: u16 = 1;

/// The largest message body either side accepts.
pub const MAX_MESSAGE_BYTES: usize = 131072;

/// What an authorized client may do through the broker.
#[derive(Debug, Clone, PartialEq, Eq)]
pub struct BrokerPolicy {
    /// Profiles a client may create (by profile ID).
    pub allowed_profiles: Vec<String>,
    pub maximum_sessions_per_connection: usize,
    pub maximum_input_report_bytes: usize,
}

impl Default for BrokerPolicy {
    /// Only the DualSense profile, one session per connection, reports of
    /// at most one DualSense Bluetooth input report.
    fn default() -> (policy: Self)
        ensures
            policy.allowed_profiles@.len() == 1,
            policy.allowed_profiles@[0]@ == "dualsense"@,
            policy.maximum_sessions_per_connection == 1,
            policy.maximum_input_report_bytes == 78,
    {
        let mut allowed_profiles: Vec<String> = Vec::new();
        allowed_profiles.push(String::from_str("dualsense"));
        BrokerPolicy {
            allowed_profiles,
            maximum_sessions_per_connection: 1,
            maximum_input_report_bytes: 78,
        }
    }
}

/// The part of a backend open context the broker's policy reads.
#[derive(Debug, Clone, PartialEq, Eq)]
pub struct BrokerOpenContext {
    pub profile_id: String,
    pub fidelity_tier: FidelityTier,
    pub backend_level: BackendLevel,
    pub host_platform: HostPlatform,
}

/// A frame a client asks the broker to send.
#[derive(Debug, Clone, PartialEq, Eq)]
pub enum BrokerFrame {
    HidInputReport { report_id: Option<u8>, bytes: Vec<u8> },
    /// Any other kind of backend frame.
    Other,
}

/// `profile_id` is one of the allowed profiles.
pub open spec fn profile_allowed(allowed: Seq<String>, profile_id: Seq<char>) -> bool {
    exists|i: int| 0 <= i < allowed.len() && #[trigger] allowed[i]@ == profile_id
}

fn contains_profile(allowed: &Vec<String>, profile_id: &String) -> (found: bool)
    ensures
        found == profile_allowed(allowed@, profile_id@),
{
    let mut index: usize = 0;
    while index < allowed.len()
        invariant
            0 <= index <= allowed@.len(),
            forall|k: int| 0 <= k < index ==> allowed@[k]@ != profile_id@,
        decreases allowed@.len() - index,
    {
        if allowed[index] == *profile_id {
            return true;
        }
        index = index + 1;
    }
    false
}

/// The broker permits this context: a Linux HID session at the
/// identity-aware tier, for an allowed profile.
pub open spec fn context_permitted(policy: BrokerPolicy, context: BrokerOpenContext) -> bool {
    &&& context.host_platform == HostPlatform::Linux
    &&& context.backend_level == BackendLevel::Hid
    &&& context.fidelity_tier == FidelityTier::IdentityAware
    &&& profile_allowed(policy.allowed_profiles@, context.profile_id@)
}

/// The reason a create request is refused with, if it is: the protocol
/// version first, then the session limit, then the context.
pub open spec fn create_refusal(
    policy: BrokerPolicy,
    version: u16,
    has_session: bool,
    context: BrokerOpenContext,
) -> Option<Seq<char>> {
    if version != PROTOCOL_VERSION {
        Some("unsupported protocol version "@ + decimal(version as nat))
    } else if has_session || policy.maximum_sessions_per_connection == 0 {
        Some("connection has reached its session limit"@)
    } else if !context_permitted(policy, context) {
        Some("requested context is not permitted by the UHID broker policy"@)
    } else {
        None
    }
}

/// Check a client's create request against the protocol and the policy.
pub fn check_create(
    policy: &BrokerPolicy,
    version: u16,
    has_session: bool,
    context: &BrokerOpenContext,
) -> (result: Result<(), String>)
    ensures
        match create_refusal(*policy, version, has_session, *context) {
            Some(reason) => {
                &&& result matches Err(text)
                &&& text@ == reason
            },
            None => result is Ok,
        },
{
    if version != PROTOCOL_VERSION {
        let mut reason = String::from_str("unsupported protocol version ");
        push_decimal(&mut reason, version as u64);
        return Err(reason);
    }
    if has_session || policy.maximum_sessions_per_connection == 0 {
        return Err(String::from_str("connection has reached its session limit"));
    }
    if context.host_platform != HostPlatform::Linux || context.backend_level != BackendLevel::Hid
        || context.fidelity_tier != FidelityTier::IdentityAware || !contains_profile(
        &policy.allowed_profiles,
        &context.profile_id,
    ) {
        return Err(
            String::from_str("requested context is not permitted by the UHID broker policy"),
        );
    }
    Ok(())
}

/// The reason a send request is refused with before it reaches a session,
/// if it is: only HID input reports within the policy's size limit pass.
pub open spec fn send_refusal(policy: BrokerPolicy, frame: BrokerFrame) -> Option<Seq<char>> {
    match frame {
        BrokerFrame::HidInputReport { bytes, .. } => if bytes@.len()
            > policy.maximum_input_report_bytes {
            Some("input report exceeds the broker policy limit"@)
        } else {
            None
        },
        BrokerFrame::Other => Some("only HID input reports may cross the broker boundary"@),
    }
}

/// Check a client's send request against the policy.
pub fn check_send(policy: &BrokerPolicy, frame: &BrokerFrame) -> (result: Result<(), String>)
    ensures
        match send_refusal(*policy, *frame) {
            Some(reason) => {
                &&& result matches Err(text)
                &&& text@ == reason
            },
            None => result is Ok,
        },
{
    match frame {
        BrokerFrame::HidInputReport { bytes, .. } => {
            if bytes.len() > policy.maximum_input_report_bytes {
                return Err(String::from_str("input report exceeds the broker policy limit"));
            }
            Ok(())
        },
        BrokerFrame::Other => Err(
            String::from_str("only HID input reports may cross the broker boundary"),
        ),
    }
}

/// The text of a message the broker's framing refuses.
pub open spec fn message_too_large() -> Seq<char> {
    "message exceeds protocol limit"@
}

/// Frame one message body: its length as a big-endian `u32`, then the
/// body. Bodies over the protocol limit are refused.
pub fn frame_message(body: &[u8]) -> (framed: Result<Vec<u8>, String>)
    ensures
        body@.len() > MAX_MESSAGE_BYTES ==> {
            &&& framed matches Err(text)
            &&& text@ == message_too_large()
        },
        body@.len() <= MAX_MESSAGE_BYTES ==> {
            &&& framed matches Ok(bytes)
            &&& bytes@ == ordered_bytes(body@.len() as nat, 4, ByteOrder::Big) + body@
        },
{
    if body.len() > MAX_MESSAGE_BYTES {
        return Err(String::from_str("message exceeds protocol limit"));
    }
    let mut framed: Vec<u8> = Vec::new();
    push_uint(&mut framed, body.len() as u64, 4, ByteOrder::Big);
    let mut index: usize = 0;
    let ghost header = framed@;
    while index < body.len()
        invariant
            0 <= index <= body@.len(),
            framed@ == header + body@.subrange(0, index as int),
        decreases body@.len() - index,
    {
        framed.push(body[index]);
        assert(body@.subrange(0, index as int + 1) =~= body@.subrange(0, index as int).push(
            body@[index as int],
        ));
        index = index + 1;
    }
    assert(body@.subrange(0, body@.len() as int) =~= body@);
    Ok(framed)
}

/// Read the body length from a message header, refusing lengths over the
/// protocol limit.
pub fn message_length(header: &[u8]) -> (length: Result<usize, String>)
    requires
        header@.len() == 4,
    ensures
        ordered_value(header@, ByteOrder::Big) > MAX_MESSAGE_BYTES ==> {
            &&& length matches Err(text)
            &&& text@ == message_too_large()
        },
        ordered_value(header@, ByteOrder::Big) <= MAX_MESSAGE_BYTES ==> length == Ok::<
            usize,
            String,
        >(ordered_value(header@, ByteOrder::Big) as usize),
{
    let value = read_uint(header, ByteOrder::Big);
    if value > MAX_MESSAGE_BYTES as u64 {
        return Err(String::from_str("message exceeds protocol limit"));
    }
    Ok(value as usize)
}

/// Reading the header of a framed message gives back the body's length,
/// and the body follows the four header bytes unchanged.
pub proof fn lemma_framing_roundtrip(body: Seq<u8>)
    requires
        body.len() <= MAX_MESSAGE_BYTES,
    ensures
        (ordered_bytes(body.len() as nat, 4, ByteOrder::Big) + body).subrange(0, 4).len() == 4,
        ordered_value(
            (ordered_bytes(body.len() as nat, 4, ByteOrder::Big) + body).subrange(0, 4),
            ByteOrder::Big,
        ) == body.len(),
        (ordered_bytes(body.len() as nat, 4, ByteOrder::Big) + body).subrange(
            4,
            4 + body.len() as int,
        ) == body,
{
    reveal_with_fuel(pow256, 5);
    assert(pow256(4) == 4294967296);
    lemma_ordered_roundtrip(body.len() as nat, 4, ByteOrder::Big);
    let framed = ordered_bytes(body.len() as nat, 4, ByteOrder::Big) + body;
    assert(framed.subrange(0, 4) =~= ordered_bytes(body.len() as nat, 4, ByteOrder::Big));
    assert(framed.subrange(4, 4 + body.len() as int) =~= body);
}

/// Default system-service socket location of the broker. A convention,
/// not a fallback: applications opt in by constructing the brokered
/// factory with it.
pub fn default_socket_path() -> (path: &'static str)
    ensures
        path@ == "/run/virtualgamepad/uhid.sock"@,
{
    "/run/virtualgamepad/uhid.sock"
}

/// A backend factory that reaches UHID through the broker's socket rather
/// than opening `/dev/uhid` in the caller's process.
#[derive(Debug, Clone)]
pub struct BrokeredLinuxUhidBackendFactory {
    pub endpoint: String,
}

impl BrokeredLinuxUhidBackendFactory {
    pub fn new(endpoint: String) -> (factory: Self)
        ensures
            factory.endpoint@ == endpoint@,
    {
        BrokeredLinuxUhidBackendFactory { endpoint }
    }
}

/// The fidelity tier a client names.
pub open spec fn tier_named(name: Seq<char>) -> Option<FidelityTier> {
    if name == "compatibility"@ {
        Some(FidelityTier::Compatibility)
    } else if name == "identity-aware"@ {
        Some(FidelityTier::IdentityAware)
    } else if name == "hardware-faithful"@ {
        Some(FidelityTier::HardwareFaithful)
    } else {
        None
    }
}

/// The backend level a client names.
pub open spec fn level_named(name: Seq<char>) -> Option<BackendLevel> {
    if name == "evdev"@ {
        Some(BackendLevel::Evdev)
    } else if name == "hid"@ {
        Some(BackendLevel::Hid)
    } else if name == "transport"@ {
        Some(BackendLevel::Transport)
    } else {
        None
    }
}

/// The host platform a client names.
pub open spec fn platform_named(name: Seq<char>) -> Option<HostPlatform> {
    if name == "linux"@ {
        Some(HostPlatform::Linux)
    } else if name == "windows"@ {
        Some(HostPlatform::Windows)
    } else if name == "macos"@ {
        Some(HostPlatform::Macos)
    } else {
        None
    }
}

/// The open context a client describes by name, if it names a known tier,
/// level and platform.
pub fn broker_context(profile_id: &str, fidelity_tier: &str, backend_level: &str, host_platform: &str) -> (context:
    Option<BrokerOpenContext>)
    ensures
        context is Some <==> (tier_named(fidelity_tier@) is Some && level_named(backend_level@) is Some
            && platform_named(host_platform@) is Some),
        context matches Some(context) ==> {
            &&& context.profile_id@ == profile_id@
            &&& tier_named(fidelity_tier@) == Some(context.fidelity_tier)
            &&& level_named(backend_level@) == Some(context.backend_level)
            &&& platform_named(host_platform@) == Some(context.host_platform)
        },
{
    let tier = if str_eq(fidelity_tier, "compatibility") {
        FidelityTier::Compatibility
    } else if str_eq(fidelity_tier, "identity-aware") {
        FidelityTier::IdentityAware
    } else if str_eq(fidelity_tier, "hardware-faithful") {
        FidelityTier::HardwareFaithful
    } else {
        return None;
    };
    let level = if str_eq(backend_level, "evdev") {
        BackendLevel::Evdev
    } else if str_eq(backend_level, "hid") {
        BackendLevel::Hid
    } else if str_eq(backend_level, "transport") {
        BackendLevel::Transport
    } else {
        return None;
    };
    let platform = if str_eq(host_platform, "linux") {
        HostPlatform::Linux
    } else if str_eq(host_platform, "windows") {
        HostPlatform::Windows
    } else if str_eq(host_platform, "macos") {
        HostPlatform::Macos
    } else {
        return None;
    };
    Some(
        BrokerOpenContext {
            profile_id: profile_id.to_owned(),
            fidelity_tier: tier,
            backend_level: level,
            host_platform: platform,
        },
    )
}

/// A connected client's request.
pub enum BrokerRequest {
    /// Create the connection's session; `context` is `None` when the client
    /// named a tier, level or platform the broker does not know.
    Create { version: u16, context: Option<BrokerOpenContext> },
    SendHidInput { report_id: Option<u8>, bytes: Vec<u8> },
    SendOther,
    Drain,
    Diagnostics,
    Close,
}

/// A host output report handed back to the client.
pub struct BrokerOutput {
    pub sequence: u64,
    pub report_id: Option<u8>,
    pub bytes: Vec<u8>,
}

/// [`BrokerOutput`] with its bytes taken by their view.
pub ghost struct BrokerOutputView {
    pub sequence: u64,
    pub report_id: Option<u8>,
    pub bytes: Seq<u8>,
}

impl View for BrokerOutput {
    type V = BrokerOutputView;

    open spec fn view(&self) -> BrokerOutputView {
        BrokerOutputView { sequence: self.sequence, report_id: self.report_id, bytes: self.bytes@ }
    }
}

/// Each output taken by its view.
pub open spec fn output_views(outputs: Seq<BrokerOutput>) -> Seq<BrokerOutputView> {
    outputs.map_values(|output: BrokerOutput| output@)
}

/// The host output reports among `events`, in order, each with its
/// sequence number; other events are not handed to the client.
pub open spec fn spec_hid_outputs(events: Seq<ProviderReverseEvent>) -> Seq<BrokerOutputView>
    decreases events.len(),
{
    if events.len() == 0 {
        Seq::empty()
    } else {
        let earlier = spec_hid_outputs(events.drop_last());
        match events.last().event {
            RawReverseEvent::HidOutput { report_id, bytes } => earlier.push(
                BrokerOutputView { sequence: events.last().sequence, report_id, bytes: bytes@ },
            ),
            _ => earlier,
        }
    }
}

/// The host output reports among `events`, in order.
pub fn hid_outputs(events: Vec<ProviderReverseEvent>) -> (outputs: Vec<BrokerOutput>)
    ensures
        output_views(outputs@) == spec_hid_outputs(events@),
{
    let ghost all = events@;
    let total = events.len();
    let mut remaining = events;
    let mut outputs: Vec<BrokerOutput> = Vec::new();
    let mut index: usize = 0;
    while index < total
        invariant
            total == all.len(),
            index <= total,
            remaining@ == all.subrange(index as int, total as int),
            output_views(outputs@) == spec_hid_outputs(all.subrange(0, index as int)),
        decreases total - index,
    {
        let ghost prefix = all.subrange(0, index as int + 1);
        assert(prefix.drop_last() =~= all.subrange(0, index as int));
        let event = remaining.remove(0);
        assert(event == all[index as int]);
        assert(prefix.last() == all[index as int]);
        assert(remaining@ =~= all.subrange(index + 1, total as int));
        match event.event {
            RawReverseEvent::HidOutput { report_id, bytes } => {
                let ghost before = outputs@;
                outputs.push(BrokerOutput { sequence: event.sequence, report_id, bytes });
                assert(output_views(outputs@) =~= output_views(before).push(outputs@.last()@));
            },
            _ => {},
        }
        index = index + 1;
    }
    assert(all.subrange(0, total as int) =~= all);
    outputs
}

/// The broker's answer to a request.
pub enum BrokerResponse {
    Created,
    Sent,
    Outputs(Vec<BrokerOutput>),
    Diagnostics { open: bool, frames_sent: u64, write_failures: u64 },
    Closed,
    Error(String),
}

/// What the broker does with a request: answer it, or open a session for
/// the admitted context and answer with [`broker_opened`].
pub enum BrokerStep {
    Open(BrokerOpenContext),
    Answer(BrokerResponse),
}

/// The text the broker answers a request with when the connection has no
/// session.
pub open spec fn no_session() -> Seq<char> {
    "no active session on this connection"@
}

/// `step` answers with an error whose text is `reason`.
pub open spec fn answers_error(step: BrokerStep, reason: Seq<char>) -> bool {
    step matches BrokerStep::Answer(BrokerResponse::Error(text)) && text@ == reason
}

/// The diagnostics answer for a session's diagnostics.
pub fn diagnostics_response(diagnostics: &ProviderDiagnostics) -> (response: BrokerResponse)
    ensures
        response == (BrokerResponse::Diagnostics {
            open: diagnostics.state == ProviderState::Open,
            frames_sent: diagnostics.frames_sent,
            write_failures: diagnostics.write_failures,
        }),
{
    BrokerResponse::Diagnostics {
        open: diagnostics.state == ProviderState::Open,
        frames_sent: diagnostics.frames_sent,
        write_failures: diagnostics.write_failures,
    }
}

/// `step` answers what the session answered: `success` when it
/// succeeded, else an error with the session's message.
pub open spec fn answers_outcome(step: BrokerStep, outcome: Result<(), ProviderError>, success: BrokerResponse) -> bool {
    match outcome {
        Ok(()) => step == BrokerStep::Answer(success),
        Err(error) => answers_error(step, error.spec_message()),
    }
}

/// Handle one request of a connection whose session, if any, is `session`:
/// a create request is checked and, when admitted, left to open; a send is
/// checked by the policy before it reaches the session; a drain hands back
/// only host output reports; closing closes the connection's session once
/// and ends it.
pub fn broker_step<S: NativeProviderSession>(
    policy: &BrokerPolicy,
    request: BrokerRequest,
    session: &mut Option<S>,
) -> (step: BrokerStep)
    ensures
        match request {
            BrokerRequest::Create { version, context } => {
                &&& *final(session) == *old(session)
                &&& match context {
                    None => answers_error(
                        step,
                        "requested context is not permitted by the UHID broker policy"@,
                    ),
                    Some(context) => match create_refusal(*policy, version, (*old(session)) is Some, context) {
                        Some(reason) => answers_error(step, reason),
                        None => step == BrokerStep::Open(context),
                    },
                }
            },
            BrokerRequest::SendHidInput { report_id, bytes } => match send_refusal(
                *policy,
                BrokerFrame::HidInputReport { report_id, bytes },
            ) {
                Some(reason) => answers_error(step, reason) && *final(session) == *old(session),
                None => match *old(session) {
                    None => answers_error(step, no_session()) && *final(session) == *old(session),
                    Some(before) => exists|after: S, sent: Result<(), ProviderError>|
                        #![trigger S::sent_frame(before, after, ProviderFrame::HidInput { report_id, bytes }, sent)]
                        S::sent_frame(before, after, ProviderFrame::HidInput { report_id, bytes }, sent)
                            && *final(session) == Some(after) && answers_outcome(step, sent, BrokerResponse::Sent),
                },
            },
            BrokerRequest::SendOther => answers_error(
                step,
                "only HID input reports may cross the broker boundary"@,
            ) && *final(session) == *old(session),
            BrokerRequest::Drain => match *old(session) {
                None => answers_error(step, no_session()) && *final(session) == *old(session),
                Some(before) => exists|after: S, handed: Seq<ProviderReverseEvent>, drained: Result<(), ProviderError>|
                    #![trigger S::drained(before, after, reverse_event_views(handed), drained)]
                    S::drained(before, after, reverse_event_views(handed), drained) && *final(session) == Some(after)
                        && match drained {
                        Ok(()) => step matches BrokerStep::Answer(BrokerResponse::Outputs(outputs))
                            && output_views(outputs@) == spec_hid_outputs(handed),
                        Err(error) => answers_error(step, error.spec_message()),
                    },
            },
            BrokerRequest::Diagnostics => {
                &&& *final(session) == *old(session)
                &&& match *old(session) {
                    None => answers_error(step, no_session()),
                    Some(open) => exists|diagnostics: ProviderDiagnostics|
                        #![trigger open.reports(diagnostics)]
                        open.reports(diagnostics) && step == BrokerStep::Answer(
                            BrokerResponse::Diagnostics {
                                open: diagnostics.state == ProviderState::Open,
                                frames_sent: diagnostics.frames_sent,
                                write_failures: diagnostics.write_failures,
                            },
                        ),
                }
            },
            BrokerRequest::Close => {
                &&& (*final(session)) is None
                &&& match *old(session) {
                    None => step == BrokerStep::Answer(BrokerResponse::Closed),
                    Some(before) => exists|after: S, closed: Result<(), ProviderError>|
                        #![trigger S::closed_with(before, after, closed)]
                        S::closed_with(before, after, closed) && answers_outcome(step, closed, BrokerResponse::Closed),
                }
            },
        },
{
    match request {
        BrokerRequest::Create { version, context } => match context {
            None => BrokerStep::Answer(
                BrokerResponse::Error(
                    String::from_str("requested context is not permitted by the UHID broker policy"),
                ),
            ),
            Some(context) => match check_create(policy, version, session.is_some(), &context) {
                Err(reason) => BrokerStep::Answer(BrokerResponse::Error(reason)),
                Ok(()) => BrokerStep::Open(context),
            },
        },
        BrokerRequest::SendHidInput { report_id, bytes } => {
            let frame = BrokerFrame::HidInputReport { report_id, bytes };
            match check_send(policy, &frame) {
                Err(reason) => {
                    return BrokerStep::Answer(BrokerResponse::Error(reason));
                },
                Ok(()) => {},
            }
            match frame {
                BrokerFrame::HidInputReport { report_id, bytes } => {
                    let taken = session.take();
                    match taken {
                        None => BrokerStep::Answer(
                            BrokerResponse::Error(String::from_str("no active session on this connection")),
                        ),
                        Some(mut open) => {
                            let sent = open.send(ProviderFrame::HidInput { report_id, bytes });
                            *session = Some(open);
                            match sent {
                                Ok(()) => BrokerStep::Answer(BrokerResponse::Sent),
                                Err(error) => BrokerStep::Answer(BrokerResponse::Error(error.message())),
                            }
                        },
                    }
                },
                BrokerFrame::Other => BrokerStep::Answer(
                    BrokerResponse::Error(
                        String::from_str("only HID input reports may cross the broker boundary"),
                    ),
                ),
            }
        },
        BrokerRequest::SendOther => match check_send(policy, &BrokerFrame::Other) {
            Ok(()) => BrokerStep::Answer(BrokerResponse::Sent),
            Err(reason) => BrokerStep::Answer(BrokerResponse::Error(reason)),
        },
        BrokerRequest::Drain => {
            let taken = session.take();
            match taken {
                None => BrokerStep::Answer(
                    BrokerResponse::Error(String::from_str("no active session on this connection")),
                ),
                Some(mut open) => {
                    let mut events: Vec<ProviderReverseEvent> = Vec::new();
                    let drained = open.drain_reverse_events(&mut events);
                    *session = Some(open);
                    assert(events@.subrange(0, events@.len() as int) =~= events@);
                    match drained {
                        Ok(()) => BrokerStep::Answer(BrokerResponse::Outputs(hid_outputs(events))),
                        Err(error) => BrokerStep::Answer(BrokerResponse::Error(error.message())),
                    }
                },
            }
        },
        BrokerRequest::Diagnostics => match session {
            None => BrokerStep::Answer(
                BrokerResponse::Error(String::from_str("no active session on this connection")),
            ),
            Some(open) => BrokerStep::Answer(diagnostics_response(&open.diagnostics())),
        },
        BrokerRequest::Close => {
            let taken = session.take();
            match taken {
                None => BrokerStep::Answer(BrokerResponse::Closed),
                Some(mut open) => match open.close() {
                    Ok(()) => BrokerStep::Answer(BrokerResponse::Closed),
                    Err(error) => BrokerStep::Answer(BrokerResponse::Error(error.message())),
                },
            }
        },
    }
}

/// End a connection: its session, if it still has one, is closed once and
/// the connection is left without one.
pub fn broker_disconnect<S: NativeProviderSession>(session: &mut Option<S>) -> (result: Result<(), ProviderError>)
    ensures
        (*final(session)) is None,
        match *old(session) {
            None => result is Ok,
            Some(before) => exists|after: S| #[trigger] S::closed_with(before, after, result),
        },
{
    let taken = session.take();
    match taken {
        None => Ok(()),
        Some(mut open) => open.close(),
    }
}

/// Answer a create request once the admitted session was opened: an
/// opened session becomes the connection's session; an open failure is
/// answered with its reason and leaves the connection without one.
pub fn broker_opened<S>(session: &mut Option<S>, opened: Result<S, String>) -> (response: BrokerResponse)
    ensures
        match opened {
            Ok(opened) => *final(session) == Some(opened) && response is Created,
            Err(reason) => *final(session) == *old(session) && response == BrokerResponse::Error(reason),
        },
{
    match opened {
        Ok(opened) => {
            *session = Some(opened);
            BrokerResponse::Created
        },
        Err(reason) => BrokerResponse::Error(reason),
    }
}

} // verus!
