//! The planning-only Windows HID provider: what it advertises, how it
//! answers a realization request, and its refusal to open sessions.

use std::collections::BTreeMap;
use vstd::prelude::*;

use crate::backend_api::{
    BackendDiagnostics, BackendError, BackendFactory, BackendFrame, BackendInventoryEntry,
    BackendRealizationRequest, BackendReverseEvent, BackendSession, BackendState,
    BackendSupportReport, EventReadiness, SupportLevel, UnsupportedOutputFunction,
};
use crate::profiles::{is_builtin_profile, registry};
use crate::reverse_translation::OutputFunction;
use crate::runtime_model::{BackendFamily, BackendLevel, BackendOpenContext, FidelityTier, HostPlatform};

verus! {

/// The planning-only Windows HID backend factory.
#[derive(Debug, Clone, Copy, Default)]
pub struct WindowsHidBackendFactory;

pub open spec fn planning_only_note() -> Seq<char> {
    "phase-12 windows-hid backend is planning-only; no device realization yet"@
}

pub open spec fn deployment_requirement() -> Seq<char> {
    "deployment requirement: a signed virtual-HID bus driver must be installed before realization"@
}

/// The notes of a support report: the two standing notes, then one for a
/// foreign host, one for an unknown profile, and one for a tier other
/// than identity-aware.
pub open spec fn support_notes(request: BackendRealizationRequest) -> Seq<Seq<char>> {
    let base = seq![planning_only_note(), deployment_requirement()];
    let host = if request.host_platform != HostPlatform::Windows {
        seq!["requested host platform does not match windows-hid"@]
    } else {
        Seq::empty()
    };
    let profile = if !is_builtin_profile(request.profile_id@) {
        seq![
            "profile `"@ + request.profile_id@
                + "` is not registered, so the Phase 12 Windows HID foundation cannot plan it"@,
        ]
    } else {
        Seq::empty()
    };
    let tier = match request.requested_fidelity_tier {
        FidelityTier::HardwareFaithful => seq![
            "hardware-faithful transport behavior is out of scope for the Phase 12 windows-hid provider foundation"@,
        ],
        FidelityTier::Compatibility => seq![
            "compatibility-tier downgrade targets are not modeled by the Phase 12 windows-hid provider foundation"@,
        ],
        FidelityTier::IdentityAware => Seq::empty(),
    };
    base + host + profile + tier
}

/// The request is realizable: a built-in profile at the identity-aware
/// tier on a Windows host.
pub open spec fn realizable(request: BackendRealizationRequest) -> bool {
    &&& request.host_platform == HostPlatform::Windows
    &&& is_builtin_profile(request.profile_id@)
    &&& request.requested_fidelity_tier == FidelityTier::IdentityAware
}

fn copy_functions(functions: &Vec<OutputFunction>) -> (copy: Vec<OutputFunction>)
    ensures
        copy@ == functions@,
{
    let mut copy: Vec<OutputFunction> = Vec::new();
    let mut index: usize = 0;
    while index < functions.len()
        invariant
            0 <= index <= functions@.len(),
            copy@ == functions@.subrange(0, index as int),
        decreases functions@.len() - index,
    {
        copy.push(functions[index]);
        assert(functions@.subrange(0, index as int + 1) =~= functions@.subrange(
            0,
            index as int,
        ).push(functions@[index as int]));
        index = index + 1;
    }
    assert(functions@.subrange(0, functions@.len() as int) =~= functions@);
    copy
}

impl WindowsHidBackendFactory {
    pub fn new() -> (factory: Self) {
        WindowsHidBackendFactory
    }
}

/// The reason this provider refuses to realize a session.
pub open spec fn planning_only_reason() -> Seq<char> {
    "windows-hid realization is not implemented in Phase 12; this provider is planning-only"@
}

impl BackendFactory for WindowsHidBackendFactory {
    type Session = WindowsHidBackendSession;

    open spec fn spec_backend_id(&self) -> Seq<char> {
        "windows-hid"@
    }

    /// Opening is always refused as planning-only.
    open spec fn session_opened(
        &self,
        context: BackendOpenContext,
        result: Result<WindowsHidBackendSession, BackendError>,
    ) -> bool {
        result matches Err(BackendError::Unsupported { reason }) && reason@ == planning_only_reason()
    }

    fn backend_id(&self) -> (id: String) {
        String::from_str("windows-hid")
    }

    fn family(&self) -> (family: BackendFamily)
        ensures
            family == BackendFamily::WindowsHid,
    {
        BackendFamily::WindowsHid
    }

    /// The backend's inventory entry: a Windows HID backend offering the
    /// identity-aware tier, with its two standing notes.
    fn inventory_entry(&self) -> (entry: BackendInventoryEntry)
        ensures
            entry.backend_id@ == "windows-hid"@,
            entry.family == BackendFamily::WindowsHid,
            entry.level == BackendLevel::Hid,
            entry.host_platform == HostPlatform::Windows,
            entry.supported_fidelity_tiers@ == seq![FidelityTier::IdentityAware],
            entry.notes@.map_values(|note: String| note@) == seq![
                planning_only_note(),
                deployment_requirement(),
            ],
    {
        let mut supported_fidelity_tiers: Vec<FidelityTier> = Vec::new();
        supported_fidelity_tiers.push(FidelityTier::IdentityAware);
        let mut notes: Vec<String> = Vec::new();
        notes.push(
            String::from_str("phase-12 windows-hid backend is planning-only; no device realization yet"),
        );
        notes.push(
            String::from_str(
                "deployment requirement: a signed virtual-HID bus driver must be installed before realization",
            ),
        );
        assert(notes@.map_values(|note: String| note@) =~= seq![
            planning_only_note(),
            deployment_requirement(),
        ]);
        BackendInventoryEntry {
            backend_id: String::from_str("windows-hid"),
            family: BackendFamily::WindowsHid,
            level: BackendLevel::Hid,
            host_platform: HostPlatform::Windows,
            supported_fidelity_tiers,
            notes,
        }
    }

    /// Answer a realization request: full support (forward and reverse,
    /// with every requested output function) exactly when the request is
    /// realizable, no support otherwise; the notes say why.
    fn can_realize(&self, request: &BackendRealizationRequest) -> (report: BackendSupportReport)
        ensures
            report.forward_support == (if realizable(*request) {
                SupportLevel::Full
            } else {
                SupportLevel::Unsupported
            }),
            report.reverse_support == report.forward_support,
            report.supported_output_functions@ == (if realizable(*request) {
                request.required_output_functions@
            } else {
                Seq::empty()
            }),
            report.unsupported_output_functions@ == Seq::<UnsupportedOutputFunction>::empty(),
            report.notes@.map_values(|note: String| note@) == support_notes(*request),
    {
        let host_supported = request.host_platform == HostPlatform::Windows;
        let profile_supported = registry().profile_family(request.profile_id.as_str()).is_some();
        let fidelity_supported = request.requested_fidelity_tier == FidelityTier::IdentityAware;
        let forward_support = if host_supported && profile_supported && fidelity_supported {
            SupportLevel::Full
        } else {
            SupportLevel::Unsupported
        };
        let mut notes: Vec<String> = Vec::new();
        notes.push(
            String::from_str("phase-12 windows-hid backend is planning-only; no device realization yet"),
        );
        notes.push(
            String::from_str(
                "deployment requirement: a signed virtual-HID bus driver must be installed before realization",
            ),
        );
        let ghost base = notes@.map_values(|note: String| note@);
        assert(base =~= seq![planning_only_note(), deployment_requirement()]);
        if !host_supported {
            notes.push(String::from_str("requested host platform does not match windows-hid"));
        }
        let ghost after_host = notes@.map_values(|note: String| note@);
        if !profile_supported {
            let mut note = String::from_str("profile `");
            note.append(request.profile_id.as_str());
            note.append("` is not registered, so the Phase 12 Windows HID foundation cannot plan it");
            notes.push(note);
        }
        let ghost after_profile = notes@.map_values(|note: String| note@);
        if request.requested_fidelity_tier == FidelityTier::HardwareFaithful {
            notes.push(
                String::from_str(
                    "hardware-faithful transport behavior is out of scope for the Phase 12 windows-hid provider foundation",
                ),
            );
        } else if request.requested_fidelity_tier == FidelityTier::Compatibility {
            notes.push(
                String::from_str(
                    "compatibility-tier downgrade targets are not modeled by the Phase 12 windows-hid provider foundation",
                ),
            );
        }
        assert(notes@.map_values(|note: String| note@) =~= support_notes(*request));
        let supported_output_functions = if forward_support == SupportLevel::Full {
            copy_functions(&request.required_output_functions)
        } else {
            Vec::new()
        };
        BackendSupportReport {
            forward_support,
            reverse_support: forward_support,
            supported_output_functions,
            unsupported_output_functions: Vec::new(),
            notes,
        }
    }

    /// This provider never opens a session.
    fn open_session(&self, _context: &BackendOpenContext) -> (result: Result<
        WindowsHidBackendSession,
        BackendError,
    >)
        ensures
            result matches Err(BackendError::Unsupported { reason }) && reason@
                == planning_only_reason(),
    {
        Err(
            BackendError::Unsupported {
                reason: String::from_str(
                    "windows-hid realization is not implemented in Phase 12; this provider is planning-only",
                ),
            },
        )
    }
}

/// A Windows HID session: it refuses to start, and refuses every frame
/// and drain as closed.
#[derive(Debug)]
pub struct WindowsHidBackendSession {
    pub session_id: u64,
    pub state: BackendState,
    pub last_error: Option<String>,
}

impl WindowsHidBackendSession {
    /// A session not yet opened.
    pub fn new(session_id: u64) -> (session: Self)
        ensures
            session.session_id == session_id,
            session.state == BackendState::NotOpen,
            session.last_error is None,
    {
        WindowsHidBackendSession { session_id, state: BackendState::NotOpen, last_error: None }
    }
}

impl BackendSession for WindowsHidBackendSession {
    /// Nothing is counted, so there is always room.
    open spec fn can_continue(&self) -> bool {
        true
    }

    open spec fn spec_session_id(&self) -> u64 {
        self.session_id
    }

    /// Starting fails with the planning-only reason, which becomes the
    /// last error, and marks the session failed.
    open spec fn opened(before: Self, after: Self, result: Result<(), BackendError>) -> bool {
        &&& result matches Err(BackendError::Unsupported { reason }) && reason@
            == planning_only_reason()
        &&& after.state == BackendState::Failed
        &&& after.last_error matches Some(text) && text@ == result->Err_0.spec_message()
        &&& after.session_id == before.session_id
    }

    /// Every frame is refused as closed.
    open spec fn sent(before: Self, after: Self, frame: BackendFrame, result: Result<(), BackendError>) -> bool {
        &&& result == Err::<(), BackendError>(BackendError::SessionClosed)
        &&& after.last_error matches Some(text) && text@
            == BackendError::SessionClosed.spec_message()
        &&& after.state == before.state
        &&& after.session_id == before.session_id
    }

    /// Draining is refused as closed, handing out nothing.
    open spec fn drained(
        before: Self,
        after: Self,
        handed: Seq<BackendReverseEvent>,
        result: Result<(), BackendError>,
    ) -> bool {
        &&& result == Err::<(), BackendError>(BackendError::SessionClosed)
        &&& handed.len() == 0
        &&& after.last_error matches Some(text) && text@
            == BackendError::SessionClosed.spec_message()
        &&& after.state == before.state
        &&& after.session_id == before.session_id
    }

    /// Reverse events never become ready.
    open spec fn readied(before: Self, after: Self, readiness: EventReadiness) -> bool {
        readiness == EventReadiness::NoReverseEvents && after == before
    }

    /// Closing always succeeds and marks the session closed.
    open spec fn closed_with(before: Self, after: Self, result: Result<(), BackendError>) -> bool {
        &&& result is Ok
        &&& after.state == BackendState::Closed
        &&& after.last_error == before.last_error
        &&& after.session_id == before.session_id
    }

    fn session_id(&self) -> (id: u64)
        ensures
            id == self.session_id,
    {
        self.session_id
    }

    /// Refused: the session fails with the planning-only reason.
    fn open(&mut self) -> (result: Result<(), BackendError>)
        ensures
            result matches Err(BackendError::Unsupported { reason }) && reason@
                == planning_only_reason(),
            final(self).state == BackendState::Failed,
            final(self).last_error matches Some(text) && text@ == result->Err_0.spec_message(),
            final(self).session_id == old(self).session_id,
    {
        let error = BackendError::Unsupported {
            reason: String::from_str(
                "windows-hid realization is not implemented in Phase 12; this provider is planning-only",
            ),
        };
        self.state = BackendState::Failed;
        self.last_error = Some(error.message());
        Err(error)
    }

    /// Refused as closed.
    fn send(&mut self, _frame: BackendFrame) -> (result: Result<(), BackendError>)
        ensures
            result == Err::<(), BackendError>(BackendError::SessionClosed),
            final(self).last_error matches Some(text) && text@
                == BackendError::SessionClosed.spec_message(),
            final(self).state == old(self).state,
            final(self).session_id == old(self).session_id,
    {
        let error = BackendError::SessionClosed;
        self.last_error = Some(error.message());
        Err(error)
    }

    /// Refused as closed; nothing is added to `out`.
    fn drain_reverse_events(&mut self, out: &mut Vec<BackendReverseEvent>) -> (result: Result<
        (),
        BackendError,
    >)
        ensures
            result == Err::<(), BackendError>(BackendError::SessionClosed),
            final(out)@ == old(out)@,
            final(self).last_error matches Some(text) && text@
                == BackendError::SessionClosed.spec_message(),
            final(self).state == old(self).state,
            final(self).session_id == old(self).session_id,
    {
        let error = BackendError::SessionClosed;
        self.last_error = Some(error.message());
        Err(error)
    }

    fn readiness(&mut self) -> (readiness: EventReadiness)
        ensures
            readiness == EventReadiness::NoReverseEvents,
            *final(self) == *old(self),
    {
        EventReadiness::NoReverseEvents
    }

    /// Nothing sent or drained; the state and last error as they stand.
    fn diagnostics(&self) -> (diagnostics: BackendDiagnostics)
        ensures
            diagnostics.backend_id@ == "windows-hid"@,
            diagnostics.family == BackendFamily::WindowsHid,
            diagnostics.state == self.state,
            diagnostics.frames_sent == 0,
            diagnostics.reverse_events_drained == 0,
            diagnostics.write_failures == 0,
            diagnostics.last_error == self.last_error,
            diagnostics.vendor_counters@ == Map::<String, u64>::empty(),
    {
        BackendDiagnostics {
            backend_id: String::from_str("windows-hid"),
            family: BackendFamily::WindowsHid,
            state: self.state,
            frames_sent: 0,
            reverse_events_drained: 0,
            write_failures: 0,
            last_error: self.last_error.clone(),
            vendor_counters: BTreeMap::new(),
        }
    }

    fn close(&mut self) -> (result: Result<(), BackendError>)
        ensures
            result is Ok,
            final(self).state == BackendState::Closed,
            final(self).last_error == old(self).last_error,
            final(self).session_id == old(self).session_id,
    {
        self.state = BackendState::Closed;
        Ok(())
    }
}

} // verus!
