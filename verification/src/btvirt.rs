//! Client side of the provider for the fixed-purpose privileged btvirt
//! broker: a session that accepts only DualSense Bluetooth input reports.

use vstd::prelude::*;

use crate::realization::{ProviderDiagnostics, ProviderError, ProviderErrorView, ProviderState};

verus! {

/// The length of a DualSense Bluetooth input report.
pub const BTVIRT_INPUT_REPORT_LEN: usize = 78;

/// The client-side provider of the btvirt broker.
#[derive(Debug, Clone, Copy, Default)]
pub struct LinuxBtvirtProvider;

/// An open btvirt session.
#[derive(Debug)]
pub struct BtvirtSession {
    pub state: ProviderState,
    pub sent: u64,
}

impl BtvirtSession {
    pub fn new() -> (session: Self)
        ensures
            session.state == ProviderState::Open,
            session.sent == 0,
    {
        BtvirtSession { state: ProviderState::Open, sent: 0 }
    }

    /// Send one input report: refused once closed, and refused unless it
    /// is exactly one DualSense Bluetooth input report long.
    pub fn send_input(&mut self, bytes: Vec<u8>) -> (result: Result<(), ProviderError>)
        ensures
            final(self).state == old(self).state,
            old(self).state != ProviderState::Open ==> {
                &&& result matches Err(e)
                &&& e@ == ProviderErrorView::Closed
                &&& final(self).sent == old(self).sent
            },
            old(self).state == ProviderState::Open && bytes@.len() != BTVIRT_INPUT_REPORT_LEN ==> {
                &&& result matches Err(e)
                &&& e@ == (ProviderErrorView::Unsupported {
                    reason: "btvirt accepts only exact 78-byte DualSense Bluetooth input reports"@,
                })
                &&& final(self).sent == old(self).sent
            },
            old(self).state == ProviderState::Open && bytes@.len() == BTVIRT_INPUT_REPORT_LEN ==> {
                &&& result is Ok
                &&& final(self).sent == (if old(self).sent == u64::MAX {
                    u64::MAX as int
                } else {
                    old(self).sent + 1
                })
            },
    {
        if self.state != ProviderState::Open {
            return Err(ProviderError::Closed);
        }
        if bytes.len() == BTVIRT_INPUT_REPORT_LEN {
            self.sent = self.sent.saturating_add(1);
            Ok(())
        } else {
            Err(
                ProviderError::Unsupported {
                    reason: String::from_str(
                        "btvirt accepts only exact 78-byte DualSense Bluetooth input reports",
                    ),
                },
            )
        }
    }

    /// The broker reports no host output events: an open session would
    /// block, a closed one is closed.
    pub fn drain_reverse_events(&self) -> (result: Result<(), ProviderError>)
        ensures
            result matches Err(e) && e@ == (if self.state == ProviderState::Open {
                ProviderErrorView::WouldBlock
            } else {
                ProviderErrorView::Closed
            }),
    {
        if self.state == ProviderState::Open {
            Err(ProviderError::WouldBlock)
        } else {
            Err(ProviderError::Closed)
        }
    }

    pub fn diagnostics(&self) -> (diagnostics: ProviderDiagnostics)
        ensures
            diagnostics.state == self.state,
            diagnostics.frames_sent == self.sent,
            diagnostics.reverse_events_drained == 0,
            diagnostics.write_failures == 0,
            diagnostics.lifecycle_events == 0,
            diagnostics.last_error is None,
    {
        ProviderDiagnostics {
            state: self.state,
            frames_sent: self.sent,
            reverse_events_drained: 0,
            write_failures: 0,
            lifecycle_events: 0,
            last_error: None,
        }
    }

    pub fn close(&mut self) -> (result: Result<(), ProviderError>)
        ensures
            result is Ok,
            final(self).state == ProviderState::Closed,
            final(self).sent == old(self).sent,
    {
        self.state = ProviderState::Closed;
        Ok(())
    }
}

} // verus!
