//! The bookkeeping a running session keeps: its lifecycle, last error,
//! diagnostics counters, last submitted frame and last backend
//! diagnostics, and the status and diagnostics snapshots built from them.

use vstd::prelude::*;

use crate::inputs::{ProfileInputFrame, ProfileInputPayload};
use crate::backend_api::BackendDiagnostics;
use crate::runtime_model::{SessionDiagnosticsSnapshot, SessionLifecycleState, SessionStatusSnapshot};
use crate::session::counter_keys::{
    FRAMES_COALESCED, FRAMES_RECEIVED, FRAMES_WRITTEN, INPUT_QUEUE_DEPTH_HWM,
    REVERSE_EVENTS_DROPPED, REVERSE_EVENTS_EMITTED, REVERSE_EVENTS_RECEIVED,
    REVERSE_QUEUE_DEPTH_HWM, TRANSLATION_LATENCY_P95_US, WRITE_FAILURES,
};
use crate::session_options::same_text;

verus! {

/// One of the session diagnostics counters.
#[derive(Debug, Clone, Copy, PartialEq, Eq, Structural)]
pub enum CounterKey {
    FramesReceived,
    FramesCoalesced,
    FramesWritten,
    WriteFailures,
    ReverseEventsReceived,
    ReverseEventsEmitted,
    ReverseEventsDropped,
    InputQueueDepthHwm,
    ReverseQueueDepthHwm,
    TranslationLatencyP95Us,
}

/// The number of session counters.
pub const COUNTER_COUNT: usize = 10;

/// A counter's position in reporting order.
pub open spec fn counter_index(key: CounterKey) -> int {
    match key {
        CounterKey::FramesReceived => 0,
        CounterKey::FramesCoalesced => 1,
        CounterKey::FramesWritten => 2,
        CounterKey::WriteFailures => 3,
        CounterKey::ReverseEventsReceived => 4,
        CounterKey::ReverseEventsEmitted => 5,
        CounterKey::ReverseEventsDropped => 6,
        CounterKey::InputQueueDepthHwm => 7,
        CounterKey::ReverseQueueDepthHwm => 8,
        CounterKey::TranslationLatencyP95Us => 9,
    }
}

/// The counter at a position of reporting order.
pub open spec fn counter_at(index: int) -> CounterKey {
    if index == 0 {
        CounterKey::FramesReceived
    } else if index == 1 {
        CounterKey::FramesCoalesced
    } else if index == 2 {
        CounterKey::FramesWritten
    } else if index == 3 {
        CounterKey::WriteFailures
    } else if index == 4 {
        CounterKey::ReverseEventsReceived
    } else if index == 5 {
        CounterKey::ReverseEventsEmitted
    } else if index == 6 {
        CounterKey::ReverseEventsDropped
    } else if index == 7 {
        CounterKey::InputQueueDepthHwm
    } else if index == 8 {
        CounterKey::ReverseQueueDepthHwm
    } else {
        CounterKey::TranslationLatencyP95Us
    }
}

/// The name a counter is reported under.
pub open spec fn spec_counter_name(key: CounterKey) -> Seq<char> {
    match key {
        CounterKey::FramesReceived => FRAMES_RECEIVED@,
        CounterKey::FramesCoalesced => FRAMES_COALESCED@,
        CounterKey::FramesWritten => FRAMES_WRITTEN@,
        CounterKey::WriteFailures => WRITE_FAILURES@,
        CounterKey::ReverseEventsReceived => REVERSE_EVENTS_RECEIVED@,
        CounterKey::ReverseEventsEmitted => REVERSE_EVENTS_EMITTED@,
        CounterKey::ReverseEventsDropped => REVERSE_EVENTS_DROPPED@,
        CounterKey::InputQueueDepthHwm => INPUT_QUEUE_DEPTH_HWM@,
        CounterKey::ReverseQueueDepthHwm => REVERSE_QUEUE_DEPTH_HWM@,
        CounterKey::TranslationLatencyP95Us => TRANSLATION_LATENCY_P95_US@,
    }
}

impl CounterKey {
    /// The name this counter is reported under.
    pub fn name(&self) -> (name: &'static str)
        ensures
            name@ == spec_counter_name(*self),
    {
        match self {
            CounterKey::FramesReceived => FRAMES_RECEIVED,
            CounterKey::FramesCoalesced => FRAMES_COALESCED,
            CounterKey::FramesWritten => FRAMES_WRITTEN,
            CounterKey::WriteFailures => WRITE_FAILURES,
            CounterKey::ReverseEventsReceived => REVERSE_EVENTS_RECEIVED,
            CounterKey::ReverseEventsEmitted => REVERSE_EVENTS_EMITTED,
            CounterKey::ReverseEventsDropped => REVERSE_EVENTS_DROPPED,
            CounterKey::InputQueueDepthHwm => INPUT_QUEUE_DEPTH_HWM,
            CounterKey::ReverseQueueDepthHwm => REVERSE_QUEUE_DEPTH_HWM,
            CounterKey::TranslationLatencyP95Us => TRANSLATION_LATENCY_P95_US,
        }
    }

    fn index(&self) -> (index: usize)
        ensures
            index == counter_index(*self),
    {
        match self {
            CounterKey::FramesReceived => 0,
            CounterKey::FramesCoalesced => 1,
            CounterKey::FramesWritten => 2,
            CounterKey::WriteFailures => 3,
            CounterKey::ReverseEventsReceived => 4,
            CounterKey::ReverseEventsEmitted => 5,
            CounterKey::ReverseEventsDropped => 6,
            CounterKey::InputQueueDepthHwm => 7,
            CounterKey::ReverseQueueDepthHwm => 8,
            CounterKey::TranslationLatencyP95Us => 9,
        }
    }

    fn from_index(index: usize) -> (key: CounterKey)
        requires
            index < COUNTER_COUNT,
        ensures
            key == counter_at(index as int),
    {
        if index == 0 {
            CounterKey::FramesReceived
        } else if index == 1 {
            CounterKey::FramesCoalesced
        } else if index == 2 {
            CounterKey::FramesWritten
        } else if index == 3 {
            CounterKey::WriteFailures
        } else if index == 4 {
            CounterKey::ReverseEventsReceived
        } else if index == 5 {
            CounterKey::ReverseEventsEmitted
        } else if index == 6 {
            CounterKey::ReverseEventsDropped
        } else if index == 7 {
            CounterKey::InputQueueDepthHwm
        } else if index == 8 {
            CounterKey::ReverseQueueDepthHwm
        } else {
            CounterKey::TranslationLatencyP95Us
        }
    }
}

/// Every counter sits at the position it is reported at.
pub proof fn lemma_counter_positions(key: CounterKey)
    ensures
        0 <= counter_index(key) < COUNTER_COUNT,
        counter_at(counter_index(key)) == key,
{
}

/// The state a session keeps while it runs.
#[derive(Debug)]
pub struct SessionState {
    pub session_id: u64,
    pub profile_id: String,
    pub lifecycle: SessionLifecycleState,
    pub last_error: Option<String>,
    pub counters: Vec<u64>,
    pub last_payload: Option<ProfileInputPayload>,
    pub last_sequence: Option<u64>,
    pub last_backend_diagnostics: Option<BackendDiagnostics>,
}

/// Whether a lifecycle state means the session is done taking work.
pub open spec fn spec_is_closed(lifecycle: SessionLifecycleState) -> bool {
    lifecycle == SessionLifecycleState::Closing || lifecycle == SessionLifecycleState::Closed
        || lifecycle == SessionLifecycleState::Failed
}

impl SessionState {
    /// One value per counter.
    pub open spec fn wf(&self) -> bool {
        self.counters@.len() == COUNTER_COUNT
    }

    /// The value of a counter.
    pub open spec fn counter(&self, key: CounterKey) -> u64 {
        self.counters@[counter_index(key)]
    }

    /// The state of a session that was just created: no error, every
    /// counter at zero, nothing submitted yet.
    pub fn new(session_id: u64, profile_id: String) -> (state: Self)
        ensures
            state.wf(),
            state.session_id == session_id,
            state.profile_id@ == profile_id@,
            state.lifecycle == SessionLifecycleState::Created,
            state.last_error is None,
            forall|key: CounterKey| state.counter(key) == 0,
            state.last_payload is None,
            state.last_sequence is None,
            state.last_backend_diagnostics is None,
    {
        let mut counters: Vec<u64> = Vec::new();
        let mut index: usize = 0;
        while index < COUNTER_COUNT
            invariant
                index <= COUNTER_COUNT,
                counters@.len() == index,
                forall|i: int| 0 <= i < index ==> counters@[i] == 0,
            decreases COUNTER_COUNT - index,
        {
            counters.push(0);
            index = index + 1;
        }
        SessionState {
            session_id,
            profile_id,
            lifecycle: SessionLifecycleState::Created,
            last_error: None,
            counters,
            last_payload: None,
            last_sequence: None,
            last_backend_diagnostics: None,
        }
    }

    /// The value of a counter.
    pub fn counter_value(&self, key: CounterKey) -> (value: u64)
        requires
            self.wf(),
        ensures
            value == self.counter(key),
    {
        self.counters[key.index()]
    }

    /// Move the session to another lifecycle state.
    pub fn set_state(&mut self, lifecycle: SessionLifecycleState)
        ensures
            final(self).lifecycle == lifecycle,
            final(self).session_id == old(self).session_id,
            final(self).profile_id == old(self).profile_id,
            final(self).last_error == old(self).last_error,
            final(self).wf() == old(self).wf(),
            forall|key: CounterKey| final(self).counter(key) == old(self).counter(key),
            final(self).last_payload == old(self).last_payload,
            final(self).last_sequence == old(self).last_sequence,
            final(self).last_backend_diagnostics == old(self).last_backend_diagnostics,
    {
        self.lifecycle = lifecycle;
    }

    /// Whether the session is closing, closed or failed.
    pub fn is_closed(&self) -> (closed: bool)
        ensures
            closed == spec_is_closed(self.lifecycle),
    {
        match self.lifecycle {
            SessionLifecycleState::Closing | SessionLifecycleState::Closed
            | SessionLifecycleState::Failed => true,
            _ => false,
        }
    }

    /// Add `amount` to a counter; the others keep their values.
    pub fn increment_counter(&mut self, key: CounterKey, amount: u64)
        requires
            old(self).wf(),
            old(self).counter(key) + amount <= u64::MAX,
        ensures
            final(self).wf(),
            final(self).counter(key) == old(self).counter(key) + amount,
            forall|other: CounterKey| other != key ==> final(self).counter(other) == old(
                self,
            ).counter(other),
            final(self).lifecycle == old(self).lifecycle,
            final(self).last_error == old(self).last_error,
            final(self).last_payload == old(self).last_payload,
            final(self).last_sequence == old(self).last_sequence,
            final(self).last_backend_diagnostics == old(self).last_backend_diagnostics,
            final(self).session_id == old(self).session_id,
            final(self).profile_id == old(self).profile_id,
    {
        let index = key.index();
        let value = self.counters[index] + amount;
        self.counters.set(index, value);
        proof {
            assert forall|other: CounterKey| other != key implies final(self).counter(other) == old(
                self,
            ).counter(other) by {
                lemma_counter_positions(other);
                lemma_counter_positions(key);
            }
        }
    }

    /// Raise a high-water-mark counter to `depth` if it is below it.
    pub fn observe_hwm(&mut self, key: CounterKey, depth: usize)
        requires
            old(self).wf(),
        ensures
            final(self).wf(),
            final(self).counter(key) == (if (depth as u64) > old(self).counter(key) {
                depth as u64
            } else {
                old(self).counter(key)
            }),
            old(self).counter(key) <= final(self).counter(key),
            depth as u64 <= final(self).counter(key),
            forall|other: CounterKey| other != key ==> final(self).counter(other) == old(
                self,
            ).counter(other),
            final(self).lifecycle == old(self).lifecycle,
            final(self).last_error == old(self).last_error,
            final(self).last_payload == old(self).last_payload,
            final(self).last_sequence == old(self).last_sequence,
            final(self).last_backend_diagnostics == old(self).last_backend_diagnostics,
            final(self).session_id == old(self).session_id,
            final(self).profile_id == old(self).profile_id,
    {
        let index = key.index();
        let observed = depth as u64;
        if observed > self.counters[index] {
            self.counters.set(index, observed);
        }
        proof {
            assert forall|other: CounterKey| other != key implies final(self).counter(other) == old(
                self,
            ).counter(other) by {
                lemma_counter_positions(other);
                lemma_counter_positions(key);
            }
        }
    }

    /// Record the session's latest error, replacing any earlier one.
    pub fn set_last_error(&mut self, error: String)
        ensures
            final(self).last_error == Some(error),
            final(self).lifecycle == old(self).lifecycle,
            final(self).wf() == old(self).wf(),
            forall|key: CounterKey| final(self).counter(key) == old(self).counter(key),
            final(self).last_payload == old(self).last_payload,
            final(self).last_sequence == old(self).last_sequence,
            final(self).last_backend_diagnostics == old(self).last_backend_diagnostics,
            final(self).session_id == old(self).session_id,
            final(self).profile_id == old(self).profile_id,
    {
        self.last_error = Some(error);
    }

    /// Record a full frame submitted to the session: it becomes the base
    /// later deltas apply to, and `frames.received` counts it.
    pub fn note_frame_submission(&mut self, frame: &ProfileInputFrame)
        requires
            old(self).wf(),
            old(self).counter(CounterKey::FramesReceived) < u64::MAX,
        ensures
            final(self).wf(),
            final(self).last_payload == Some(frame.payload),
            final(self).last_sequence == Some(frame.sequence),
            final(self).counter(CounterKey::FramesReceived) == old(self).counter(
                CounterKey::FramesReceived,
            ) + 1,
            forall|other: CounterKey| other != CounterKey::FramesReceived ==> final(self).counter(
                other,
            ) == old(self).counter(other),
            final(self).lifecycle == old(self).lifecycle,
            final(self).last_error == old(self).last_error,
            final(self).last_backend_diagnostics == old(self).last_backend_diagnostics,
            final(self).session_id == old(self).session_id,
            final(self).profile_id == old(self).profile_id,
    {
        self.last_payload = Some(frame.payload);
        self.last_sequence = Some(frame.sequence);
        self.increment_counter(CounterKey::FramesReceived, 1);
    }

    /// Keep the diagnostics the backend last reported.
    pub fn note_backend_diagnostics(&mut self, diagnostics: BackendDiagnostics)
        ensures
            final(self).last_backend_diagnostics == Some(diagnostics),
            final(self).lifecycle == old(self).lifecycle,
            final(self).last_error == old(self).last_error,
            final(self).wf() == old(self).wf(),
            forall|key: CounterKey| final(self).counter(key) == old(self).counter(key),
            final(self).last_payload == old(self).last_payload,
            final(self).last_sequence == old(self).last_sequence,
            final(self).session_id == old(self).session_id,
            final(self).profile_id == old(self).profile_id,
    {
        self.last_backend_diagnostics = Some(diagnostics);
    }

    /// The session's last error and every counter, in reporting order.
    pub fn diagnostics_snapshot(&self) -> (snapshot: SessionDiagnosticsSnapshot)
        requires
            self.wf(),
        ensures
            snapshot.session_id == Some(self.session_id),
            same_text(snapshot.last_error, self.last_error),
            snapshot.counters@.len() == COUNTER_COUNT,
            forall|i: int|
                0 <= i < COUNTER_COUNT ==> {
                    &&& (#[trigger] snapshot.counters@[i]).0@ == spec_counter_name(counter_at(i))
                    &&& snapshot.counters@[i].1 == self.counter(counter_at(i))
                },
    {
        let last_error = match &self.last_error {
            Some(text) => Some(text.clone()),
            None => None,
        };
        let mut counters: Vec<(String, u64)> = Vec::new();
        let mut index: usize = 0;
        while index < COUNTER_COUNT
            invariant
                self.wf(),
                index <= COUNTER_COUNT,
                counters@.len() == index,
                forall|i: int|
                    0 <= i < index ==> {
                        &&& (#[trigger] counters@[i]).0@ == spec_counter_name(counter_at(i))
                        &&& counters@[i].1 == self.counter(counter_at(i))
                    },
            decreases COUNTER_COUNT - index,
        {
            let key = CounterKey::from_index(index);
            proof {
                lemma_counter_positions(key);
            }
            counters.push((String::from_str(key.name()), self.counters[index]));
            index = index + 1;
        }
        SessionDiagnosticsSnapshot { session_id: Some(self.session_id), last_error, counters }
    }

    /// The session's lifecycle state, identity, and as warnings the error
    /// its backend last reported, if any.
    pub fn status_snapshot(&self) -> (snapshot: SessionStatusSnapshot)
        ensures
            snapshot.state == self.lifecycle,
            snapshot.session_id == Some(self.session_id),
            snapshot.profile_id matches Some(id) && id@ == self.profile_id@,
            match self.last_backend_diagnostics {
                Some(diagnostics) => match diagnostics.last_error {
                    Some(error) => snapshot.warnings@.len() == 1 && snapshot.warnings@[0]@
                        == error@,
                    None => snapshot.warnings@.len() == 0,
                },
                None => snapshot.warnings@.len() == 0,
            },
    {
        let mut warnings: Vec<String> = Vec::new();
        if let Some(diagnostics) = &self.last_backend_diagnostics {
            if let Some(error) = &diagnostics.last_error {
                warnings.push(error.clone());
            }
        }
        SessionStatusSnapshot {
            state: self.lifecycle,
            session_id: Some(self.session_id),
            profile_id: Some(self.profile_id.clone()),
            warnings,
        }
    }
}

} // verus!
