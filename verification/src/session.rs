//! Session-level errors and the names of the session diagnostics counters.

pub mod counter_keys;

use vstd::prelude::*;

verus! {

#[derive(Debug, Clone, Copy, PartialEq, Eq, Structural)]
#[non_exhaustive]
pub enum SessionError {
    SessionClosed,
    SubscriptionClosed,
    AudioNotAvailable,
}

impl SessionError {
    pub open spec fn spec_message(&self) -> Seq<char> {
        match self {
            SessionError::SessionClosed => "session has been closed"@,
            SessionError::SubscriptionClosed => "output subscription was cancelled or its sink dropped"@,
            SessionError::AudioNotAvailable =>
                "audio path not available for this session (profile + provider do not realize it)"@,
        }
    }

    /// The error's human-readable message.
    pub fn message(&self) -> (text: &'static str)
        ensures
            text@ == self.spec_message(),
    {
        match self {
            SessionError::SessionClosed => "session has been closed",
            SessionError::SubscriptionClosed => "output subscription was cancelled or its sink dropped",
            SessionError::AudioNotAvailable =>
                "audio path not available for this session (profile + provider do not realize it)",
        }
    }
}

#[derive(Debug, Clone, PartialEq, Eq)]
#[non_exhaustive]
pub enum SessionSendError {
    QueueFull,
    SessionClosed,
    InvalidInput { reason: String },
}

impl SessionSendError {
    pub open spec fn spec_message(&self) -> Seq<char> {
        match self {
            SessionSendError::QueueFull => "session input queue is full; frame would not coalesce"@,
            SessionSendError::SessionClosed => "session has been closed"@,
            SessionSendError::InvalidInput { reason } =>
                "input frame does not satisfy the profile contract: "@ + reason@,
        }
    }

    /// The error's human-readable message.
    pub fn message(&self) -> (text: String)
        ensures
            text@ == self.spec_message(),
    {
        match self {
            SessionSendError::QueueFull => String::from_str(
                "session input queue is full; frame would not coalesce",
            ),
            SessionSendError::SessionClosed => String::from_str("session has been closed"),
            SessionSendError::InvalidInput { reason } => {
                let mut text = String::from_str("input frame does not satisfy the profile contract: ");
                text.append(reason.as_str());
                text
            },
        }
    }
}

} // verus!
