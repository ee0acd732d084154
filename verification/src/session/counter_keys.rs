//! Names of the session diagnostics counters.

use vstd::prelude::*;

verus! {

pub const FRAMES_RECEIVED: &'static str = "frames.received";

pub const FRAMES_COALESCED: &'static str = "frames.coalesced";

pub const FRAMES_WRITTEN: &'static str = "frames.written";

pub const WRITE_FAILURES: &'static str = "write_failures";

pub const REVERSE_EVENTS_RECEIVED: &'static str = "reverse_events.received";

pub const REVERSE_EVENTS_EMITTED: &'static str = "reverse_events.emitted";

pub const REVERSE_EVENTS_DROPPED: &'static str = "reverse_events.dropped";

pub const INPUT_QUEUE_DEPTH_HWM: &'static str = "queue_depth.input.hwm";

pub const REVERSE_QUEUE_DEPTH_HWM: &'static str = "queue_depth.reverse.hwm";

pub const TRANSLATION_LATENCY_P95_US: &'static str = "translation.latency_p95_us";

/// Every counter a session reports, in reporting order.
pub fn all_counter_keys() -> (keys: Vec<&'static str>)
    ensures
        keys@.len() == 10,
        keys@[0] == FRAMES_RECEIVED,
        keys@[1] == FRAMES_COALESCED,
        keys@[2] == FRAMES_WRITTEN,
        keys@[3] == WRITE_FAILURES,
        keys@[4] == REVERSE_EVENTS_RECEIVED,
        keys@[5] == REVERSE_EVENTS_EMITTED,
        keys@[6] == REVERSE_EVENTS_DROPPED,
        keys@[7] == INPUT_QUEUE_DEPTH_HWM,
        keys@[8] == REVERSE_QUEUE_DEPTH_HWM,
        keys@[9] == TRANSLATION_LATENCY_P95_US,
{
    let mut keys: Vec<&'static str> = Vec::new();
    keys.push(FRAMES_RECEIVED);
    keys.push(FRAMES_COALESCED);
    keys.push(FRAMES_WRITTEN);
    keys.push(WRITE_FAILURES);
    keys.push(REVERSE_EVENTS_RECEIVED);
    keys.push(REVERSE_EVENTS_EMITTED);
    keys.push(REVERSE_EVENTS_DROPPED);
    keys.push(INPUT_QUEUE_DEPTH_HWM);
    keys.push(REVERSE_QUEUE_DEPTH_HWM);
    keys.push(TRANSLATION_LATENCY_P95_US);
    keys
}

} // verus!
